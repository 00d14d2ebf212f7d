use voice_session::stream::{aggregate, Feedback, GenerationEvent, TokenStreamAggregator};

fn inferred(s: &str) -> GenerationEvent {
    GenerationEvent::Inferred(s.to_string())
}

#[test]
fn concatenates_inferred_in_order() {
    let events = vec![
        GenerationEvent::Snapshot,
        GenerationEvent::PromptEcho,
        inferred("Hel"),
        GenerationEvent::Snapshot,
        inferred("lo"),
        inferred(""),
        inferred(" world"),
        GenerationEvent::EndOfText,
    ];
    assert_eq!(aggregate(&events, 100), "Hello world");
}

#[test]
fn only_bookkeeping_events_give_empty_text() {
    let events = vec![
        GenerationEvent::PromptEcho,
        GenerationEvent::Snapshot,
        GenerationEvent::EndOfText,
    ];
    assert_eq!(aggregate(&events, 10), "");
    assert_eq!(aggregate(&Vec::new(), 10), "");
}

#[test]
fn events_after_end_of_text_are_ignored() {
    let events = vec![inferred("a"), GenerationEvent::EndOfText, inferred("b")];
    assert_eq!(aggregate(&events, 10), "a");
}

#[test]
fn zero_budget_gives_empty_text() {
    let events = vec![inferred("x"), inferred("y"), GenerationEvent::EndOfText];
    assert_eq!(aggregate(&events, 0), "");
}

#[test]
fn budget_caps_taken_fragments() {
    let events = vec![inferred("a"), inferred("b"), inferred("c"), inferred("d")];
    assert_eq!(aggregate(&events, 2), "ab");
    let mut agg = TokenStreamAggregator::new(2);
    for e in &events {
        assert_eq!(agg.on_event(e), Feedback::Continue);
        assert!(agg.taken() <= 2);
    }
    assert_eq!(agg.taken(), 2);
    assert!(agg.is_closed());
    assert_eq!(agg.into_text(), "ab");
}

#[test]
fn empty_fragment_counts_against_budget() {
    let events = vec![inferred(""), inferred("a"), inferred("b")];
    assert_eq!(aggregate(&events, 2), "a");
}

#[test]
fn stop_request_keeps_text() {
    let mut agg = TokenStreamAggregator::new(10);
    assert_eq!(agg.on_event(&inferred("kept")), Feedback::Continue);
    agg.request_stop();
    assert_eq!(agg.on_event(&inferred(" dropped")), Feedback::Stop);
    assert!(agg.is_closed());
    assert_eq!(agg.text(), "kept");
}

#[test]
fn continue_on_every_event_without_stop() {
    let mut agg = TokenStreamAggregator::new(1);
    assert_eq!(agg.on_event(&GenerationEvent::Snapshot), Feedback::Continue);
    assert_eq!(agg.on_event(&inferred("z")), Feedback::Continue);
    assert_eq!(agg.on_event(&GenerationEvent::EndOfText), Feedback::Continue);
    assert_eq!(agg.text(), "z");
}
