//! Aggregation of a generation engine's event stream into the final reply
//! text, under a token budget and an optional stop request.
use vstd::prelude::*;

verus! {

/// One event reported by the generation engine while it works on a request.
#[derive(Clone, Debug)]
pub enum GenerationEvent {
    /// Internal bookkeeping of the engine; carries no output.
    Snapshot,
    /// A token of the prompt echoed back; carries no output.
    PromptEcho,
    /// A newly generated token, as text.
    Inferred(String),
    /// The engine reached the end of its text.
    EndOfText,
}

/// The answer to the engine after each event.
#[derive(Clone, Copy, Debug, PartialEq, Eq, Structural)]
pub enum Feedback {
    Continue,
    Stop,
}

/// The state of an aggregation, as plain mathematical values.
pub struct AggState {
    pub text: Seq<char>,
    /// Inferred events taken so far (each one is a token of the budget).
    pub taken: nat,
    pub max_tokens: nat,
    /// An end of text was seen.
    pub ended: bool,
    /// A stop was requested from outside.
    pub stopped: bool,
}

pub open spec fn initial_state(max_tokens: nat) -> AggState {
    AggState { text: Seq::empty(), taken: 0, max_tokens, ended: false, stopped: false }
}

/// No further event changes the text: end of text, budget reached, or stopped.
pub open spec fn is_closed(s: AggState) -> bool {
    s.ended || s.stopped || s.taken >= s.max_tokens
}

/// How one event changes the state.
pub open spec fn next_state(s: AggState, e: GenerationEvent) -> AggState {
    if is_closed(s) {
        s
    } else {
        match e {
            GenerationEvent::Inferred(t) => AggState {
                text: s.text + t@,
                taken: s.taken + 1,
                ..s
            },
            GenerationEvent::EndOfText => AggState { ended: true, ..s },
            _ => s,
        }
    }
}

/// The state after a whole sequence of events, taken in order.
pub open spec fn run_events(s: AggState, events: Seq<GenerationEvent>) -> AggState
    decreases events.len(),
{
    if events.len() == 0 {
        s
    } else {
        next_state(run_events(s, events.drop_last()), events.last())
    }
}

/// The text an `Inferred` event carries; nothing for the other events.
pub open spec fn payload(e: GenerationEvent) -> Seq<char> {
    match e {
        GenerationEvent::Inferred(t) => t@,
        _ => Seq::empty(),
    }
}

/// The concatenation, in order, of all `Inferred` payloads.
pub open spec fn inferred_concat(events: Seq<GenerationEvent>) -> Seq<char>
    decreases events.len(),
{
    if events.len() == 0 {
        Seq::empty()
    } else {
        inferred_concat(events.drop_last()) + payload(events.last())
    }
}

/// The number of `Inferred` events.
pub open spec fn inferred_count(events: Seq<GenerationEvent>) -> nat
    decreases events.len(),
{
    if events.len() == 0 {
        0
    } else {
        inferred_count(events.drop_last()) + if events.last() is Inferred { 1nat } else { 0nat }
    }
}

/// The final text of a request with budget `max_tokens` whose engine reported `events`.
pub open spec fn final_text(events: Seq<GenerationEvent>, max_tokens: nat) -> Seq<char> {
    run_events(initial_state(max_tokens), events).text
}

/// With no end of text before the last event and no more `Inferred` events
/// than the budget, the state after the events holds every `Inferred` payload
/// in order, has taken each of them, and was neither ended nor stopped.
proof fn lemma_run_without_end(events: Seq<GenerationEvent>, max_tokens: nat)
    requires
        forall|i: int| 0 <= i < events.len() ==> !(#[trigger] events[i] is EndOfText),
        inferred_count(events) <= max_tokens,
    ensures
        run_events(initial_state(max_tokens), events).text == inferred_concat(events),
        run_events(initial_state(max_tokens), events).taken == inferred_count(events),
        run_events(initial_state(max_tokens), events).max_tokens == max_tokens,
        !run_events(initial_state(max_tokens), events).ended,
        !run_events(initial_state(max_tokens), events).stopped,
    decreases events.len(),
{
    if events.len() > 0 {
        let prefix = events.drop_last();
        assert forall|i: int| 0 <= i < prefix.len() implies !(#[trigger] prefix[i] is EndOfText) by {
            assert(prefix[i] == events[i]);
        }
        lemma_run_without_end(prefix, max_tokens);
        assert(!(events[events.len() - 1] is EndOfText));
    }
}

/// The final text of a request is the concatenation, in order, of the
/// `Inferred` payloads of its events (empty ones add nothing), while the
/// budget is not exceeded and an end of text comes at most as the last event;
/// the other events contribute nothing.
pub proof fn lemma_final_text_is_concat(events: Seq<GenerationEvent>, max_tokens: nat)
    requires
        forall|i: int| 0 <= i < events.len() - 1 ==> !(#[trigger] events[i] is EndOfText),
        inferred_count(events) <= max_tokens,
    ensures
        final_text(events, max_tokens) == inferred_concat(events),
{
    if events.len() > 0 {
        let prefix = events.drop_last();
        assert forall|i: int| 0 <= i < prefix.len() implies !(#[trigger] prefix[i] is EndOfText) by {
            assert(prefix[i] == events[i]);
        }
        lemma_run_without_end(prefix, max_tokens);
    }
}

/// An aggregation never takes more `Inferred` events than its budget, and
/// with a budget of zero its final text is empty.
pub proof fn lemma_budget_respected(events: Seq<GenerationEvent>, max_tokens: nat)
    ensures
        run_events(initial_state(max_tokens), events).taken <= max_tokens,
        run_events(initial_state(max_tokens), events).max_tokens == max_tokens,
        max_tokens == 0 ==> final_text(events, max_tokens) == Seq::<char>::empty(),
    decreases events.len(),
{
    if events.len() > 0 {
        lemma_budget_respected(events.drop_last(), max_tokens);
    }
}

/// Accumulates the text of one generation request.
pub struct TokenStreamAggregator {
    text: String,
    taken: usize,
    max_tokens: usize,
    ended: bool,
    stopped: bool,
}

impl TokenStreamAggregator {
    pub closed spec fn view(&self) -> AggState {
        AggState {
            text: self.text@,
            taken: self.taken as nat,
            max_tokens: self.max_tokens as nat,
            ended: self.ended,
            stopped: self.stopped,
        }
    }

    pub closed spec fn wf(&self) -> bool {
        self.taken <= self.max_tokens
    }

    pub fn new(max_tokens: usize) -> (r: Self)
        ensures
            r.wf(),
            r.view() == initial_state(max_tokens as nat),
    {
        TokenStreamAggregator {
            text: String::new(),
            taken: 0,
            max_tokens,
            ended: false,
            stopped: false,
        }
    }

    /// Handles one event; answers `Stop` only once a stop was requested.
    pub fn on_event(&mut self, event: &GenerationEvent) -> (r: Feedback)
        requires
            old(self).wf(),
        ensures
            final(self).wf(),
            final(self).view() == next_state(old(self).view(), *event),
            r == (if final(self).view().stopped { Feedback::Stop } else { Feedback::Continue }),
    {
        if !(self.ended || self.stopped || self.taken >= self.max_tokens) {
            match event {
                GenerationEvent::Inferred(t) => {
                    if !t.as_str().is_empty() {
                        self.text.append(t.as_str());
                    }
                    self.taken = self.taken + 1;
                },
                GenerationEvent::EndOfText => {
                    self.ended = true;
                },
                _ => {},
            }
        }
        if self.stopped {
            Feedback::Stop
        } else {
            Feedback::Continue
        }
    }

    /// Requests that generation stop; the text taken so far is kept.
    pub fn request_stop(&mut self)
        requires
            old(self).wf(),
        ensures
            final(self).wf(),
            final(self).view() == (AggState { stopped: true, ..old(self).view() }),
    {
        self.stopped = true;
    }

    /// Whether further events can still add text.
    pub fn is_closed(&self) -> (r: bool)
        ensures
            r == is_closed(self.view()),
    {
        self.ended || self.stopped || self.taken >= self.max_tokens
    }

    /// The number of `Inferred` events taken so far.
    pub fn taken(&self) -> (r: usize)
        ensures
            r as nat == self.view().taken,
    {
        self.taken
    }

    /// The text accumulated so far.
    pub fn text(&self) -> (r: &str)
        ensures
            r@ == self.view().text,
    {
        self.text.as_str()
    }

    /// Ends the aggregation and hands out its text.
    pub fn into_text(self) -> (r: String)
        ensures
            r@ == self.view().text,
    {
        self.text
    }
}

/// The final text of a request with budget `max_tokens` whose engine
/// reported `events`, in order.
pub fn aggregate(events: &Vec<GenerationEvent>, max_tokens: usize) -> (r: String)
    ensures
        r@ == final_text(events@, max_tokens as nat),
{
    let mut agg = TokenStreamAggregator::new(max_tokens);
    let mut i: usize = 0;
    while i < events.len()
        invariant
            i <= events@.len(),
            agg.wf(),
            agg.view() == run_events(initial_state(max_tokens as nat), events@.take(i as int)),
        decreases events@.len() - i,
    {
        assert(events@.take(i + 1).drop_last() =~= events@.take(i as int));
        agg.on_event(&events[i]);
        i = i + 1;
    }
    assert(events@.take(i as int) =~= events@);
    agg.into_text()
}

} // verus!
