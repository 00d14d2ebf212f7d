//! The per-turn protocol of a conversation session, as a state machine.
//!
//! The session decides; its caller performs the work. Each call of
//! [`AiSession::step`] takes what happened (a line was read, the engine
//! reported an event, speech was synthesised, playback drained) and answers
//! with the next thing to do. Turns are strictly sequential: a new line is
//! only taken between turns, after the previous reply has been played out.
use vstd::prelude::*;
use crate::prompt::{TextMode, prompt_text, build_prompt};
use crate::stream::{
    AggState, Feedback, GenerationEvent, TokenStreamAggregator, initial_state, next_state,
};

verus! {

/// The largest sample rate a playback queue accepts.
pub const MAX_SAMPLE_RATE: u64 = 4294967295;

/// The token budget of a session that names none.
pub const DEFAULT_MAX_TOKENS: usize = 500;

/// The system prompt of a session that names none.
pub open spec fn default_system_prompt() -> Seq<char> {
    "Below is an instruction that describes a task. Write a response that appropriately completes the request."@
}

/// Where a session stands within a turn.
#[derive(Clone, Copy, Debug, PartialEq, Eq, Structural)]
pub enum Phase {
    /// Between turns: a new line may come.
    Idle,
    /// The engine is generating the reply.
    Generating,
    /// The reply is being turned into speech.
    Synthesizing,
    /// The reply's clip is queued; waiting until playback has drained.
    Draining,
}

/// The error that ends a turn.
#[derive(Clone, Copy, Debug, PartialEq, Eq, Structural)]
pub enum TurnError {
    /// The generation engine failed.
    Generation,
    /// Synthesis failed, or gave audio that is not mono at a usable rate.
    Synthesis,
    /// Enqueueing or draining the playback queue failed.
    Playback,
}

/// What happened since the last step.
#[derive(Clone, Debug)]
pub enum TurnEvent {
    /// A line of user input, as read (with its line break).
    Line(String),
    /// The generation engine reported an event.
    Token(GenerationEvent),
    /// The generation call returned normally.
    GenerationFinished,
    /// The generation call failed.
    GenerationFailed,
    /// Synthesis produced a clip with this layout.
    Synthesized { channels: u16, sample_rate: u64 },
    /// Synthesis failed.
    SynthesisFailed,
    /// Every queued clip has finished playing.
    Drained,
    /// The playback queue failed.
    PlaybackFailed,
}

/// What the caller is to do next.
#[derive(Clone, Debug)]
pub enum TurnAction {
    /// Leave the interactive loop, with no error.
    Exit,
    /// Run the generation engine on `prompt` with this token budget.
    Generate { prompt: String, max_tokens: usize },
    /// Answer the engine's last event.
    Answer(Feedback),
    /// Synthesise speech for this text.
    Synthesize(String),
    /// Enqueue the clip with this layout, then block until playback drains.
    Play { channels: u16, sample_rate: u32 },
    /// The turn is complete; this was the reply.
    Reply(String),
    /// The turn failed; the session stays as it was between turns.
    Fail(TurnError),
    /// The event does not belong to the current phase; nothing changed.
    Ignore,
}

/// The state of a session, as plain mathematical values.
pub struct SessionView {
    pub mode: TextMode,
    pub system: Seq<char>,
    pub max_tokens: nat,
    pub phase: Phase,
    /// The aggregation of the current generation request.
    pub agg: AggState,
    /// The reply of the current turn, once generated.
    pub reply: Seq<char>,
}

/// The session is back between turns; nothing but the phase changed.
pub open spec fn back_to_idle(s: SessionView, t: SessionView) -> bool {
    t == SessionView { phase: Phase::Idle, ..s }
}

/// The relation between a session before and after one step, and the action
/// that the step returns.
pub open spec fn step_spec(s: SessionView, e: TurnEvent, t: SessionView, a: TurnAction) -> bool {
    let ignored = t == s && a is Ignore;
    match s.phase {
        Phase::Idle => match e {
            TurnEvent::Line(line) => if line@ == "exit\n"@ {
                t == s && a is Exit
            } else {
                &&& t == SessionView {
                    phase: Phase::Generating,
                    agg: initial_state(s.max_tokens),
                    ..s
                }
                &&& match a {
                    TurnAction::Generate { prompt, max_tokens } =>
                        prompt@ == prompt_text(s.mode, s.system, line@)
                        && max_tokens as nat == s.max_tokens,
                    _ => false,
                }
            },
            _ => ignored,
        },
        Phase::Generating => match e {
            TurnEvent::Token(g) => {
                &&& t == SessionView { agg: next_state(s.agg, g), ..s }
                &&& a == TurnAction::Answer(
                    if t.agg.stopped { Feedback::Stop } else { Feedback::Continue },
                )
            },
            TurnEvent::GenerationFinished => {
                &&& t == SessionView { phase: Phase::Synthesizing, reply: s.agg.text, ..s }
                &&& match a {
                    TurnAction::Synthesize(text) => text@ == s.agg.text,
                    _ => false,
                }
            },
            TurnEvent::GenerationFailed => back_to_idle(s, t)
                && a == TurnAction::Fail(TurnError::Generation),
            _ => ignored,
        },
        Phase::Synthesizing => match e {
            TurnEvent::Synthesized { channels, sample_rate } => if channels == 1 && 0
                < sample_rate <= MAX_SAMPLE_RATE {
                t == SessionView { phase: Phase::Draining, ..s } && a == TurnAction::Play {
                    channels: 1,
                    sample_rate: sample_rate as u32,
                }
            } else {
                back_to_idle(s, t) && a == TurnAction::Fail(TurnError::Synthesis)
            },
            TurnEvent::SynthesisFailed => back_to_idle(s, t)
                && a == TurnAction::Fail(TurnError::Synthesis),
            _ => ignored,
        },
        Phase::Draining => match e {
            TurnEvent::Drained => {
                &&& back_to_idle(s, t)
                &&& match a {
                    TurnAction::Reply(text) => text@ == s.reply,
                    _ => false,
                }
            },
            TurnEvent::PlaybackFailed => back_to_idle(s, t)
                && a == TurnAction::Fail(TurnError::Playback),
            _ => ignored,
        },
    }
}

/// No step changes a session's mode, system prompt or token budget: the same
/// system prompt stands verbatim in the prompt of every turn.
pub proof fn lemma_step_keeps_configuration(s: SessionView, e: TurnEvent, t: SessionView, a: TurnAction)
    requires
        step_spec(s, e, t, a),
    ensures
        t.mode == s.mode,
        t.system == s.system,
        t.max_tokens == s.max_tokens,
        a matches TurnAction::Generate { prompt, max_tokens } ==> (s.phase == Phase::Idle && (
        e matches TurnEvent::Line(line) && prompt@ == prompt_text(s.mode, s.system, line@)
            && max_tokens as nat == s.max_tokens)),
{
}

/// The line `"exit\n"` read between turns ends the loop without error, and
/// leaves the session untouched: no generation is started for it.
pub proof fn lemma_exit_line_never_generates(s: SessionView, line: String, t: SessionView, a: TurnAction)
    requires
        s.phase == Phase::Idle,
        line@ == "exit\n"@,
        step_spec(s, TurnEvent::Line(line), t, a),
    ensures
        a is Exit,
        t == s,
{
}

/// A clip is enqueued only when synthesis of the current turn has produced it,
/// and the session then waits for the drain: until playback has drained (or
/// failed) no other clip is enqueued, no generation or synthesis starts, and
/// no reply is given. A reply comes only with the drain of its own clip.
pub proof fn lemma_play_waits_for_drain(s: SessionView, e: TurnEvent, t: SessionView, a: TurnAction)
    requires
        step_spec(s, e, t, a),
    ensures
        a is Play ==> s.phase == Phase::Synthesizing && t.phase == Phase::Draining,
        s.phase == Phase::Draining ==> !(a is Play) && !(a is Generate) && !(a is Synthesize),
        s.phase == Phase::Draining && !(e is Drained) && !(e is PlaybackFailed) ==> t
            == s,
        a is Reply ==> s.phase == Phase::Draining && e is Drained && t.phase == Phase::Idle,
{
}

/// A failed generation ends the turn with a generation error, before any
/// synthesis: the session goes back between turns and asks for no speech.
pub proof fn lemma_generation_failure_skips_synthesis(s: SessionView, t: SessionView, a: TurnAction)
    requires
        s.phase == Phase::Generating,
        step_spec(s, TurnEvent::GenerationFailed, t, a),
    ensures
        a == TurnAction::Fail(TurnError::Generation),
        t.phase == Phase::Idle,
        t.system == s.system,
{
}

/// One conversation: its template mode, its fixed system prompt, its token
/// budget, and where the current turn stands.
pub struct AiSession {
    mode: TextMode,
    system: String,
    max_tokens: usize,
    phase: Phase,
    agg: TokenStreamAggregator,
    reply: String,
}

impl AiSession {
    pub closed spec fn view(&self) -> SessionView {
        SessionView {
            mode: self.mode,
            system: self.system@,
            max_tokens: self.max_tokens as nat,
            phase: self.phase,
            agg: self.agg.view(),
            reply: self.reply@,
        }
    }

    pub closed spec fn wf(&self) -> bool {
        self.agg.wf()
    }

    /// A session between turns; without a system prompt it uses the default one.
    pub fn new(text_mode: TextMode, system_prompt: Option<String>, max_tokens: usize) -> (r: Self)
        ensures
            r.wf(),
            r.view().mode == text_mode,
            r.view().max_tokens == max_tokens as nat,
            r.view().phase == Phase::Idle,
            r.view().reply == Seq::<char>::empty(),
            r.view().agg == initial_state(max_tokens as nat),
            system_prompt is Some ==> r.view().system == system_prompt->0@,
            system_prompt is None ==> r.view().system == default_system_prompt(),
    {
        let system = match system_prompt {
            Some(s) => s,
            None => String::from_str(
                "Below is an instruction that describes a task. Write a response that appropriately completes the request.",
            ),
        };
        AiSession {
            mode: text_mode,
            system,
            max_tokens,
            phase: Phase::Idle,
            agg: TokenStreamAggregator::new(max_tokens),
            reply: String::new(),
        }
    }

    /// Advances the turn by one event and says what to do next.
    pub fn step(&mut self, event: TurnEvent) -> (a: TurnAction)
        requires
            old(self).wf(),
        ensures
            final(self).wf(),
            step_spec(old(self).view(), event, final(self).view(), a),
    {
        match self.phase {
            Phase::Idle => match event {
                TurnEvent::Line(line) => {
                    let exit = String::from_str("exit\n");
                    if line == exit {
                        TurnAction::Exit
                    } else {
                        let prompt = build_prompt(self.mode, self.system.as_str(), line.as_str());
                        self.agg = TokenStreamAggregator::new(self.max_tokens);
                        self.phase = Phase::Generating;
                        TurnAction::Generate { prompt, max_tokens: self.max_tokens }
                    }
                },
                _ => TurnAction::Ignore,
            },
            Phase::Generating => match event {
                TurnEvent::Token(g) => TurnAction::Answer(self.agg.on_event(&g)),
                TurnEvent::GenerationFinished => {
                    let text = String::from_str(self.agg.text());
                    self.reply = text.clone();
                    self.phase = Phase::Synthesizing;
                    TurnAction::Synthesize(text)
                },
                TurnEvent::GenerationFailed => {
                    self.phase = Phase::Idle;
                    TurnAction::Fail(TurnError::Generation)
                },
                _ => TurnAction::Ignore,
            },
            Phase::Synthesizing => match event {
                TurnEvent::Synthesized { channels, sample_rate } => {
                    if channels == 1 && 0 < sample_rate && sample_rate <= MAX_SAMPLE_RATE {
                        self.phase = Phase::Draining;
                        TurnAction::Play { channels: 1, sample_rate: sample_rate as u32 }
                    } else {
                        self.phase = Phase::Idle;
                        TurnAction::Fail(TurnError::Synthesis)
                    }
                },
                TurnEvent::SynthesisFailed => {
                    self.phase = Phase::Idle;
                    TurnAction::Fail(TurnError::Synthesis)
                },
                _ => TurnAction::Ignore,
            },
            Phase::Draining => match event {
                TurnEvent::Drained => {
                    self.phase = Phase::Idle;
                    TurnAction::Reply(self.reply.clone())
                },
                TurnEvent::PlaybackFailed => {
                    self.phase = Phase::Idle;
                    TurnAction::Fail(TurnError::Playback)
                },
                _ => TurnAction::Ignore,
            },
        }
    }

    /// Where the current turn stands.
    pub fn phase(&self) -> (r: Phase)
        ensures
            r == self.view().phase,
    {
        self.phase
    }

    /// The template mode of the session.
    pub fn mode(&self) -> (r: TextMode)
        ensures
            r == self.view().mode,
    {
        self.mode
    }

    /// The fixed system prompt of the session.
    pub fn system_prompt(&self) -> (r: &str)
        ensures
            r@ == self.view().system,
    {
        self.system.as_str()
    }

    /// The token budget of each generation request.
    pub fn max_tokens(&self) -> (r: usize)
        ensures
            r as nat == self.view().max_tokens,
    {
        self.max_tokens
    }
}

} // verus!
