//! The session controller: the foreground conversation loop as a state
//! machine. Each loop iteration checks the shared cancellation flag, polls
//! the hotkey event channel without blocking, reads one line of input,
//! sends a context snapshot to the completion backend and appends the
//! reply. The machine here makes every decision; the surrounding program
//! only performs the returned actions (the I/O) and feeds the outcomes
//! back in as events.

use vstd::prelude::*;
use crate::backend::{BackendError, BackendErrorView};
use crate::context::{AiRole, ContextContent, Turn, TurnView};

verus! {

/// The controller's states: awaiting the next line of input, a backend
/// request in flight, or terminated. `Terminated` is terminal and is
/// reachable only from `AwaitingInput`.
#[derive(Clone, Copy, PartialEq, Eq, Structural, Debug)]
pub enum SessionPhase {
    AwaitingInput,
    RequestInFlight,
    Terminated,
}

/// Which recognized hotkey fired; a bare tag, no payload.
#[derive(Clone, Copy, PartialEq, Eq, Structural, Debug)]
pub enum HotkeyEvent {
    SecondaryAction,
}

/// What the outside world reports to the controller: the cancellation
/// flag's value, the outcome of one non-blocking channel poll, one line of
/// input (`None` on end of input), or the backend call's result.
pub enum SessionEvent {
    CancelChecked { cancelled: bool },
    HotkeyPolled { event: Option<HotkeyEvent> },
    LineRead { line: Option<String> },
    BackendReturned { reply: Result<Turn, BackendError> },
}

/// The mathematical value of a `SessionEvent`.
pub enum SessionEventView {
    CancelChecked { cancelled: bool },
    HotkeyPolled { event: Option<HotkeyEvent> },
    LineRead { line: Option<Seq<char>> },
    BackendReturned { reply: Result<TurnView, BackendErrorView> },
}

impl View for SessionEvent {
    type V = SessionEventView;

    open spec fn view(&self) -> SessionEventView {
        match self {
            SessionEvent::CancelChecked { cancelled } => (SessionEventView::CancelChecked {
                cancelled: *cancelled,
            }),
            SessionEvent::HotkeyPolled { event } => (SessionEventView::HotkeyPolled {
                event: *event,
            }),
            SessionEvent::LineRead { line } => (SessionEventView::LineRead {
                line: match line {
                    Some(text) => Some(text@),
                    None => None,
                },
            }),
            SessionEvent::BackendReturned { reply } => (SessionEventView::BackendReturned {
                reply: match reply {
                    Ok(turn) => Ok(turn@),
                    Err(e) => Err(e@),
                },
            }),
        }
    }
}

/// What the controller asks the outside world to do next: stop for good,
/// poll the hotkey channel, prompt and read one line (surfacing a pending
/// hotkey first, if one was polled), send the given snapshot to the
/// backend, print the reply, or print a failure diagnostic.
pub enum SessionAction {
    Stop,
    PollHotkeys,
    PromptForInput { surface: Option<HotkeyEvent> },
    CallBackend { payload: ContextContent },
    PrintReply { content: String },
    PrintDiagnostic { error: BackendError },
}

/// The mathematical value of a `SessionAction`.
pub enum SessionActionView {
    Stop,
    PollHotkeys,
    PromptForInput { surface: Option<HotkeyEvent> },
    CallBackend { payload: Seq<TurnView> },
    PrintReply { content: Seq<char> },
    PrintDiagnostic { error: BackendErrorView },
}

impl View for SessionAction {
    type V = SessionActionView;

    open spec fn view(&self) -> SessionActionView {
        match self {
            SessionAction::Stop => SessionActionView::Stop,
            SessionAction::PollHotkeys => SessionActionView::PollHotkeys,
            SessionAction::PromptForInput { surface } => (SessionActionView::PromptForInput {
                surface: *surface,
            }),
            SessionAction::CallBackend { payload } => (SessionActionView::CallBackend {
                payload: payload@,
            }),
            SessionAction::PrintReply { content } => (SessionActionView::PrintReply {
                content: content@,
            }),
            SessionAction::PrintDiagnostic { error } => (SessionActionView::PrintDiagnostic {
                error: error@,
            }),
        }
    }
}

/// Which events can arrive in which phase. `Terminated` accepts none: the
/// controller does nothing further once it has stopped.
pub open spec fn event_fits(phase: SessionPhase, event: SessionEventView) -> bool {
    match phase {
        SessionPhase::AwaitingInput => event is CancelChecked || event is HotkeyPolled
            || event is LineRead,
        SessionPhase::RequestInFlight => event is BackendReturned,
        SessionPhase::Terminated => false,
    }
}

/// The controller's transition function: from a phase, the context so far
/// and one event to the next phase, the next context and the action the
/// outside world is to perform. An event that does not fit the phase
/// changes nothing.
pub open spec fn session_step(
    phase: SessionPhase,
    ctx: Seq<TurnView>,
    event: SessionEventView,
) -> (SessionPhase, Seq<TurnView>, SessionActionView) {
    match (phase, event) {
        (SessionPhase::AwaitingInput, SessionEventView::CancelChecked { cancelled }) => if cancelled {
            (SessionPhase::Terminated, ctx, SessionActionView::Stop)
        } else {
            (SessionPhase::AwaitingInput, ctx, SessionActionView::PollHotkeys)
        },
        (SessionPhase::AwaitingInput, SessionEventView::HotkeyPolled { event }) => (
            SessionPhase::AwaitingInput,
            ctx,
            SessionActionView::PromptForInput { surface: event },
        ),
        (SessionPhase::AwaitingInput, SessionEventView::LineRead { line }) => match line {
            Some(text) => {
                let grown = ctx.push(TurnView { role: AiRole::User, content: text });
                (
                    SessionPhase::RequestInFlight,
                    grown,
                    SessionActionView::CallBackend { payload: grown },
                )
            },
            None => (SessionPhase::Terminated, ctx, SessionActionView::Stop),
        },
        (SessionPhase::RequestInFlight, SessionEventView::BackendReturned { reply }) => match reply {
            Ok(turn) => (
                SessionPhase::AwaitingInput,
                ctx.push(TurnView { role: AiRole::Assistant, content: turn.content }),
                SessionActionView::PrintReply { content: turn.content },
            ),
            Err(e) => (
                SessionPhase::AwaitingInput,
                ctx,
                SessionActionView::PrintDiagnostic { error: e },
            ),
        },
        _ => (phase, ctx, SessionActionView::Stop),
    }
}

/// Cancellation precedence: if the cancellation flag is observed set at
/// the start of an iteration, the controller reaches `Terminated` at once,
/// with the context untouched and stopping as the one action — and the
/// `Terminated` phase accepts no further event, so no prompting or backend
/// call can follow.
pub proof fn lemma_cancellation_precedence(ctx: Seq<TurnView>, later: SessionEventView)
    ensures
        session_step(
            SessionPhase::AwaitingInput,
            ctx,
            SessionEventView::CancelChecked { cancelled: true },
        ) == (SessionPhase::Terminated, ctx, SessionActionView::Stop),
        !event_fits(SessionPhase::Terminated, later),
{
}

/// Failure leaves context intact: a backend failure appends no turn at
/// all — the context after the failed exchange is exactly the context that
/// was sent, the user's unanswered turn included — and the controller
/// returns to awaiting input with the diagnostic as its one action.
pub proof fn lemma_failure_leaves_context(ctx: Seq<TurnView>, e: BackendErrorView)
    ensures
        session_step(
            SessionPhase::RequestInFlight,
            ctx,
            SessionEventView::BackendReturned { reply: Err(e) },
        ) == (SessionPhase::AwaitingInput, ctx, SessionActionView::PrintDiagnostic { error: e }),
{
}

/// The controller only ever appends: whatever the phase and the event,
/// the context after a transition extends the context before it, turn for
/// turn.
pub proof fn lemma_step_append_only(
    phase: SessionPhase,
    ctx: Seq<TurnView>,
    event: SessionEventView,
)
    ensures
        ({
            let (p, c, a) = session_step(phase, ctx, event);
            ctx.len() <= c.len() && forall|i: int| 0 <= i < ctx.len() ==> c[i] == ctx[i]
        }),
{
}

/// The phase and context the controller is left with after a whole
/// sequence of events, first to last.
pub open spec fn session_run(
    phase: SessionPhase,
    ctx: Seq<TurnView>,
    events: Seq<SessionEventView>,
) -> (SessionPhase, Seq<TurnView>)
    decreases events.len(),
{
    if events.len() == 0 {
        (phase, ctx)
    } else {
        let (p, c, a) = session_step(phase, ctx, events[0]);
        session_run(p, c, events.drop_first())
    }
}

/// Append-only over whole sessions: however many transitions run, the
/// context never shrinks, and every index an earlier snapshot could have
/// returned still holds the same turn at the end.
pub proof fn lemma_run_append_only(
    phase: SessionPhase,
    ctx: Seq<TurnView>,
    events: Seq<SessionEventView>,
)
    ensures
        ({
            let (p, c) = session_run(phase, ctx, events);
            ctx.len() <= c.len() && forall|i: int| 0 <= i < ctx.len() ==> c[i] == ctx[i]
        }),
    decreases events.len(),
{
    if events.len() != 0 {
        let (p1, c1, a1) = session_step(phase, ctx, events[0]);
        lemma_step_append_only(phase, ctx, events[0]);
        lemma_run_append_only(p1, c1, events.drop_first());
    }
}

/// System-turn immutability over whole sessions: a System turn seeded at
/// index 0 is still there, unchanged, after any sequence of events.
pub proof fn lemma_run_system_turn_immutable(
    phase: SessionPhase,
    ctx: Seq<TurnView>,
    events: Seq<SessionEventView>,
)
    requires
        0 < ctx.len(),
        ctx[0].role == AiRole::System,
    ensures
        ({
            let (p, c) = session_run(phase, ctx, events);
            0 < c.len() && c[0] == ctx[0] && c[0].role == AiRole::System
        }),
{
    lemma_run_append_only(phase, ctx, events);
}

/// The controller itself: the phase it is in and the conversation context
/// it exclusively owns.
pub struct Session {
    phase: SessionPhase,
    context: ContextContent,
}

/// The mathematical value of a `Session`.
pub struct SessionView {
    pub phase: SessionPhase,
    pub context: Seq<TurnView>,
}

impl View for Session {
    type V = SessionView;

    closed spec fn view(&self) -> SessionView {
        SessionView { phase: self.phase, context: self.context@ }
    }
}

impl Session {
    /// A fresh controller in `AwaitingInput`, its context holding only the
    /// optional seeded System turn.
    pub fn new(seed: Option<&str>) -> (r: Session)
        ensures
            r@.phase == SessionPhase::AwaitingInput,
            match seed {
                Some(text) => r@.context == seq![
                    TurnView { role: AiRole::System, content: text@ },
                ],
                None => r@.context == Seq::<TurnView>::empty(),
            },
    {
        let mut context = ContextContent::new();
        match seed {
            Some(text) => {
                context.add_turn(AiRole::System, text);
                proof {
                    assert(context@ =~= seq![TurnView { role: AiRole::System, content: text@ }]);
                }
            },
            None => {},
        }
        Session { phase: SessionPhase::AwaitingInput, context }
    }

    /// The phase the controller is in.
    pub fn current_phase(&self) -> (r: SessionPhase)
        ensures
            r == self@.phase,
    {
        self.phase
    }

    /// An immutable copy of the conversation so far.
    pub fn context_snapshot(&self) -> (r: ContextContent)
        ensures
            r@ == self@.context,
    {
        self.context.snapshot()
    }

    /// Performs one transition: consumes the event, updates phase and
    /// context exactly as `session_step` says, and returns the action the
    /// outside world is to perform next.
    pub fn step(&mut self, event: SessionEvent) -> (action: SessionAction)
        requires
            event_fits(old(self)@.phase, event@),
        ensures
            ({
                let (p, c, a) = session_step(old(self)@.phase, old(self)@.context, event@);
                final(self)@.phase == p && final(self)@.context == c && action@ == a
            }),
    {
        match event {
            SessionEvent::CancelChecked { cancelled } => if cancelled {
                self.phase = SessionPhase::Terminated;
                SessionAction::Stop
            } else {
                SessionAction::PollHotkeys
            },
            SessionEvent::HotkeyPolled { event } => SessionAction::PromptForInput {
                surface: event,
            },
            SessionEvent::LineRead { line } => match line {
                Some(text) => {
                    self.context.add_turn(AiRole::User, text.as_str());
                    self.phase = SessionPhase::RequestInFlight;
                    SessionAction::CallBackend { payload: self.context.snapshot() }
                },
                None => {
                    self.phase = SessionPhase::Terminated;
                    SessionAction::Stop
                },
            },
            SessionEvent::BackendReturned { reply } => match reply {
                Ok(turn) => {
                    self.context.add_turn(AiRole::Assistant, turn.content.as_str());
                    self.phase = SessionPhase::AwaitingInput;
                    SessionAction::PrintReply { content: turn.content }
                },
                Err(e) => {
                    self.phase = SessionPhase::AwaitingInput;
                    SessionAction::PrintDiagnostic { error: e }
                },
            },
        }
    }
}

} // verus!
