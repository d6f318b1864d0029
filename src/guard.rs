//! The close guard: decides whether a request to close the main window
//! proceeds, after asking the user when the editor holds unsaved work.
use vstd::prelude::*;

verus! {

/// Where the main window stands in its shutdown sequence.
#[derive(Clone, Copy, Debug, PartialEq, Eq, Structural)]
pub enum WindowState {
    /// The window is open and idle.
    Open,
    /// A close was requested with unsaved work; the user is being asked.
    AwaitingDecision,
    /// The close goes ahead; this state is terminal.
    Closing,
}

/// The two answers of the unsaved-changes question.
#[derive(Clone, Copy, Debug, PartialEq, Eq, Structural)]
pub enum Choice {
    /// Keep the window open.
    Cancel,
    /// Close and lose the unsaved changes.
    ContinueDiscardingChanges,
}

/// The outcome of the guard for one close request.
#[derive(Clone, Copy, Debug, PartialEq, Eq, Structural)]
pub enum ShutdownDecision {
    Proceed,
    Cancel,
}

/// What the event loop is told to do after an event has been handled.
#[derive(Clone, Copy, Debug, PartialEq, Eq, Structural)]
pub enum GuardAction {
    /// Present the modal question with its two answers, then hand the
    /// answer back.
    AskDiscardChanges,
    /// Let the window close.
    Decide(ShutdownDecision),
    /// The event has no bearing in the current state.
    Ignore,
}

/// An event that reaches the guard.
#[derive(Clone, Copy, Debug, PartialEq, Eq, Structural)]
pub enum GuardEvent {
    /// The user asked to close the window; `unsaved` is the editor's
    /// report at that moment.
    CloseRequested { unsaved: bool },
    /// The user answered the modal question.
    Answered(Choice),
}

/// The transition table of the guard.
pub open spec fn next(state: WindowState, event: GuardEvent) -> (WindowState, GuardAction) {
    match (state, event) {
        (WindowState::Open, GuardEvent::CloseRequested { unsaved }) => if unsaved {
            (WindowState::AwaitingDecision, GuardAction::AskDiscardChanges)
        } else {
            (WindowState::Closing, GuardAction::Decide(ShutdownDecision::Proceed))
        },
        (WindowState::AwaitingDecision, GuardEvent::Answered(Choice::Cancel)) => (
            WindowState::Open,
            GuardAction::Decide(ShutdownDecision::Cancel),
        ),
        (
            WindowState::AwaitingDecision,
            GuardEvent::Answered(Choice::ContinueDiscardingChanges),
        ) => (WindowState::Closing, GuardAction::Decide(ShutdownDecision::Proceed)),
        _ => (state, GuardAction::Ignore),
    }
}

/// The state after a run of events from `state`.
pub open spec fn run(state: WindowState, events: Seq<GuardEvent>) -> WindowState
    decreases events.len(),
{
    if events.len() == 0 {
        state
    } else {
        run(next(state, events[0]).0, events.drop_first())
    }
}

/// The actions handed out along a run of events from `state`, one per event.
pub open spec fn actions(state: WindowState, events: Seq<GuardEvent>) -> Seq<GuardAction>
    decreases events.len(),
{
    if events.len() == 0 {
        Seq::empty()
    } else {
        seq![next(state, events[0]).1] + actions(next(state, events[0]).0, events.drop_first())
    }
}

/// The answer the guard gives to one close request, given the editor's
/// report and the answer the user would give if asked.
pub open spec fn decision_of(unsaved: bool, answer: Choice) -> ShutdownDecision {
    if unsaved && answer == Choice::Cancel {
        ShutdownDecision::Cancel
    } else {
        ShutdownDecision::Proceed
    }
}

/// The close guard of the main window. It keeps no memory of earlier
/// answers: every close request is judged afresh.
#[derive(Debug)]
pub struct CloseGuard {
    pub state: WindowState,
}

impl CloseGuard {
    /// A guard for a window that has just been opened.
    pub fn new() -> (g: CloseGuard)
        ensures
            g.state == WindowState::Open,
    {
        CloseGuard { state: WindowState::Open }
    }

    /// Handles one event and returns what the event loop must do.
    pub fn handle(&mut self, event: GuardEvent) -> (a: GuardAction)
        ensures
            (final(self).state, a) == next(old(self).state, event),
    {
        let (s, a) = match (self.state, event) {
            (WindowState::Open, GuardEvent::CloseRequested { unsaved }) => if unsaved {
                (WindowState::AwaitingDecision, GuardAction::AskDiscardChanges)
            } else {
                (WindowState::Closing, GuardAction::Decide(ShutdownDecision::Proceed))
            },
            (WindowState::AwaitingDecision, GuardEvent::Answered(Choice::Cancel)) => (
                WindowState::Open,
                GuardAction::Decide(ShutdownDecision::Cancel),
            ),
            (
                WindowState::AwaitingDecision,
                GuardEvent::Answered(Choice::ContinueDiscardingChanges),
            ) => (WindowState::Closing, GuardAction::Decide(ShutdownDecision::Proceed)),
            _ => (self.state, GuardAction::Ignore),
        };
        self.state = s;
        a
    }

    /// Whether the window has been let go.
    pub fn is_closing(&self) -> (r: bool)
        ensures
            r == (self.state == WindowState::Closing),
    {
        self.state == WindowState::Closing
    }
}

/// Once closing, the window stays closing, and every later event is
/// ignored: no further question is ever asked.
pub proof fn lemma_closing_is_terminal(events: Seq<GuardEvent>)
    ensures
        run(WindowState::Closing, events) == WindowState::Closing,
        actions(WindowState::Closing, events) =~= Seq::new(events.len(), |i: int| GuardAction::Ignore),
    decreases events.len(),
{
    if events.len() > 0 {
        lemma_closing_is_terminal(events.drop_first());
    }
}

/// Whatever the number of close requests, when the editor reports unsaved
/// work each time and the user answers Cancel each time, the window never
/// reaches the closing state, neither at the end nor on the way.
pub proof fn lemma_cancel_keeps_window_open(events: Seq<GuardEvent>)
    requires
        forall|i: int|
            0 <= i < events.len() ==> #[trigger] events[i] == (GuardEvent::CloseRequested {
                unsaved: true,
            }) || events[i] == GuardEvent::Answered(Choice::Cancel),
    ensures
        forall|k: int| 0 <= k <= events.len() ==> run(WindowState::Open, #[trigger] events.take(k))
            != WindowState::Closing,
        forall|i: int|
            0 <= i < events.len() ==> #[trigger] actions(WindowState::Open, events)[i]
                != GuardAction::Decide(ShutdownDecision::Proceed),
{
    assert forall|k: int| 0 <= k <= events.len() implies run(WindowState::Open, #[trigger] events.take(k))
        != WindowState::Closing by {
        lemma_cancel_run(WindowState::Open, events.take(k));
    }
    lemma_cancel_run(WindowState::Open, events);
}

proof fn lemma_cancel_run(state: WindowState, events: Seq<GuardEvent>)
    requires
        state != WindowState::Closing,
        forall|i: int|
            0 <= i < events.len() ==> #[trigger] events[i] == (GuardEvent::CloseRequested {
                unsaved: true,
            }) || events[i] == GuardEvent::Answered(Choice::Cancel),
    ensures
        run(state, events) != WindowState::Closing,
        actions(state, events).len() == events.len(),
        forall|i: int|
            0 <= i < events.len() ==> #[trigger] actions(state, events)[i]
                != GuardAction::Decide(ShutdownDecision::Proceed),
    decreases events.len(),
{
    if events.len() > 0 {
        let rest = events.drop_first();
        assert forall|i: int|
            0 <= i < rest.len() implies #[trigger] rest[i] == (GuardEvent::CloseRequested {
                unsaved: true,
            }) || rest[i] == GuardEvent::Answered(Choice::Cancel) by {
            assert(rest[i] == events[i + 1]);
        }
        lemma_cancel_run(next(state, events[0]).0, rest);
        let a = actions(state, events);
        assert forall|i: int| 0 <= i < events.len() implies #[trigger] a[i]
            != GuardAction::Decide(ShutdownDecision::Proceed) by {
            if i > 0 {
                assert(a[i] == actions(next(state, events[0]).0, rest)[i - 1]);
            }
        }
    }
}

/// When the editor reports no unsaved work, a close request from the open
/// window is never met with the question: the close proceeds at once.
pub proof fn lemma_clean_close_proceeds_at_once()
    ensures
        next(WindowState::Open, GuardEvent::CloseRequested { unsaved: false }) == (
            WindowState::Closing,
            GuardAction::Decide(ShutdownDecision::Proceed),
        ),
        forall|s: WindowState|
            (#[trigger] next(s, GuardEvent::CloseRequested { unsaved: false })).1
                != GuardAction::AskDiscardChanges,
{
}

/// With unsaved work, a close request followed by the one answer Continue
/// Discarding Changes lets the window close on that request: the question
/// is asked exactly once, the answer proceeds, and nothing after it asks
/// again.
pub proof fn lemma_continue_proceeds_without_second_prompt(rest: Seq<GuardEvent>)
    ensures
        ({
            let events = seq![
                GuardEvent::CloseRequested { unsaved: true },
                GuardEvent::Answered(Choice::ContinueDiscardingChanges),
            ] + rest;
            &&& run(WindowState::Open, events) == WindowState::Closing
            &&& actions(WindowState::Open, events) =~= seq![
                GuardAction::AskDiscardChanges,
                GuardAction::Decide(ShutdownDecision::Proceed),
            ] + Seq::new(rest.len(), |i: int| GuardAction::Ignore)
        }),
{
    let events = seq![
        GuardEvent::CloseRequested { unsaved: true },
        GuardEvent::Answered(Choice::ContinueDiscardingChanges),
    ] + rest;
    lemma_closing_is_terminal(rest);
    assert(events.drop_first().drop_first() =~= rest);
    assert(events[0] == GuardEvent::CloseRequested { unsaved: true });
    assert(events.drop_first()[0] == GuardEvent::Answered(Choice::ContinueDiscardingChanges));
    let tail = actions(WindowState::Closing, rest);
    assert(actions(WindowState::AwaitingDecision, events.drop_first()) == seq![
        GuardAction::Decide(ShutdownDecision::Proceed),
    ] + tail);
    assert(actions(WindowState::Open, events) == seq![GuardAction::AskDiscardChanges] + (seq![
        GuardAction::Decide(ShutdownDecision::Proceed),
    ] + tail));
    assert(seq![GuardAction::AskDiscardChanges] + (seq![
        GuardAction::Decide(ShutdownDecision::Proceed),
    ] + tail) =~= seq![
        GuardAction::AskDiscardChanges,
        GuardAction::Decide(ShutdownDecision::Proceed),
    ] + tail);
    assert(run(WindowState::AwaitingDecision, events.drop_first()) == run(
        WindowState::Closing,
        events.drop_first().drop_first(),
    ));
    assert(run(WindowState::Open, events) == run(WindowState::Closing, rest));
    assert(tail =~= Seq::new(rest.len(), |i: int| GuardAction::Ignore));
}

/// One close request from the open window, answered as the user would
/// answer, ends in the decision `decision_of(unsaved, answer)`: the user is
/// asked exactly when the editor reports unsaved work.
pub proof fn lemma_one_request_decision(unsaved: bool, answer: Choice)
    ensures
        next(WindowState::Open, GuardEvent::CloseRequested { unsaved }).1 == (if unsaved {
            GuardAction::AskDiscardChanges
        } else {
            GuardAction::Decide(decision_of(unsaved, answer))
        }),
        unsaved ==> next(
            next(WindowState::Open, GuardEvent::CloseRequested { unsaved }).0,
            GuardEvent::Answered(answer),
        ).1 == GuardAction::Decide(decision_of(unsaved, answer)),
{
}

} // verus!
