use pcatk::guard::{
    Choice, CloseGuard, GuardAction, GuardEvent, ShutdownDecision, WindowState,
};

#[test]
fn cancel_every_time_never_closes() {
    let mut g = CloseGuard::new();
    for _ in 0..5 {
        let a = g.handle(GuardEvent::CloseRequested { unsaved: true });
        assert_eq!(a, GuardAction::AskDiscardChanges);
        assert_eq!(g.state, WindowState::AwaitingDecision);
        let a = g.handle(GuardEvent::Answered(Choice::Cancel));
        assert_eq!(a, GuardAction::Decide(ShutdownDecision::Cancel));
        assert_eq!(g.state, WindowState::Open);
        assert!(!g.is_closing());
    }
}

#[test]
fn clean_editor_closes_without_question() {
    let mut g = CloseGuard::new();
    let a = g.handle(GuardEvent::CloseRequested { unsaved: false });
    assert_eq!(a, GuardAction::Decide(ShutdownDecision::Proceed));
    assert!(g.is_closing());
}

#[test]
fn continue_discarding_proceeds_without_second_prompt() {
    let mut g = CloseGuard::new();
    assert_eq!(
        g.handle(GuardEvent::CloseRequested { unsaved: true }),
        GuardAction::AskDiscardChanges
    );
    assert_eq!(
        g.handle(GuardEvent::Answered(Choice::ContinueDiscardingChanges)),
        GuardAction::Decide(ShutdownDecision::Proceed)
    );
    assert!(g.is_closing());
    assert_eq!(
        g.handle(GuardEvent::CloseRequested { unsaved: true }),
        GuardAction::Ignore
    );
    assert_eq!(g.state, WindowState::Closing);
}

#[test]
fn cancel_then_continue_asks_again_each_time() {
    let mut g = CloseGuard::new();
    g.handle(GuardEvent::CloseRequested { unsaved: true });
    g.handle(GuardEvent::Answered(Choice::Cancel));
    assert_eq!(
        g.handle(GuardEvent::CloseRequested { unsaved: true }),
        GuardAction::AskDiscardChanges
    );
    assert_eq!(
        g.handle(GuardEvent::Answered(Choice::ContinueDiscardingChanges)),
        GuardAction::Decide(ShutdownDecision::Proceed)
    );
    assert!(g.is_closing());
}

#[test]
fn answer_without_question_is_ignored() {
    let mut g = CloseGuard::new();
    assert_eq!(
        g.handle(GuardEvent::Answered(Choice::ContinueDiscardingChanges)),
        GuardAction::Ignore
    );
    assert_eq!(g.state, WindowState::Open);
}

#[test]
fn saved_after_cancel_closes_at_once() {
    let mut g = CloseGuard::new();
    g.handle(GuardEvent::CloseRequested { unsaved: true });
    g.handle(GuardEvent::Answered(Choice::Cancel));
    assert_eq!(
        g.handle(GuardEvent::CloseRequested { unsaved: false }),
        GuardAction::Decide(ShutdownDecision::Proceed)
    );
    assert!(g.is_closing());
}
