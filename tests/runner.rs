use grust::runner::{RunnerAction, RunnerPhase, RunnerState};

#[test]
fn run_steps_in_order() {
    let mut s = RunnerState::new();
    let mut actions = Vec::new();
    while let Some(a) = s.advance() {
        actions.push(a);
    }
    assert_eq!(
        actions,
        vec![
            RunnerAction::PushThreadDefault,
            RunnerAction::CallSetup,
            RunnerAction::RunLoop,
            RunnerAction::PopThreadDefault,
        ]
    );
    assert!(s.is_finished());
    assert_eq!(s.phase, RunnerPhase::Finished);
    assert_eq!(s.advance(), None);
}
