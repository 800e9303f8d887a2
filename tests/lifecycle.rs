use magnus::embed::{init_args, init_outcome, InitFault, Lifecycle, LifecycleState};

#[test]
fn lifecycle_runs_once_then_stops() {
    let mut life = Lifecycle::new();
    assert_eq!(life.state(), LifecycleState::Uninitialized);
    let cleanup = life.init();
    assert_eq!(life.state(), LifecycleState::Running);
    cleanup.finish(&mut life);
    assert_eq!(life.state(), LifecycleState::Stopped);
}

#[test]
fn startup_arguments() {
    assert_eq!(init_args(), vec!["ruby", "-e", ""]);
}

#[test]
fn startup_statuses() {
    assert_eq!(init_outcome(0, 1, 0), Ok(()));
    assert_eq!(init_outcome(1, 1, 0), Err(InitFault::SetupFailed));
    assert_eq!(init_outcome(0, 0, 0), Err(InitFault::NotExecutable));
    assert_eq!(init_outcome(0, 1, 2), Err(InitFault::ExecFailed));
    assert_eq!(init_outcome(3, 0, 2), Err(InitFault::SetupFailed));
}
