use sidecar_supervisor::notice::greet;
use sidecar_supervisor::supervisor::{LaunchOutcome, Phase, SpawnError, SpawnReport, SupervisorState};

fn handle(name: &str) -> String {
    name.to_string()
}

#[test]
fn new_state_is_unstarted_and_empty() {
    let state: SupervisorState<String> = SupervisorState::new();
    assert_eq!(state.phase(), Phase::Unstarted);
    assert!(!state.is_running());
    assert_eq!(state.handle(), None);
    assert_eq!(state.check_idle(), Ok(()));
}

#[test]
fn spawn_stores_the_launched_handle() {
    let mut state = SupervisorState::new();
    let report = state.spawn(LaunchOutcome::Launched(handle("pid-41")));
    assert_eq!(report, SpawnReport { result: Ok(()), surplus: None });
    assert_eq!(state.phase(), Phase::Running);
    assert!(state.is_running());
    assert_eq!(state.handle(), Some(&handle("pid-41")));
}

#[test]
fn resolution_failure_leaves_state_empty_and_host_alive() {
    let mut state: SupervisorState<String> = SupervisorState::new();
    let report = state.spawn(LaunchOutcome::NotResolved);
    assert_eq!(report.result, Err(SpawnError::ResolutionFailed));
    assert_eq!(report.surplus, None);
    assert_eq!(state.phase(), Phase::Unstarted);
    assert!(!state.is_running());
    assert_eq!(state.handle(), None);
    assert_eq!(greet("Ada"), "Hello, Ada! You've been greeted from Rust!");
    let report = state.spawn(LaunchOutcome::Launched(handle("pid-1")));
    assert_eq!(report.result, Ok(()));
}

#[test]
fn launch_failure_leaves_state_empty() {
    let mut state: SupervisorState<String> = SupervisorState::new();
    let report = state.spawn(LaunchOutcome::NotLaunched);
    assert_eq!(report, SpawnReport { result: Err(SpawnError::LaunchFailed), surplus: None });
    assert_eq!(state.phase(), Phase::Unstarted);
    assert_eq!(state.handle(), None);
}

#[test]
fn failed_spawn_after_shutdown_keeps_stopped() {
    let mut state = SupervisorState::new();
    assert_eq!(state.spawn(LaunchOutcome::Launched(1u32)).result, Ok(()));
    assert_eq!(state.shutdown(), Some(1));
    let report = state.spawn(LaunchOutcome::NotResolved);
    assert_eq!(report.result, Err(SpawnError::ResolutionFailed));
    assert_eq!(state.phase(), Phase::Stopped);
    assert!(!state.is_running());
}

#[test]
fn second_spawn_is_rejected_and_hands_the_handle_back() {
    let mut state = SupervisorState::new();
    assert_eq!(state.spawn(LaunchOutcome::Launched(handle("first"))).result, Ok(()));
    assert_eq!(state.check_idle(), Err(SpawnError::AlreadyRunning));
    let report = state.spawn(LaunchOutcome::Launched(handle("second")));
    assert_eq!(
        report,
        SpawnReport { result: Err(SpawnError::AlreadyRunning), surplus: Some(handle("second")) }
    );
    assert_eq!(state.handle(), Some(&handle("first")));
    assert_eq!(state.phase(), Phase::Running);
}

#[test]
fn already_running_comes_before_the_launch_errors() {
    let mut state = SupervisorState::new();
    assert_eq!(state.spawn(LaunchOutcome::Launched(7u32)).result, Ok(()));
    let report = state.spawn(LaunchOutcome::NotResolved);
    assert_eq!(report, SpawnReport { result: Err(SpawnError::AlreadyRunning), surplus: None });
    let report = state.spawn(LaunchOutcome::NotLaunched);
    assert_eq!(report, SpawnReport { result: Err(SpawnError::AlreadyRunning), surplus: None });
    assert_eq!(state.handle(), Some(&7));
}

#[test]
fn shutdown_takes_the_handle_and_stops() {
    let mut state = SupervisorState::new();
    assert_eq!(state.spawn(LaunchOutcome::Launched(handle("pid-9"))).result, Ok(()));
    assert_eq!(state.shutdown(), Some(handle("pid-9")));
    assert_eq!(state.phase(), Phase::Stopped);
    assert!(!state.is_running());
    assert_eq!(state.handle(), None);
    assert_eq!(state.check_idle(), Ok(()));
}

#[test]
fn shutdown_without_sidecar_changes_nothing() {
    let mut state: SupervisorState<u32> = SupervisorState::new();
    assert_eq!(state.shutdown(), None);
    assert_eq!(state.phase(), Phase::Unstarted);
    assert_eq!(state.shutdown(), None);
    assert_eq!(state.phase(), Phase::Unstarted);
}

#[test]
fn shutdown_twice_is_the_same_as_once() {
    let mut state = SupervisorState::new();
    assert_eq!(state.spawn(LaunchOutcome::Launched(3u32)).result, Ok(()));
    assert_eq!(state.shutdown(), Some(3));
    assert_eq!(state.shutdown(), None);
    assert_eq!(state.phase(), Phase::Stopped);
    assert_eq!(state.handle(), None);
}

#[test]
fn spawn_after_shutdown_starts_a_fresh_sidecar() {
    let mut state = SupervisorState::new();
    assert_eq!(state.spawn(LaunchOutcome::Launched(handle("old"))).result, Ok(()));
    assert_eq!(state.shutdown(), Some(handle("old")));
    let report = state.spawn(LaunchOutcome::Launched(handle("new")));
    assert_eq!(report, SpawnReport { result: Ok(()), surplus: None });
    assert_eq!(state.phase(), Phase::Running);
    assert_eq!(state.handle(), Some(&handle("new")));
}

#[test]
fn never_more_than_one_handle_and_none_lost() {
    let mut state: SupervisorState<u32> = SupervisorState::new();
    let mut offered: Vec<u32> = Vec::new();
    let mut returned: Vec<u32> = Vec::new();
    let mut next: u32 = 100;
    for round in 0..60u32 {
        if round % 5 == 4 {
            if let Some(taken) = state.shutdown() {
                returned.push(taken);
            }
        } else if round % 7 == 3 {
            let report = state.spawn(LaunchOutcome::NotLaunched);
            assert!(report.result.is_err());
            assert_eq!(report.surplus, None);
        } else {
            next += 1;
            offered.push(next);
            let was_running = state.is_running();
            let report = state.spawn(LaunchOutcome::Launched(next));
            assert_eq!(report.result.is_ok(), !was_running);
            if let Some(surplus) = report.surplus {
                assert!(was_running);
                returned.push(surplus);
            }
        }
        let mut accounted = returned.clone();
        if let Some(held) = state.handle() {
            accounted.push(*held);
        }
        accounted.sort();
        assert_eq!(accounted, offered);
        assert_eq!(state.is_running(), state.handle().is_some());
        assert_eq!(state.is_running(), state.phase() == Phase::Running);
    }
}
