use cfcli::runner::{RunnerAction, RunnerEvent, RunnerState};
use cfcli::signal::RunSignal;

#[test]
fn start_has_one_spawn_pending() {
    let (state, actions) = RunnerState::start();
    assert_eq!(state, RunnerState::Spawning);
    assert_eq!(actions, vec![RunnerAction::Spawn]);
}

#[test]
fn successful_spawn_runs_without_further_actions() {
    let (state, actions) = RunnerState::Spawning.step(RunnerEvent::SpawnOk);
    assert_eq!(state, RunnerState::Running);
    assert!(actions.is_empty());
}

#[test]
fn failed_spawn_waits_for_a_signal() {
    let (state, actions) = RunnerState::Spawning.step(RunnerEvent::SpawnFailed);
    assert_eq!(state, RunnerState::AwaitSignal);
    assert!(actions.is_empty());
}

#[test]
fn self_exit_does_not_restart() {
    let (state, actions) = RunnerState::Running.step(RunnerEvent::ChildExited);
    assert_eq!(state, RunnerState::AwaitSignal);
    assert!(actions.is_empty());
}

#[test]
fn rerun_after_self_exit_resumes_at_spawning() {
    let (state, _) = RunnerState::Running.step(RunnerEvent::ChildExited);
    let (state, actions) = state.step(RunnerEvent::RecvRerun);
    assert_eq!(state, RunnerState::Spawning);
    assert_eq!(actions, vec![RunnerAction::Spawn]);
}

#[test]
fn stop_in_the_wait_ends_without_spawning() {
    let (state, _) = RunnerState::Running.step(RunnerEvent::ChildExited);
    let (state, actions) = state.step(RunnerEvent::RecvStop);
    assert_eq!(state, RunnerState::Terminated);
    assert!(actions.is_empty());
}

#[test]
fn closed_source_in_the_wait_ends_the_runner() {
    let (state, actions) = RunnerState::AwaitSignal.step(RunnerEvent::RecvClosed);
    assert_eq!(state, RunnerState::Terminated);
    assert!(actions.is_empty());
}

#[test]
fn rerun_while_running_restarts_with_one_kill_reap() {
    let (state, actions) = RunnerState::Running.step(RunnerEvent::RerunWhileRunning {
        queued: Vec::new(),
        closed: false,
    });
    assert_eq!(state, RunnerState::Spawning);
    assert_eq!(actions, vec![RunnerAction::Kill, RunnerAction::Reap, RunnerAction::Spawn]);
}

#[test]
fn queued_reruns_then_stop_is_one_kill_reap_and_termination() {
    let queued = vec![RunSignal::Rerun, RunSignal::Rerun, RunSignal::Rerun, RunSignal::Stop];
    let (state, actions) = RunnerState::Running.step(RunnerEvent::RerunWhileRunning {
        queued,
        closed: false,
    });
    assert_eq!(state, RunnerState::Terminated);
    assert_eq!(actions, vec![RunnerAction::Kill, RunnerAction::Reap]);
}

#[test]
fn queued_reruns_collapse_into_one_restart() {
    let queued = vec![RunSignal::Rerun, RunSignal::Rerun, RunSignal::Rerun];
    let (state, actions) = RunnerState::Running.step(RunnerEvent::RerunWhileRunning {
        queued,
        closed: false,
    });
    assert_eq!(state, RunnerState::Spawning);
    assert_eq!(actions, vec![RunnerAction::Kill, RunnerAction::Reap, RunnerAction::Spawn]);
}

#[test]
fn closed_source_behind_a_rerun_ends_the_runner() {
    let (state, actions) = RunnerState::Running.step(RunnerEvent::RerunWhileRunning {
        queued: Vec::new(),
        closed: true,
    });
    assert_eq!(state, RunnerState::Terminated);
    assert_eq!(actions, vec![RunnerAction::Kill, RunnerAction::Reap]);
}

#[test]
fn stop_while_running_kills_and_reaps_once() {
    let (state, actions) = RunnerState::Running.step(RunnerEvent::StopWhileRunning);
    assert_eq!(state, RunnerState::Terminated);
    assert_eq!(actions, vec![RunnerAction::Kill, RunnerAction::Reap]);
}

#[test]
fn closed_source_while_running_kills_and_reaps_once() {
    let (state, actions) = RunnerState::Running.step(RunnerEvent::ClosedWhileRunning);
    assert_eq!(state, RunnerState::Terminated);
    assert_eq!(actions, vec![RunnerAction::Kill, RunnerAction::Reap]);
}

#[test]
fn a_tick_changes_nothing() {
    let (state, actions) = RunnerState::Running.step(RunnerEvent::Tick);
    assert_eq!(state, RunnerState::Running);
    assert!(actions.is_empty());
}

#[test]
fn kill_always_precedes_spawn_in_a_restart() {
    // At most one child alive: a restart kills and reaps the live child
    // before the next spawn attempt is made.
    let (_, actions) = RunnerState::Running.step(RunnerEvent::RerunWhileRunning {
        queued: vec![RunSignal::Rerun],
        closed: false,
    });
    let kill_at = actions.iter().position(|a| *a == RunnerAction::Kill).unwrap();
    let reap_at = actions.iter().position(|a| *a == RunnerAction::Reap).unwrap();
    let spawn_at = actions.iter().position(|a| *a == RunnerAction::Spawn).unwrap();
    assert!(kill_at < reap_at && reap_at < spawn_at);
    assert_eq!(actions.iter().filter(|a| **a == RunnerAction::Kill).count(), 1);
    assert_eq!(actions.iter().filter(|a| **a == RunnerAction::Spawn).count(), 1);
}
