use cfcli::config::{ConfigModuleMetadata, DependencySnapshot, snapshot_clone};
use cfcli::keymap::KeyMap;
use cfcli::supervisor::{FsKind, Phase, SupAction, SupEvent, Supervisor};

fn meta_with_path(package: &str, path: Option<&str>) -> ConfigModuleMetadata {
    ConfigModuleMetadata {
        package: Some(package.to_string()),
        version: None,
        features: Vec::new(),
        path: path.map(|s| s.to_string()),
        deps: Vec::new(),
    }
}

/// The snapshot of a config declaring module a with local path `./a` and
/// module b without one.
fn snapshot_a() -> DependencySnapshot {
    let mut snapshot: DependencySnapshot = KeyMap::new();
    snapshot.insert("a".to_string(), meta_with_path("a", Some("./a")));
    snapshot.insert("b".to_string(), meta_with_path("b", None));
    snapshot
}

/// Snapshot a extended by module c with local path `./c`.
fn snapshot_with_c() -> DependencySnapshot {
    let mut snapshot = snapshot_a();
    snapshot.insert("c".to_string(), meta_with_path("c", Some("./c")));
    snapshot
}

const CONFIG: &str = "proj/cyberfabric.yaml";

fn config_event() -> SupEvent {
    SupEvent::Fs { paths: vec![CONFIG.to_string()], kind: FsKind::Modify }
}

/// Drives a fresh supervisor through startup into the watching phase.
fn watching_supervisor(snapshot: DependencySnapshot) -> Supervisor {
    let (sup, actions) = Supervisor::new("proj".to_string(), CONFIG.to_string(), true);
    assert_eq!(actions, vec![SupAction::Resolve]);
    let (sup, actions) = sup.step(SupEvent::Resolved { snapshot });
    assert_eq!(actions, vec![SupAction::Generate]);
    let (sup, actions) = sup.step(SupEvent::Generated);
    assert_eq!(actions, vec![SupAction::WatchConfigDir]);
    let (sup, actions) = sup.step(SupEvent::ConfigDirWatched);
    assert_eq!(actions, vec![SupAction::ApplyInitialWatches, SupAction::StartRunner]);
    assert!(matches!(sup.phase, Phase::Watching));
    sup
}

#[test]
fn one_shot_run_generates_once_and_returns_the_exit_status() {
    let (sup, actions) = Supervisor::new("proj".to_string(), CONFIG.to_string(), false);
    assert_eq!(actions, vec![SupAction::Resolve]);
    let (sup, actions) = sup.step(SupEvent::Resolved { snapshot: snapshot_a() });
    assert_eq!(actions, vec![SupAction::Generate]);
    let (sup, actions) = sup.step(SupEvent::Generated);
    assert_eq!(actions, vec![SupAction::RunChildToExit]);
    let (sup, actions) = sup.step(SupEvent::ChildExit { success: true });
    assert_eq!(actions, vec![SupAction::FinishOk]);
    assert!(matches!(sup.phase, Phase::Stopped));
}

#[test]
fn one_shot_child_failure_is_the_session_result() {
    let (sup, _) = Supervisor::new("proj".to_string(), CONFIG.to_string(), false);
    let (sup, _) = sup.step(SupEvent::Resolved { snapshot: snapshot_a() });
    let (sup, _) = sup.step(SupEvent::Generated);
    let (_, actions) = sup.step(SupEvent::ChildExit { success: false });
    assert_eq!(actions, vec![SupAction::FinishErrChild]);
}

#[test]
fn startup_resolution_failure_is_fatal() {
    let (sup, _) = Supervisor::new("proj".to_string(), CONFIG.to_string(), true);
    let (sup, actions) = sup.step(SupEvent::ResolveFailed);
    assert_eq!(actions, vec![SupAction::FinishErrConfig]);
    assert!(matches!(sup.phase, Phase::Stopped));
}

#[test]
fn startup_generation_failure_is_fatal() {
    let (sup, _) = Supervisor::new("proj".to_string(), CONFIG.to_string(), true);
    let (sup, _) = sup.step(SupEvent::Resolved { snapshot: snapshot_a() });
    let (sup, actions) = sup.step(SupEvent::GenerateFailed);
    assert_eq!(actions, vec![SupAction::FinishErrGenerate]);
    assert!(matches!(sup.phase, Phase::Stopped));
}

#[test]
fn dependency_change_reruns_without_resolving() {
    let sup = watching_supervisor(snapshot_a());
    let before = sup.current_watch_paths();
    let (sup, actions) = sup.step(SupEvent::Fs {
        paths: vec!["proj/./a/src/lib.rs".to_string()],
        kind: FsKind::Modify,
    });
    assert_eq!(actions, vec![SupAction::SendRerun]);
    assert!(matches!(sup.phase, Phase::Watching));
    let after = sup.current_watch_paths();
    assert_eq!(before.paths, after.paths);
}

#[test]
fn irrelevant_event_kind_on_the_config_is_a_dependency_change() {
    let sup = watching_supervisor(snapshot_a());
    let (sup, actions) = sup.step(SupEvent::Fs {
        paths: vec![CONFIG.to_string()],
        kind: FsKind::Other,
    });
    assert_eq!(actions, vec![SupAction::SendRerun]);
    assert!(matches!(sup.phase, Phase::Watching));
}

#[test]
fn config_change_with_new_module_generates_and_watches_it() {
    let sup = watching_supervisor(snapshot_a());
    let (sup, actions) = sup.step(config_event());
    assert_eq!(actions, vec![SupAction::Resolve]);
    let (sup, actions) = sup.step(SupEvent::Resolved { snapshot: snapshot_with_c() });
    assert_eq!(actions, vec![SupAction::Generate]);
    let (sup, actions) = sup.step(SupEvent::Generated);
    assert_eq!(actions, vec![SupAction::ApplyReconcile]);
    let to_unwatch = sup.reconcile_unwatch();
    let to_watch = sup.reconcile_watch();
    assert_eq!(to_unwatch.len(), 0);
    assert_eq!(to_watch.paths, vec!["proj/./c".to_string()]);
    let (sup, actions) = sup.step(SupEvent::ReconcileOk);
    assert_eq!(actions, vec![SupAction::SendRerun]);
    assert!(matches!(sup.phase, Phase::Watching));
    assert!(sup.snapshot.get(&"c".to_string()).is_some());
    assert!(sup.current_watch_paths().contains(&"proj/./c".to_string()));
}

#[test]
fn config_change_resolving_to_the_same_snapshot_reruns_without_generating() {
    let sup = watching_supervisor(snapshot_a());
    let (sup, actions) = sup.step(config_event());
    assert_eq!(actions, vec![SupAction::Resolve]);
    let (sup, actions) = sup.step(SupEvent::Resolved { snapshot: snapshot_a() });
    assert_eq!(actions, vec![SupAction::SendRerun]);
    assert!(matches!(sup.phase, Phase::Watching));
}

#[test]
fn invalid_config_tick_is_skipped_then_the_next_valid_tick_proceeds() {
    let sup = watching_supervisor(snapshot_a());
    let (sup, _) = sup.step(config_event());
    let (sup, actions) = sup.step(SupEvent::ResolveFailed);
    assert!(actions.is_empty());
    assert!(matches!(sup.phase, Phase::Watching));
    assert!(sup.snapshot.get(&"a".to_string()).is_some());
    let (sup, actions) = sup.step(config_event());
    assert_eq!(actions, vec![SupAction::Resolve]);
    let (_, actions) = sup.step(SupEvent::Resolved { snapshot: snapshot_a() });
    assert_eq!(actions, vec![SupAction::SendRerun]);
}

#[test]
fn generation_failure_mid_watch_keeps_state_and_still_reruns() {
    let sup = watching_supervisor(snapshot_a());
    let before = sup.current_watch_paths();
    let (sup, _) = sup.step(config_event());
    let (sup, _) = sup.step(SupEvent::Resolved { snapshot: snapshot_with_c() });
    let (sup, actions) = sup.step(SupEvent::GenerateFailed);
    assert_eq!(actions, vec![SupAction::SendRerun]);
    assert!(matches!(sup.phase, Phase::Watching));
    assert!(sup.snapshot.get(&"c".to_string()).is_none());
    assert_eq!(before.paths, sup.current_watch_paths().paths);
}

#[test]
fn reconciliation_failure_is_session_fatal() {
    let sup = watching_supervisor(snapshot_a());
    let (sup, _) = sup.step(config_event());
    let (sup, _) = sup.step(SupEvent::Resolved { snapshot: snapshot_with_c() });
    let (sup, _) = sup.step(SupEvent::Generated);
    let (sup, actions) = sup.step(SupEvent::ReconcileFailed);
    assert_eq!(
        actions,
        vec![SupAction::SendStop, SupAction::JoinRunner, SupAction::FinishErrWatch]
    );
    assert!(matches!(sup.phase, Phase::Stopped));
}

#[test]
fn event_source_closure_stops_and_joins_the_runner() {
    let sup = watching_supervisor(snapshot_a());
    let (sup, actions) = sup.step(SupEvent::Closed);
    assert_eq!(actions, vec![SupAction::SendStop, SupAction::JoinRunner, SupAction::FinishOk]);
    assert!(matches!(sup.phase, Phase::Stopped));
}

#[test]
fn removed_module_is_unwatched() {
    let sup = watching_supervisor(snapshot_with_c());
    let (sup, _) = sup.step(config_event());
    let (sup, _) = sup.step(SupEvent::Resolved { snapshot: snapshot_a() });
    let (sup, _) = sup.step(SupEvent::Generated);
    let to_unwatch = sup.reconcile_unwatch();
    let to_watch = sup.reconcile_watch();
    assert_eq!(to_unwatch.paths, vec!["proj/./c".to_string()]);
    assert_eq!(to_watch.len(), 0);
    let (sup, _) = sup.step(SupEvent::ReconcileOk);
    assert!(!sup.current_watch_paths().contains(&"proj/./c".to_string()));
}

#[test]
fn watcher_error_is_logged_and_skipped() {
    let sup = watching_supervisor(snapshot_a());
    let (sup, actions) = sup.step(SupEvent::FsError);
    assert!(actions.is_empty());
    assert!(matches!(sup.phase, Phase::Watching));
}

#[test]
fn config_dir_watch_failure_is_fatal() {
    let (sup, _) = Supervisor::new("proj".to_string(), CONFIG.to_string(), true);
    let (sup, _) = sup.step(SupEvent::Resolved { snapshot: snapshot_a() });
    let (sup, _) = sup.step(SupEvent::Generated);
    let (sup, actions) = sup.step(SupEvent::ConfigDirWatchFailed);
    assert_eq!(actions, vec![SupAction::FinishErrWatch]);
    assert!(matches!(sup.phase, Phase::Stopped));
}

#[test]
fn pending_snapshot_is_the_resolved_one() {
    let sup = watching_supervisor(snapshot_a());
    let (sup, _) = sup.step(config_event());
    let (sup, _) = sup.step(SupEvent::Resolved { snapshot: snapshot_with_c() });
    let pending = snapshot_clone(sup.pending());
    assert!(pending.get(&"c".to_string()).is_some());
}
