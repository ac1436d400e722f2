//! The run supervisor: the watch-loop protocol as a verified state machine.
//!
//! A driver owns the watcher, the resolver, the generator and the runner
//! thread. The supervisor decides; the driver performs. Each step consumes
//! the outcome the driver observed and hands back the actions to perform
//! next, so every race between config edits, dependency-path edits and
//! shutdown is resolved here and verified.

use vstd::prelude::*;
use crate::config::{DependencySnapshot, snapshot_eq};
use crate::keymap::KeyMap;
use crate::watch::{WatchSet, collect_dep_paths, watch_diff, watch_paths_of};

verus! {

/// The kind of a filesystem event, as the watcher reports it.
#[derive(Clone, Copy, Debug, PartialEq, Eq, Structural)]
pub enum FsKind {
    Create,
    Modify,
    Remove,
    Other,
}

/// Where the supervisor stands in the protocol.
pub enum Phase {
    /// Startup: the initial resolution is pending.
    InitResolve,
    /// Startup: the initial scaffold generation is pending.
    InitGenerate { pending: DependencySnapshot },
    /// Non-watch mode: the build/run command runs to completion.
    OneShot,
    /// Watch mode: watching the config file's parent directory is pending.
    InitWatch,
    /// Watch mode: blocked on the next filesystem event.
    Watching,
    /// A config change was seen: re-resolution is pending.
    Reload,
    /// The reload resolved to a different snapshot: regeneration is pending.
    Regen { pending: DependencySnapshot },
    /// The scaffold was regenerated: the watch-set delta is pending.
    Reconcile { pending: DependencySnapshot },
    /// The session is over; terminal.
    Stopped,
}

/// What the driver observed since the last step.
pub enum SupEvent {
    /// Resolution produced a snapshot.
    Resolved { snapshot: DependencySnapshot },
    /// Resolution failed: unreadable or invalid config, or missing metadata.
    ResolveFailed,
    /// The scaffold generator succeeded.
    Generated,
    /// The scaffold generator failed.
    GenerateFailed,
    /// The config file's parent directory is now watched.
    ConfigDirWatched,
    /// The config file's parent directory could not be watched.
    ConfigDirWatchFailed,
    /// The one-shot child ran to completion; `success` is its exit status.
    ChildExit { success: bool },
    /// A filesystem event arrived, touching `paths`.
    Fs { paths: Vec<String>, kind: FsKind },
    /// The watcher delivered an error instead of an event.
    FsError,
    /// The event source closed: the watcher is gone.
    Closed,
    /// Every watch and unwatch of the reconciliation delta was applied.
    ReconcileOk,
    /// A watch or unwatch of the reconciliation delta failed.
    ReconcileFailed,
}

/// What the driver must do after a step, in the order given.
#[derive(Clone, Copy, Debug, PartialEq, Eq, Structural)]
pub enum SupAction {
    /// Resolve the config into a snapshot and report the outcome.
    Resolve,
    /// Run the scaffold generator on the pending snapshot and report.
    Generate,
    /// Run the build/run command to completion and report its exit status.
    RunChildToExit,
    /// Watch the config file's parent directory, non-recursively, and report.
    WatchConfigDir,
    /// Watch every current dependency path, recursively; failures are only
    /// logged.
    ApplyInitialWatches,
    /// Start the runner on its own thread.
    StartRunner,
    /// Unwatch the stale paths and watch the new ones, and report.
    ApplyReconcile,
    /// Send Rerun to the runner.
    SendRerun,
    /// Send Stop to the runner.
    SendStop,
    /// Join the runner thread.
    JoinRunner,
    /// Return success from the session.
    FinishOk,
    /// Return a config resolution error from the session.
    FinishErrConfig,
    /// Return a scaffold generation error from the session.
    FinishErrGenerate,
    /// Return a watch registration error from the session.
    FinishErrWatch,
    /// Return the child's failure from the session.
    FinishErrChild,
}

/// Whether an event is a config change: its path set includes the config
/// file and its kind is Create, Modify or Remove. Anything else counts as a
/// dependency change.
pub open spec fn is_config_change(paths: Seq<String>, kind: FsKind, config: Seq<char>) -> bool {
    (exists|i: int| 0 <= i < paths.len() && paths[i]@ == config) && (kind is Create
        || kind is Modify || kind is Remove)
}

/// The supervisor's state: the paths it was started with, the mode, the
/// committed snapshot, and the phase of the protocol.
pub struct Supervisor {
    pub base: String,
    pub config_path: String,
    pub watch_mode: bool,
    pub snapshot: DependencySnapshot,
    pub phase: Phase,
}

impl Supervisor {
    /// The committed snapshot, and any pending one, have distinct keys.
    pub open spec fn wf(&self) -> bool {
        &&& self.snapshot.wf()
        &&& match self.phase {
            Phase::InitGenerate { pending } => pending.wf(),
            Phase::Regen { pending } => pending.wf(),
            Phase::Reconcile { pending } => pending.wf(),
            _ => true,
        }
    }

    /// Which events can be observed in which phase.
    pub open spec fn accepts(self, e: SupEvent) -> bool {
        &&& match self.phase {
            Phase::InitResolve => e is Resolved || e is ResolveFailed,
            Phase::InitGenerate { .. } => e is Generated || e is GenerateFailed,
            Phase::OneShot => e is ChildExit,
            Phase::InitWatch => e is ConfigDirWatched || e is ConfigDirWatchFailed,
            Phase::Watching => e is Fs || e is FsError || e is Closed,
            Phase::Reload => e is Resolved || e is ResolveFailed,
            Phase::Regen { .. } => e is Generated || e is GenerateFailed,
            Phase::Reconcile { .. } => e is ReconcileOk || e is ReconcileFailed,
            Phase::Stopped => false,
        }
        &&& match e {
            SupEvent::Resolved { snapshot } => snapshot.wf(),
            _ => true,
        }
    }

    /// The next state and the actions of one supervisor step.
    pub open spec fn step_spec(self, e: SupEvent) -> (Supervisor, Seq<SupAction>) {
        let s = self;
        match (self.phase, e) {
            (Phase::InitResolve, SupEvent::Resolved { snapshot }) => (
                Supervisor { phase: Phase::InitGenerate { pending: snapshot }, ..s },
                seq![SupAction::Generate],
            ),
            (Phase::InitResolve, SupEvent::ResolveFailed) => (
                Supervisor { phase: Phase::Stopped, ..s },
                seq![SupAction::FinishErrConfig],
            ),
            (Phase::InitGenerate { pending }, SupEvent::Generated) => {
                if s.watch_mode {
                    (
                        Supervisor { phase: Phase::InitWatch, snapshot: pending, ..s },
                        seq![SupAction::WatchConfigDir],
                    )
                } else {
                    (
                        Supervisor { phase: Phase::OneShot, snapshot: pending, ..s },
                        seq![SupAction::RunChildToExit],
                    )
                }
            },
            (Phase::InitGenerate { pending }, SupEvent::GenerateFailed) => (
                Supervisor { phase: Phase::Stopped, ..s },
                seq![SupAction::FinishErrGenerate],
            ),
            (Phase::OneShot, SupEvent::ChildExit { success }) => (
                Supervisor { phase: Phase::Stopped, ..s },
                if success {
                    seq![SupAction::FinishOk]
                } else {
                    seq![SupAction::FinishErrChild]
                },
            ),
            (Phase::InitWatch, SupEvent::ConfigDirWatched) => (
                Supervisor { phase: Phase::Watching, ..s },
                seq![SupAction::ApplyInitialWatches, SupAction::StartRunner],
            ),
            (Phase::InitWatch, SupEvent::ConfigDirWatchFailed) => (
                Supervisor { phase: Phase::Stopped, ..s },
                seq![SupAction::FinishErrWatch],
            ),
            (Phase::Watching, SupEvent::Fs { paths, kind }) => {
                if is_config_change(paths@, kind, s.config_path@) {
                    (Supervisor { phase: Phase::Reload, ..s }, seq![SupAction::Resolve])
                } else {
                    (s, seq![SupAction::SendRerun])
                }
            },
            (Phase::Watching, SupEvent::FsError) => (s, Seq::empty()),
            (Phase::Watching, SupEvent::Closed) => (
                Supervisor { phase: Phase::Stopped, ..s },
                seq![SupAction::SendStop, SupAction::JoinRunner, SupAction::FinishOk],
            ),
            (Phase::Reload, SupEvent::Resolved { snapshot }) => {
                if snapshot@ == s.snapshot@ {
                    (Supervisor { phase: Phase::Watching, ..s }, seq![SupAction::SendRerun])
                } else {
                    (
                        Supervisor { phase: Phase::Regen { pending: snapshot }, ..s },
                        seq![SupAction::Generate],
                    )
                }
            },
            (Phase::Reload, SupEvent::ResolveFailed) => (
                Supervisor { phase: Phase::Watching, ..s },
                Seq::empty(),
            ),
            (Phase::Regen { pending }, SupEvent::Generated) => (
                Supervisor { phase: Phase::Reconcile { pending }, ..s },
                seq![SupAction::ApplyReconcile],
            ),
            (Phase::Regen { pending }, SupEvent::GenerateFailed) => (
                Supervisor { phase: Phase::Watching, ..s },
                seq![SupAction::SendRerun],
            ),
            (Phase::Reconcile { pending }, SupEvent::ReconcileOk) => (
                Supervisor { phase: Phase::Watching, snapshot: pending, ..s },
                seq![SupAction::SendRerun],
            ),
            (Phase::Reconcile { pending }, SupEvent::ReconcileFailed) => (
                Supervisor { phase: Phase::Stopped, ..s },
                seq![SupAction::SendStop, SupAction::JoinRunner, SupAction::FinishErrWatch],
            ),
            _ => (s, Seq::empty()),
        }
    }

    /// Enters the protocol: the initial resolution is pending.
    pub fn new(base: String, config_path: String, watch_mode: bool) -> (r: (
        Supervisor,
        Vec<SupAction>,
    ))
        ensures
            r.0.wf(),
            r.0.phase is InitResolve,
            r.0.base == base,
            r.0.config_path == config_path,
            r.0.watch_mode == watch_mode,
            r.1@ == seq![SupAction::Resolve],
    {
        let sup = Supervisor {
            base,
            config_path,
            watch_mode,
            snapshot: KeyMap::new(),
            phase: Phase::InitResolve,
        };
        let mut acts: Vec<SupAction> = Vec::new();
        acts.push(SupAction::Resolve);
        proof {
            assert(acts@ =~= seq![SupAction::Resolve]);
        }
        (sup, acts)
    }

    /// One step of the protocol: consumes the observed event, yields the
    /// next state and the actions the driver must perform, in order.
    pub fn step(self, event: SupEvent) -> (r: (Supervisor, Vec<SupAction>))
        requires
            self.wf(),
            self.accepts(event),
        ensures
            r.0 == self.step_spec(event).0,
            r.1@ == self.step_spec(event).1,
            r.0.wf(),
    {
        let Supervisor { base, config_path, watch_mode, snapshot, phase } = self;
        match (phase, event) {
            (Phase::InitResolve, SupEvent::Resolved { snapshot: resolved }) => {
                let sup = Supervisor {
                    base,
                    config_path,
                    watch_mode,
                    snapshot,
                    phase: Phase::InitGenerate { pending: resolved },
                };
                (sup, one_action(SupAction::Generate))
            },
            (Phase::InitResolve, SupEvent::ResolveFailed) => {
                let sup = Supervisor {
                    base,
                    config_path,
                    watch_mode,
                    snapshot,
                    phase: Phase::Stopped,
                };
                (sup, one_action(SupAction::FinishErrConfig))
            },
            (Phase::InitGenerate { pending }, SupEvent::Generated) => {
                if watch_mode {
                    let sup = Supervisor {
                        base,
                        config_path,
                        watch_mode,
                        snapshot: pending,
                        phase: Phase::InitWatch,
                    };
                    (sup, one_action(SupAction::WatchConfigDir))
                } else {
                    let sup = Supervisor {
                        base,
                        config_path,
                        watch_mode,
                        snapshot: pending,
                        phase: Phase::OneShot,
                    };
                    (sup, one_action(SupAction::RunChildToExit))
                }
            },
            (Phase::InitGenerate { pending: _ }, SupEvent::GenerateFailed) => {
                let sup = Supervisor {
                    base,
                    config_path,
                    watch_mode,
                    snapshot,
                    phase: Phase::Stopped,
                };
                (sup, one_action(SupAction::FinishErrGenerate))
            },
            (Phase::OneShot, SupEvent::ChildExit { success }) => {
                let sup = Supervisor {
                    base,
                    config_path,
                    watch_mode,
                    snapshot,
                    phase: Phase::Stopped,
                };
                if success {
                    (sup, one_action(SupAction::FinishOk))
                } else {
                    (sup, one_action(SupAction::FinishErrChild))
                }
            },
            (Phase::InitWatch, SupEvent::ConfigDirWatched) => {
                let sup = Supervisor {
                    base,
                    config_path,
                    watch_mode,
                    snapshot,
                    phase: Phase::Watching,
                };
                let mut acts: Vec<SupAction> = Vec::new();
                acts.push(SupAction::ApplyInitialWatches);
                acts.push(SupAction::StartRunner);
                proof {
                    assert(acts@ =~= seq![SupAction::ApplyInitialWatches, SupAction::StartRunner]);
                }
                (sup, acts)
            },
            (Phase::InitWatch, SupEvent::ConfigDirWatchFailed) => {
                let sup = Supervisor {
                    base,
                    config_path,
                    watch_mode,
                    snapshot,
                    phase: Phase::Stopped,
                };
                (sup, one_action(SupAction::FinishErrWatch))
            },
            (Phase::Watching, SupEvent::Fs { paths, kind }) => {
                let relevant = matches!(kind, FsKind::Create | FsKind::Modify | FsKind::Remove);
                let touches_config = paths_contain(&paths, &config_path);
                let sup = Supervisor {
                    base,
                    config_path,
                    watch_mode,
                    snapshot,
                    phase: if touches_config && relevant {
                        Phase::Reload
                    } else {
                        Phase::Watching
                    },
                };
                if touches_config && relevant {
                    (sup, one_action(SupAction::Resolve))
                } else {
                    (sup, one_action(SupAction::SendRerun))
                }
            },
            (Phase::Watching, SupEvent::FsError) => {
                let sup = Supervisor {
                    base,
                    config_path,
                    watch_mode,
                    snapshot,
                    phase: Phase::Watching,
                };
                (sup, Vec::new())
            },
            (Phase::Watching, SupEvent::Closed) => {
                let sup = Supervisor {
                    base,
                    config_path,
                    watch_mode,
                    snapshot,
                    phase: Phase::Stopped,
                };
                let mut acts: Vec<SupAction> = Vec::new();
                acts.push(SupAction::SendStop);
                acts.push(SupAction::JoinRunner);
                acts.push(SupAction::FinishOk);
                proof {
                    assert(acts@ =~= seq![
                        SupAction::SendStop,
                        SupAction::JoinRunner,
                        SupAction::FinishOk,
                    ]);
                }
                (sup, acts)
            },
            (Phase::Reload, SupEvent::Resolved { snapshot: resolved }) => {
                if snapshot_eq(&resolved, &snapshot) {
                    let sup = Supervisor {
                        base,
                        config_path,
                        watch_mode,
                        snapshot,
                        phase: Phase::Watching,
                    };
                    (sup, one_action(SupAction::SendRerun))
                } else {
                    let sup = Supervisor {
                        base,
                        config_path,
                        watch_mode,
                        snapshot,
                        phase: Phase::Regen { pending: resolved },
                    };
                    (sup, one_action(SupAction::Generate))
                }
            },
            (Phase::Reload, SupEvent::ResolveFailed) => {
                let sup = Supervisor {
                    base,
                    config_path,
                    watch_mode,
                    snapshot,
                    phase: Phase::Watching,
                };
                (sup, Vec::new())
            },
            (Phase::Regen { pending }, SupEvent::Generated) => {
                let sup = Supervisor {
                    base,
                    config_path,
                    watch_mode,
                    snapshot,
                    phase: Phase::Reconcile { pending },
                };
                (sup, one_action(SupAction::ApplyReconcile))
            },
            (Phase::Regen { pending: _ }, SupEvent::GenerateFailed) => {
                let sup = Supervisor {
                    base,
                    config_path,
                    watch_mode,
                    snapshot,
                    phase: Phase::Watching,
                };
                (sup, one_action(SupAction::SendRerun))
            },
            (Phase::Reconcile { pending }, SupEvent::ReconcileOk) => {
                let sup = Supervisor {
                    base,
                    config_path,
                    watch_mode,
                    snapshot: pending,
                    phase: Phase::Watching,
                };
                (sup, one_action(SupAction::SendRerun))
            },
            (Phase::Reconcile { pending: _ }, SupEvent::ReconcileFailed) => {
                let sup = Supervisor {
                    base,
                    config_path,
                    watch_mode,
                    snapshot,
                    phase: Phase::Stopped,
                };
                let mut acts: Vec<SupAction> = Vec::new();
                acts.push(SupAction::SendStop);
                acts.push(SupAction::JoinRunner);
                acts.push(SupAction::FinishErrWatch);
                proof {
                    assert(acts@ =~= seq![
                        SupAction::SendStop,
                        SupAction::JoinRunner,
                        SupAction::FinishErrWatch,
                    ]);
                }
                (sup, acts)
            },
            _ => vstd::pervasive::unreached(),
        }
    }

    /// The dependency paths the committed snapshot asks to have watched.
    pub fn current_watch_paths(&self) -> (r: WatchSet)
        requires
            self.wf(),
        ensures
            r.wf(),
            r@ == watch_paths_of(self.snapshot@, self.base@),
    {
        collect_dep_paths(&self.snapshot, &self.base)
    }

    /// The snapshot awaiting generation or reconciliation.
    pub fn pending(&self) -> (r: &DependencySnapshot)
        requires
            self.phase matches Phase::InitGenerate { .. } || self.phase matches Phase::Regen {
                ..
            } || self.phase matches Phase::Reconcile { .. },
        ensures
            self.phase matches Phase::InitGenerate { pending } ==> r == pending,
            self.phase matches Phase::Regen { pending } ==> r == pending,
            self.phase matches Phase::Reconcile { pending } ==> r == pending,
    {
        match &self.phase {
            Phase::InitGenerate { pending } => pending,
            Phase::Regen { pending } => pending,
            Phase::Reconcile { pending } => pending,
            _ => vstd::pervasive::unreached(),
        }
    }

    /// The paths to unwatch during reconciliation: watched for the committed
    /// snapshot but not wanted by the pending one.
    pub fn reconcile_unwatch(&self) -> (r: WatchSet)
        requires
            self.wf(),
            self.phase matches Phase::Reconcile { .. },
        ensures
            r.wf(),
            self.phase matches Phase::Reconcile { pending } ==> r@ == watch_paths_of(
                self.snapshot@,
                self.base@,
            ).difference(watch_paths_of(pending@, self.base@)),
    {
        match &self.phase {
            Phase::Reconcile { pending } => {
                let old_paths = collect_dep_paths(&self.snapshot, &self.base);
                let new_paths = collect_dep_paths(pending, &self.base);
                watch_diff(&old_paths, &new_paths)
            },
            _ => vstd::pervasive::unreached(),
        }
    }

    /// The paths to newly watch during reconciliation: wanted by the pending
    /// snapshot but not watched for the committed one.
    pub fn reconcile_watch(&self) -> (r: WatchSet)
        requires
            self.wf(),
            self.phase matches Phase::Reconcile { .. },
        ensures
            r.wf(),
            self.phase matches Phase::Reconcile { pending } ==> r@ == watch_paths_of(
                pending@,
                self.base@,
            ).difference(watch_paths_of(self.snapshot@, self.base@)),
    {
        match &self.phase {
            Phase::Reconcile { pending } => {
                let old_paths = collect_dep_paths(&self.snapshot, &self.base);
                let new_paths = collect_dep_paths(pending, &self.base);
                watch_diff(&new_paths, &old_paths)
            },
            _ => vstd::pervasive::unreached(),
        }
    }
}

/// A config-change event whose re-resolution yields a snapshot equal to the
/// current one never invokes the generator, but still emits exactly one
/// Rerun; the committed snapshot stays as it was.
pub proof fn lemma_equal_snapshot_rerun_only(
    s: Supervisor,
    paths: Vec<String>,
    kind: FsKind,
    b: DependencySnapshot,
)
    requires
        s.phase is Watching,
        is_config_change(paths@, kind, s.config_path@),
        b@ == s.snapshot@,
    ensures
        ({
            let (s1, a1) = s.step_spec(SupEvent::Fs { paths, kind });
            let (s2, a2) = s1.step_spec(SupEvent::Resolved { snapshot: b });
            &&& a1 == seq![SupAction::Resolve]
            &&& a2 == seq![SupAction::SendRerun]
            &&& !a1.contains(SupAction::Generate)
            &&& !a2.contains(SupAction::Generate)
            &&& s2.phase is Watching
            &&& s2.snapshot == s.snapshot
        }),
{
    let (s1, a1) = s.step_spec(SupEvent::Fs { paths, kind });
    let (s2, a2) = s1.step_spec(SupEvent::Resolved { snapshot: b });
    assert(a1 == seq![SupAction::Resolve]);
    assert(a1[0] == SupAction::Resolve);
    assert(a2[0] == SupAction::SendRerun);
}

/// A config-change event whose re-resolution yields a different snapshot
/// invokes the generator exactly once, before the one Rerun of the tick: the
/// tick's action sequences are Resolve, then Generate, then the watch-set
/// delta, then SendRerun, after which the new snapshot is committed. If
/// generation fails instead, the old snapshot and watch set stay
/// authoritative and the Rerun is still sent.
pub proof fn lemma_changed_snapshot_generates_once(
    s: Supervisor,
    paths: Vec<String>,
    kind: FsKind,
    b: DependencySnapshot,
)
    requires
        s.phase is Watching,
        is_config_change(paths@, kind, s.config_path@),
        b@ != s.snapshot@,
    ensures
        ({
            let (s1, a1) = s.step_spec(SupEvent::Fs { paths, kind });
            let (s2, a2) = s1.step_spec(SupEvent::Resolved { snapshot: b });
            let (s3, a3) = s2.step_spec(SupEvent::Generated);
            let (s4, a4) = s3.step_spec(SupEvent::ReconcileOk);
            let (s5, a5) = s2.step_spec(SupEvent::GenerateFailed);
            &&& a1 == seq![SupAction::Resolve]
            &&& a2 == seq![SupAction::Generate]
            &&& a3 == seq![SupAction::ApplyReconcile]
            &&& a4 == seq![SupAction::SendRerun]
            &&& !a1.contains(SupAction::Generate) && !a3.contains(SupAction::Generate)
                && !a4.contains(SupAction::Generate)
            &&& !a1.contains(SupAction::SendRerun) && !a2.contains(SupAction::SendRerun)
                && !a3.contains(SupAction::SendRerun)
            &&& s4.phase is Watching && s4.snapshot == b
            &&& a5 == seq![SupAction::SendRerun] && s5.phase is Watching && s5.snapshot
                == s.snapshot
        }),
{
    let (s1, a1) = s.step_spec(SupEvent::Fs { paths, kind });
    let (s2, a2) = s1.step_spec(SupEvent::Resolved { snapshot: b });
    let (s3, a3) = s2.step_spec(SupEvent::Generated);
    assert(a1[0] == SupAction::Resolve);
    assert(a2[0] == SupAction::Generate);
    assert(a3[0] == SupAction::ApplyReconcile);
}

/// A dependency-path event — any event that is not a config change — sends
/// Rerun unconditionally, with no re-resolution, no generation, and no
/// change to the snapshot or the watch set.
pub proof fn lemma_dependency_change_rerun(s: Supervisor, paths: Vec<String>, kind: FsKind)
    requires
        s.phase is Watching,
        !is_config_change(paths@, kind, s.config_path@),
    ensures
        ({
            let (s1, a1) = s.step_spec(SupEvent::Fs { paths, kind });
            &&& a1 == seq![SupAction::SendRerun]
            &&& s1 == s
        }),
{
}

/// A reload tick that fails to resolve is skipped: no signal is sent, no
/// generation happens, and the previous snapshot — hence the previous watch
/// set — remains authoritative.
pub proof fn lemma_invalid_config_tick(s: Supervisor)
    requires
        s.phase is Reload,
    ensures
        ({
            let (s1, a1) = s.step_spec(SupEvent::ResolveFailed);
            &&& a1 == Seq::<SupAction>::empty()
            &&& s1.phase is Watching
            &&& s1.snapshot == s.snapshot
        }),
{
}

/// Reconciliation applies exactly the two set differences: every path in the
/// delta is wanted by the new set and absent from the old one, and no path
/// stands in the delta twice — so nothing is ever double-watched.
pub proof fn lemma_reconcile_no_double_watch(
    delta: WatchSet,
    old_paths: Set<Seq<char>>,
    new_paths: Set<Seq<char>>,
)
    requires
        delta.wf(),
        delta@ == new_paths.difference(old_paths),
    ensures
        forall|p: Seq<char>| #[trigger] delta@.contains(p) ==> new_paths.contains(p)
            && !old_paths.contains(p),
        forall|i: int, j: int| 0 <= i < j < delta.paths@.len() ==> delta.paths@[i]@
            != delta.paths@[j]@,
{
}

/// When the event source closes, the supervisor sends Stop to the runner and
/// joins it before the session returns success; together with the runner's
/// teardown on Stop, no child process outlives the session.
pub proof fn lemma_closure_stops_and_joins(s: Supervisor)
    requires
        s.phase is Watching,
    ensures
        ({
            let (s1, a1) = s.step_spec(SupEvent::Closed);
            &&& a1 == seq![SupAction::SendStop, SupAction::JoinRunner, SupAction::FinishOk]
            &&& a1[0] == SupAction::SendStop
            &&& a1[2] == SupAction::FinishOk
            &&& s1.phase is Stopped
        }),
{
}

/// A reconciliation failure is session-fatal: the watcher's state can no
/// longer be trusted, so the runner is stopped and joined and the session
/// returns a watch error.
pub proof fn lemma_reconcile_failure_is_fatal(s: Supervisor)
    requires
        s.phase matches Phase::Reconcile { .. },
    ensures
        ({
            let (s1, a1) = s.step_spec(SupEvent::ReconcileFailed);
            &&& a1 == seq![SupAction::SendStop, SupAction::JoinRunner, SupAction::FinishErrWatch]
            &&& s1.phase is Stopped
        }),
{
}

/// A single action.
fn one_action(a: SupAction) -> (r: Vec<SupAction>)
    ensures
        r@ == seq![a],
{
    let mut acts: Vec<SupAction> = Vec::new();
    acts.push(a);
    proof {
        assert(acts@ =~= seq![a]);
    }
    acts
}

/// Whether any of the event's paths is the config file.
fn paths_contain(paths: &Vec<String>, config: &String) -> (r: bool)
    ensures
        r == exists|i: int| 0 <= i < paths@.len() && paths@[i]@ == config@,
{
    let n = paths.len();
    for i in 0..n
        invariant
            n == paths@.len(),
            forall|j: int| 0 <= j < i ==> paths@[j]@ != config@,
    {
        if paths[i].eq(config) {
            proof {
                assert(paths@[i as int]@ == config@);
            }
            return true;
        }
    }
    false
}

} // verus!
