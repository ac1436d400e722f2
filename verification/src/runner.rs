//! The runner: the single-child-process lifecycle state machine.
//!
//! The runner owns the supervised child process. A driver thread runs the
//! loop: it performs the actions a step hands back (spawn, kill, reap),
//! observes the world (spawn results, child exit, signals), and feeds the
//! next event in. Every decision — when to spawn, when to kill, how
//! back-to-back restart signals collapse — is taken here and verified.

use vstd::prelude::*;
use crate::signal::RunSignal;

verus! {

/// The lifecycle states of the runner.
#[derive(Clone, Copy, Debug, PartialEq, Eq, Structural)]
pub enum RunnerState {
    /// A spawn attempt is pending: the driver must try to start the child.
    Spawning,
    /// A child process is alive; the driver polls its exit status and the
    /// signal queue on a fixed interval.
    Running,
    /// No child is alive; the driver blocks until the next signal.
    AwaitSignal,
    /// The runner is done; terminal.
    Terminated,
}

/// What the driver observed since the last step.
pub enum RunnerEvent {
    /// The pending spawn attempt produced a live child.
    SpawnOk,
    /// The pending spawn attempt failed; no child was created.
    SpawnFailed,
    /// The child exited on its own and was reaped, with no signal pending.
    ChildExited,
    /// A Rerun signal arrived while the child was alive. `queued` holds
    /// every signal still pending behind it, in arrival order, and `closed`
    /// whether the signal source is gone.
    RerunWhileRunning { queued: Vec<RunSignal>, closed: bool },
    /// A Stop signal arrived while the child was alive.
    StopWhileRunning,
    /// The signal source closed while the child was alive.
    ClosedWhileRunning,
    /// The poll interval elapsed: the child is alive, no signal is pending.
    Tick,
    /// Blocking receipt returned Rerun.
    RecvRerun,
    /// Blocking receipt returned Stop.
    RecvStop,
    /// Blocking receipt found the signal source closed.
    RecvClosed,
}

/// What the driver must do after a step, in the order given.
#[derive(Clone, Copy, Debug, PartialEq, Eq, Structural)]
pub enum RunnerAction {
    /// Attempt to spawn the child process.
    Spawn,
    /// Kill the live child.
    Kill,
    /// Reap the killed child, so no zombie is left.
    Reap,
}

/// Whether a batch of pending signals holds a Stop.
pub open spec fn batch_has_stop(q: Seq<RunSignal>) -> bool {
    exists|i: int| 0 <= i < q.len() && q[i] is Stop
}

/// Which events can be observed in which state.
pub open spec fn event_fits(s: RunnerState, e: RunnerEvent) -> bool {
    match s {
        RunnerState::Spawning => e is SpawnOk || e is SpawnFailed,
        RunnerState::Running => e is ChildExited || e is RerunWhileRunning || e is StopWhileRunning
            || e is ClosedWhileRunning || e is Tick,
        RunnerState::AwaitSignal => e is RecvRerun || e is RecvStop || e is RecvClosed,
        RunnerState::Terminated => false,
    }
}

/// The next state and the actions of one runner step.
pub open spec fn step_result(s: RunnerState, e: RunnerEvent) -> (RunnerState, Seq<RunnerAction>) {
    match (s, e) {
        (RunnerState::Spawning, RunnerEvent::SpawnOk) => (RunnerState::Running, Seq::empty()),
        (RunnerState::Spawning, RunnerEvent::SpawnFailed) => (
            RunnerState::AwaitSignal,
            Seq::empty(),
        ),
        (RunnerState::Running, RunnerEvent::ChildExited) => (RunnerState::AwaitSignal, Seq::empty()),
        (RunnerState::Running, RunnerEvent::RerunWhileRunning { queued, closed }) => {
            if closed || batch_has_stop(queued@) {
                (RunnerState::Terminated, seq![RunnerAction::Kill, RunnerAction::Reap])
            } else {
                (
                    RunnerState::Spawning,
                    seq![RunnerAction::Kill, RunnerAction::Reap, RunnerAction::Spawn],
                )
            }
        },
        (RunnerState::Running, RunnerEvent::StopWhileRunning) => (
            RunnerState::Terminated,
            seq![RunnerAction::Kill, RunnerAction::Reap],
        ),
        (RunnerState::Running, RunnerEvent::ClosedWhileRunning) => (
            RunnerState::Terminated,
            seq![RunnerAction::Kill, RunnerAction::Reap],
        ),
        (RunnerState::Running, RunnerEvent::Tick) => (RunnerState::Running, Seq::empty()),
        (RunnerState::AwaitSignal, RunnerEvent::RecvRerun) => (
            RunnerState::Spawning,
            seq![RunnerAction::Spawn],
        ),
        (RunnerState::AwaitSignal, RunnerEvent::RecvStop) => (RunnerState::Terminated, Seq::empty()),
        (RunnerState::AwaitSignal, RunnerEvent::RecvClosed) => (
            RunnerState::Terminated,
            Seq::empty(),
        ),
        _ => (s, Seq::empty()),
    }
}

/// Whether the signal batch ends the runner instead of restarting the child.
fn batch_stop(queued: &Vec<RunSignal>, closed: bool) -> (r: bool)
    ensures
        r == (closed || batch_has_stop(queued@)),
{
    if closed {
        return true;
    }
    let n = queued.len();
    for i in 0..n
        invariant
            n == queued@.len(),
            forall|j: int| 0 <= j < i ==> !(queued@[j] is Stop),
    {
        if matches!(queued[i], RunSignal::Stop) {
            proof {
                assert(queued@[i as int] is Stop);
            }
            return true;
        }
    }
    false
}

impl RunnerState {
    /// Enters the runner: the first spawn attempt is pending.
    pub fn start() -> (r: (RunnerState, Vec<RunnerAction>))
        ensures
            r.0 is Spawning,
            r.1@ == seq![RunnerAction::Spawn],
    {
        let mut acts: Vec<RunnerAction> = Vec::new();
        acts.push(RunnerAction::Spawn);
        proof {
            assert(acts@ =~= seq![RunnerAction::Spawn]);
        }
        (RunnerState::Spawning, acts)
    }

    /// One step of the runner: consumes the observed event, yields the next
    /// state and the actions the driver must perform, in order.
    pub fn step(self, event: RunnerEvent) -> (r: (RunnerState, Vec<RunnerAction>))
        requires
            event_fits(self, event),
        ensures
            r.0 == step_result(self, event).0,
            r.1@ == step_result(self, event).1,
    {
        match (self, &event) {
            (RunnerState::Spawning, RunnerEvent::SpawnOk) => (RunnerState::Running, Vec::new()),
            (RunnerState::Spawning, RunnerEvent::SpawnFailed) => (
                RunnerState::AwaitSignal,
                Vec::new(),
            ),
            (RunnerState::Running, RunnerEvent::ChildExited) => (
                RunnerState::AwaitSignal,
                Vec::new(),
            ),
            (RunnerState::Running, RunnerEvent::RerunWhileRunning { queued, closed }) => {
                let mut acts: Vec<RunnerAction> = Vec::new();
                acts.push(RunnerAction::Kill);
                acts.push(RunnerAction::Reap);
                if batch_stop(queued, *closed) {
                    proof {
                        assert(acts@ =~= seq![RunnerAction::Kill, RunnerAction::Reap]);
                    }
                    (RunnerState::Terminated, acts)
                } else {
                    acts.push(RunnerAction::Spawn);
                    proof {
                        assert(acts@ =~= seq![
                            RunnerAction::Kill,
                            RunnerAction::Reap,
                            RunnerAction::Spawn,
                        ]);
                    }
                    (RunnerState::Spawning, acts)
                }
            },
            (RunnerState::Running, RunnerEvent::StopWhileRunning) => {
                let mut acts: Vec<RunnerAction> = Vec::new();
                acts.push(RunnerAction::Kill);
                acts.push(RunnerAction::Reap);
                proof {
                    assert(acts@ =~= seq![RunnerAction::Kill, RunnerAction::Reap]);
                }
                (RunnerState::Terminated, acts)
            },
            (RunnerState::Running, RunnerEvent::ClosedWhileRunning) => {
                let mut acts: Vec<RunnerAction> = Vec::new();
                acts.push(RunnerAction::Kill);
                acts.push(RunnerAction::Reap);
                proof {
                    assert(acts@ =~= seq![RunnerAction::Kill, RunnerAction::Reap]);
                }
                (RunnerState::Terminated, acts)
            },
            (RunnerState::Running, RunnerEvent::Tick) => (RunnerState::Running, Vec::new()),
            (RunnerState::AwaitSignal, RunnerEvent::RecvRerun) => {
                let mut acts: Vec<RunnerAction> = Vec::new();
                acts.push(RunnerAction::Spawn);
                proof {
                    assert(acts@ =~= seq![RunnerAction::Spawn]);
                }
                (RunnerState::Spawning, acts)
            },
            (RunnerState::AwaitSignal, RunnerEvent::RecvStop) => (
                RunnerState::Terminated,
                Vec::new(),
            ),
            (RunnerState::AwaitSignal, RunnerEvent::RecvClosed) => (
                RunnerState::Terminated,
                Vec::new(),
            ),
            _ => (self, Vec::new()),
        }
    }
}

/// How many children could be alive after one action: a spawn attempt adds
/// at most one, a kill removes the one killed.
pub open spec fn action_delta(n: int, a: RunnerAction) -> int {
    match a {
        RunnerAction::Spawn => n + 1,
        RunnerAction::Kill => n - 1,
        RunnerAction::Reap => n,
    }
}

/// How many children are left alive after the given actions run, starting
/// from `n` alive.
pub open spec fn after_live(n: int, acts: Seq<RunnerAction>) -> int
    decreases acts.len(),
{
    if acts.len() == 0 {
        n
    } else {
        after_live(action_delta(n, acts.first()), acts.drop_first())
    }
}

/// The most children that could be alive at any instant while the given
/// actions run, starting from `n` alive.
pub open spec fn peak_live(n: int, acts: Seq<RunnerAction>) -> int
    decreases acts.len(),
{
    if acts.len() == 0 {
        n
    } else {
        vstd::math::max(n, peak_live(action_delta(n, acts.first()), acts.drop_first()))
    }
}

/// The most children that could be alive in any state of the runner.
pub open spec fn live_bound(s: RunnerState) -> int {
    match s {
        RunnerState::Spawning => 1,
        RunnerState::Running => 1,
        RunnerState::AwaitSignal => 0,
        RunnerState::Terminated => 0,
    }
}

/// At most one child process is alive at any instant while the runner is
/// active: along the actions of any step, the number of live children never
/// exceeds one, the next state's bound is covered by what the actions leave
/// alive, and whenever a child is killed it is reaped right after, before
/// anything else is spawned.
pub proof fn lemma_at_most_one_child(s: RunnerState, e: RunnerEvent)
    requires
        event_fits(s, e),
    ensures
        peak_live(live_bound(s), step_result(s, e).1) <= 1,
        live_bound(step_result(s, e).0) <= after_live(live_bound(s), step_result(s, e).1),
        step_result(s, e).1.contains(RunnerAction::Kill) ==> step_result(s, e).1 == seq![
            RunnerAction::Kill,
            RunnerAction::Reap,
        ] || step_result(s, e).1 == seq![
            RunnerAction::Kill,
            RunnerAction::Reap,
            RunnerAction::Spawn,
        ],
{
    let acts = step_result(s, e).1;
    let n = live_bound(s);
    if acts.len() >= 1 {
        let r1 = acts.drop_first();
        let m1 = action_delta(n, acts[0]);
        assert(peak_live(n, acts) == vstd::math::max(n, peak_live(m1, r1)));
        assert(after_live(n, acts) == after_live(m1, r1));
        if acts.len() >= 2 {
            let r2 = r1.drop_first();
            let m2 = action_delta(m1, acts[1]);
            assert(r1[0] == acts[1]);
            assert(peak_live(m1, r1) == vstd::math::max(m1, peak_live(m2, r2)));
            assert(after_live(m1, r1) == after_live(m2, r2));
            if acts.len() >= 3 {
                let r3 = r2.drop_first();
                let m3 = action_delta(m2, acts[2]);
                assert(r2[0] == acts[2]);
                assert(peak_live(m2, r2) == vstd::math::max(m2, peak_live(m3, r3)));
                assert(after_live(m2, r2) == after_live(m3, r3));
                assert(r3.len() == 0);
            } else {
                assert(r2.len() == 0);
            }
        } else {
            assert(r1.len() == 0);
        }
    }
}

/// Whether every event of a sequence fits the state it meets.
pub open spec fn trace_fits(s: RunnerState, events: Seq<RunnerEvent>) -> bool
    decreases events.len(),
{
    events.len() == 0 || (event_fits(s, events.first()) && trace_fits(
        step_result(s, events.first()).0,
        events.drop_first(),
    ))
}

/// The most children that could be alive at any instant while the runner
/// consumes a sequence of events.
pub open spec fn trace_peak_live(s: RunnerState, events: Seq<RunnerEvent>) -> int
    decreases events.len(),
{
    if events.len() == 0 {
        live_bound(s)
    } else {
        let (s2, acts) = step_result(s, events.first());
        vstd::math::max(peak_live(live_bound(s), acts), trace_peak_live(s2, events.drop_first()))
    }
}

/// At most one child process is alive at any instant along any whole run of
/// the runner: however the observed events unfold, the count never exceeds
/// one.
pub proof fn lemma_trace_at_most_one_child(s: RunnerState, events: Seq<RunnerEvent>)
    requires
        trace_fits(s, events),
    ensures
        trace_peak_live(s, events) <= 1,
    decreases events.len(),
{
    if events.len() > 0 {
        lemma_at_most_one_child(s, events.first());
        lemma_trace_at_most_one_child(step_result(s, events.first()).0, events.drop_first());
    }
}

/// A Rerun that arrives after the child already exited on its own does not
/// spawn at once: the exit leads to a bare wait, the next Rerun received in
/// that wait resumes with a spawn attempt, and a Stop received in that same
/// wait ends the runner without spawning or killing anything.
pub proof fn lemma_no_spawn_after_self_exit()
    ensures
        step_result(RunnerState::Running, RunnerEvent::ChildExited) == (
            RunnerState::AwaitSignal,
            Seq::<RunnerAction>::empty(),
        ),
        step_result(RunnerState::AwaitSignal, RunnerEvent::RecvRerun) == (
            RunnerState::Spawning,
            seq![RunnerAction::Spawn],
        ),
        step_result(RunnerState::AwaitSignal, RunnerEvent::RecvStop) == (
            RunnerState::Terminated,
            Seq::<RunnerAction>::empty(),
        ),
{
}

/// Any number of queued Rerun signals followed by a Stop produce exactly one
/// kill/reap cycle and terminate the runner: no spurious extra restart.
pub proof fn lemma_collapsed_reruns(queued: Vec<RunSignal>, closed: bool)
    requires
        queued@.len() > 0,
        forall|i: int| 0 <= i < queued@.len() - 1 ==> queued@[i] is Rerun,
        queued@.last() is Stop,
    ensures
        step_result(RunnerState::Running, RunnerEvent::RerunWhileRunning { queued, closed }) == (
            RunnerState::Terminated,
            seq![RunnerAction::Kill, RunnerAction::Reap],
        ),
{
    assert(queued@[queued@.len() - 1] is Stop);
    assert(batch_has_stop(queued@));
}

/// A Stop while the child is alive, or the signal source closing, kills and
/// reaps the child exactly once and terminates the runner.
pub proof fn lemma_stop_kills_and_reaps()
    ensures
        step_result(RunnerState::Running, RunnerEvent::StopWhileRunning) == (
            RunnerState::Terminated,
            seq![RunnerAction::Kill, RunnerAction::Reap],
        ),
        step_result(RunnerState::Running, RunnerEvent::ClosedWhileRunning) == (
            RunnerState::Terminated,
            seq![RunnerAction::Kill, RunnerAction::Reap],
        ),
{
}

} // verus!
