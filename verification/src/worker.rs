//! The two workers of a run, one turn at a time: the update worker, which
//! re-measures every record for as long as the run window is open, and the
//! snapshot worker, which also hands out a copy of the store to be persisted
//! and then pauses.

use vstd::prelude::*;
use vstd::arithmetic::div_mod::lemma_fundamental_div_mod;
use vstd::arithmetic::div_mod::lemma_mod_bound;
use crate::clock::NANOS_PER_SEC;
use crate::clock::WallTime;
use crate::clock::now;
use crate::generator::refresh;
use crate::monitor::MonitorData;
use crate::monitor::fully_measured;
use crate::naming::snapshot_file_name;
use crate::naming::snapshot_name;
use crate::store::MonitorStore;
use crate::store::observable;
use crate::window::RunWindow;

verus! {

/// How long the snapshot worker pauses after each snapshot, in seconds.
pub const SNAPSHOT_INTERVAL_SECS: u64 = 60;

/// How long a run lasts, in seconds.
pub const RUN_DURATION_SECS: u64 = 300;

/// Where a worker stands. It starts `Running` and is `Stopped` from the first
/// time it sees the clock at or past the end of the run window.
#[derive(Clone, Copy, Debug, PartialEq, Eq, Structural)]
pub enum WorkerState {
    Running,
    Stopped,
}

impl WorkerState {
    /// The state after a look at the clock: a running worker goes on while
    /// the window is open; a stopped one stays stopped whatever the clock
    /// says.
    pub open spec fn after(self, window_open: bool) -> WorkerState {
        if self is Running && window_open {
            WorkerState::Running
        } else {
            WorkerState::Stopped
        }
    }

    /// The state after the clock was read as `at`.
    pub fn observe(self, at: &WallTime, window: &RunWindow) -> (next: WorkerState)
        requires
            at.wf(),
        ensures
            next == self.after(window.admits(*at)),
    {
        match self {
            WorkerState::Running => {
                if window.is_open(at) {
                    WorkerState::Running
                } else {
                    WorkerState::Stopped
                }
            },
            WorkerState::Stopped => WorkerState::Stopped,
        }
    }
}

/// One turn of the update worker: a look at the clock and, if the worker is
/// still running after it, one pass over the store. A pass, once begun, is
/// completed whatever the clock does meanwhile. A stopped worker neither
/// reads the clock nor touches the store. The state that comes back is the
/// one that `WorkerState::observe` gives for the reading that was taken.
pub fn update_worker_turn(store: &MonitorStore, window: &RunWindow, state: WorkerState) -> (next:
    WorkerState)
    ensures
        state is Stopped ==> next is Stopped,
        state is Running && window.outlasts_clock() ==> next is Running,
        exists|at: WallTime| at.readable() && next == state.after(#[trigger] window.admits(at)),
{
    match state {
        WorkerState::Stopped => {
            assert(WallTime { secs: 0, nanos: 0 }.readable() && WorkerState::Stopped == state.after(
                window.admits(WallTime { secs: 0, nanos: 0 }),
            ));
            WorkerState::Stopped
        },
        WorkerState::Running => {
            let at = now();
            let next = state.observe(&at, window);
            proof {
                use_type_invariant(window);
                if window.outlasts_clock() {
                    window.lemma_open_to_every_reading(at);
                }
                assert(at.readable() && next == state.after(window.admits(at)));
            }
            match next {
                WorkerState::Running => {
                    store.mutate_all(refresh);
                },
                WorkerState::Stopped => {},
            }
            next
        },
    }
}

/// Runs the update worker from `Running` for at most `budget` turns, one
/// straight after the other, and reports the state it reached and the number
/// of passes it made. It comes back `Stopped` once a turn has read the clock
/// at or past the end of the window, and `Running` when the budget ran out
/// first: every turn before a stop makes one pass, the stopping turn makes
/// none. In a window that outlasts the clock no turn can stop.
pub fn run_update_worker(store: &MonitorStore, window: &RunWindow, budget: u64) -> (r: (
    WorkerState,
    u64,
))
    ensures
        r.1 <= budget,
        r.0 is Running <==> r.1 == budget,
        window.outlasts_clock() ==> r.1 == budget,
        r.0 is Stopped ==> exists|at: WallTime| at.readable() && !(#[trigger] window.admits(at)),
{
    let mut state = WorkerState::Running;
    let mut passes: u64 = 0;
    while passes < budget
        invariant_except_break
            passes <= budget,
            state is Running,
        ensures
            passes <= budget,
            state is Running <==> passes == budget,
            window.outlasts_clock() ==> passes == budget,
            state is Stopped ==> exists|at: WallTime| at.readable() && !(#[trigger] window.admits(at)),
        decreases budget - passes,
    {
        state = update_worker_turn(store, window, state);
        match state {
            WorkerState::Running => {
                passes = passes + 1;
            },
            WorkerState::Stopped => {
                break ;
            },
        }
    }
    (state, passes)
}

/// What the snapshot worker hands out after a pass: the store as it was
/// copied, the name of the file to write it to, and how long to pause once
/// it is written.
#[derive(Debug)]
pub struct SnapshotJob {
    pub file_name: String,
    pub contents: MonitorData,
    pub pause_secs: u64,
}

/// The job for a snapshot that is about to be written at the clock reading
/// `written_at`: the file is named after that second and nothing else, and
/// the pause is the snapshot interval.
pub fn plan_snapshot(written_at: &WallTime, contents: MonitorData) -> (job: SnapshotJob)
    ensures
        job.file_name@ == snapshot_name(written_at.secs as int),
        job.contents == contents,
        job.pause_secs == SNAPSHOT_INTERVAL_SECS,
{
    SnapshotJob {
        file_name: snapshot_file_name(written_at.secs),
        contents,
        pause_secs: SNAPSHOT_INTERVAL_SECS,
    }
}

/// One turn of the snapshot worker: a look at the clock and, if the worker is
/// still running after it, a pass over the store with a copy of what the pass
/// left, and a second look at the clock to name the file. Pass and copy are
/// made in one hold of the store's lock; writing the copy out and pausing are
/// left to the caller, who holds no lock while doing so. A stopped worker
/// does nothing. The state that comes back is the one that
/// `WorkerState::observe` gives for the first reading, and a job is handed
/// out exactly when the worker goes on.
pub fn snapshot_worker_turn(store: &MonitorStore, window: &RunWindow, state: WorkerState) -> (r: (
    WorkerState,
    Option<SnapshotJob>,
))
    ensures
        state is Stopped ==> r.0 is Stopped,
        state is Running && window.outlasts_clock() ==> r.0 is Running,
        exists|at: WallTime| at.readable() && r.0 == state.after(#[trigger] window.admits(at)),
        r.0 is Running <==> r.1 is Some,
        r.1 is Some ==> {
            &&& observable(store.loaded(), r.1->0.contents@)
            &&& fully_measured(r.1->0.contents@)
            &&& r.1->0.pause_secs == SNAPSHOT_INTERVAL_SECS
            &&& exists|written_at: WallTime| #[trigger]
                written_at.readable() && r.1->0.file_name@ == snapshot_name(
                    written_at.secs as int,
                )
        },
{
    match state {
        WorkerState::Stopped => {
            assert(WallTime { secs: 0, nanos: 0 }.readable() && WorkerState::Stopped == state.after(
                window.admits(WallTime { secs: 0, nanos: 0 }),
            ));
            (WorkerState::Stopped, None)
        },
        WorkerState::Running => {
            let at = now();
            let next = state.observe(&at, window);
            proof {
                use_type_invariant(window);
                if window.outlasts_clock() {
                    window.lemma_open_to_every_reading(at);
                }
                assert(at.readable() && next == state.after(window.admits(at)));
            }
            match next {
                WorkerState::Stopped => (WorkerState::Stopped, None),
                WorkerState::Running => {
                    let contents = store.mutate_and_snapshot(refresh);
                    let written_at = now();
                    let job = plan_snapshot(&written_at, contents);
                    assert(written_at.readable());
                    (WorkerState::Running, Some(job))
                },
            }
        },
    }
}

/// How many turns a worker in `state` runs before it stops, when its looks at
/// the clock read `readings` one after the other. A worker that is still
/// running when the readings are used up ran `readings.len()` turns.
pub open spec fn turns_run(state: WorkerState, window: RunWindow, readings: Seq<WallTime>) -> nat
    decreases readings.len(),
{
    if readings.len() == 0 {
        0
    } else {
        let next = state.after(window.admits(readings[0]));
        if next is Running {
            1 + turns_run(next, window, readings.drop_first())
        } else {
            0
        }
    }
}

/// A running worker whose first `n` readings all fall in the window runs at
/// least `n` turns.
proof fn lemma_turns_at_least(window: RunWindow, readings: Seq<WallTime>, n: nat)
    requires
        n <= readings.len(),
        forall|k: int| 0 <= k < n ==> window.admits(#[trigger] readings[k]),
    ensures
        turns_run(WorkerState::Running, window, readings) >= n,
    decreases n,
{
    if n > 0 {
        let rest = readings.drop_first();
        assert(window.admits(readings[0]));
        assert forall|k: int| 0 <= k < n - 1 implies window.admits(#[trigger] rest[k]) by {
            assert(rest[k] == readings[k + 1]);
        }
        lemma_turns_at_least(window, rest, (n - 1) as nat);
    }
}

/// A running worker whose reading number `n` falls outside the window runs at
/// most `n` turns.
proof fn lemma_turns_at_most(window: RunWindow, readings: Seq<WallTime>, n: nat)
    requires
        n < readings.len(),
        !window.admits(readings[n as int]),
    ensures
        turns_run(WorkerState::Running, window, readings) <= n,
    decreases n,
{
    if n > 0 && window.admits(readings[0]) {
        let rest = readings.drop_first();
        assert(rest[n - 1] == readings[n as int]);
        lemma_turns_at_most(window, rest, (n - 1) as nat);
    }
}

/// The number of snapshots in a run. Let a worker pause `interval_secs`
/// between turns, and let each of its looks at the clock come no earlier than
/// it is due and less than one interval late: reading `k` falls between
/// `k` intervals after the start of the window and `slack_nanos` later, with
/// `slack_nanos` below one interval. Then the worker runs as many turns as
/// whole intervals fit the run's duration, or one more.
pub proof fn lemma_snapshot_count(
    window: RunWindow,
    interval_secs: nat,
    slack_nanos: nat,
    readings: Seq<WallTime>,
)
    requires
        window.wf(),
        interval_secs > 0,
        slack_nanos < interval_secs * NANOS_PER_SEC,
        readings.len() >= window.duration_secs() as nat / interval_secs + 2,
        forall|k: int|
            0 <= k < readings.len() ==> {
                let due = window.start().total_nanos() + k * interval_secs * NANOS_PER_SEC;
                due <= (#[trigger] readings[k]).total_nanos() <= due + slack_nanos
            },
    ensures
        window.duration_secs() as nat / interval_secs <= turns_run(
            WorkerState::Running,
            window,
            readings,
        ) <= window.duration_secs() as nat / interval_secs + 1,
{
    let d = window.duration_secs() as int;
    let i = interval_secs as int;
    let q = d / i;
    let start = window.start().total_nanos();
    let unit = NANOS_PER_SEC as int;
    window.lemma_span();
    lemma_fundamental_div_mod(d, i);
    lemma_mod_bound(d, i);
    assert(q * i <= d < (q + 1) * i) by (nonlinear_arith)
        requires
            d == i * q + d % i,
            0 <= d % i < i,
    ;
    assert(0 <= q) by (nonlinear_arith)
        requires
            0 <= d,
            0 < i,
            d < (q + 1) * i,
    ;
    assert forall|k: int| 0 <= k < q implies window.admits(#[trigger] readings[k]) by {
        let due = start + k * i * unit;
        assert(readings[k].total_nanos() <= due + slack_nanos);
        assert(k * i * unit + i * unit <= d * unit) by (nonlinear_arith)
            requires
                0 <= k,
                k + 1 <= q,
                q * i <= d,
                0 < i,
                unit > 0,
        ;
    }
    lemma_turns_at_least(window, readings, q as nat);
    assert(!window.admits(readings[q + 1])) by {
        assert(readings[q + 1].total_nanos() >= start + (q + 1) * i * unit);
        assert((q + 1) * i * unit > d * unit) by (nonlinear_arith)
            requires
                d < (q + 1) * i,
                unit > 0,
        ;
    }
    lemma_turns_at_most(window, readings, (q + 1) as nat);
}

} // verus!
