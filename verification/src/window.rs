//! The run window: when a run started, how long it lasts, and when it ends.

use vstd::prelude::*;
use crate::clock::NANOS_PER_SEC;
use crate::clock::WallTime;
use crate::clock::now;

verus! {

/// A run's window on the wall clock. The end is derived once, when the window
/// is made, and nothing changes a window afterwards.
#[derive(Clone, Copy, Debug)]
pub struct RunWindow {
    start: WallTime,
    duration_secs: u64,
    end: WallTime,
}

impl RunWindow {
    /// When the run started.
    pub closed spec fn spec_start(&self) -> WallTime {
        self.start
    }

    /// How many seconds the run lasts.
    pub closed spec fn spec_duration_secs(&self) -> u64 {
        self.duration_secs
    }

    /// When the run ends.
    pub closed spec fn spec_end(&self) -> WallTime {
        self.end
    }

    /// The end is the start moved later by the duration, and both are proper
    /// instants.
    #[verifier::type_invariant]
    pub closed spec fn wf(&self) -> bool {
        &&& self.start.wf()
        &&& self.start.secs + self.duration_secs <= i64::MAX
        &&& self.end == self.start.later_by(self.duration_secs as int)
    }

    /// Whether the window is still open at `at`: strictly before its end.
    pub open spec fn admits(&self, at: WallTime) -> bool {
        at.total_nanos() < self.end().total_nanos()
    }

    /// The window ends on a day that no reading of the clock can reach.
    pub open spec fn outlasts_clock(&self) -> bool {
        self.end().secs / 86_400 + 719_163 > i32::MAX
    }

    /// A window that outlasts the clock is open at every reading the clock
    /// can give.
    pub proof fn lemma_open_to_every_reading(&self, at: WallTime)
        requires
            self.wf(),
            self.outlasts_clock(),
            at.readable(),
        ensures
            self.admits(at),
    {
        assert(at.secs < self.end.secs);
    }

    /// In a well-formed window the end lies the duration after the start.
    pub proof fn lemma_span(&self)
        requires
            self.wf(),
        ensures
            self.start().wf(),
            self.end().wf(),
            self.end() == self.start().later_by(self.duration_secs() as int),
            self.end().total_nanos() == self.start().total_nanos() + self.duration_secs()
                * NANOS_PER_SEC,
    {
    }

    /// The window that starts at `start` and lasts `duration_secs` seconds,
    /// unless its end would lie beyond the last representable second.
    pub fn new(start: WallTime, duration_secs: u64) -> (w: Option<RunWindow>)
        requires
            start.wf(),
        ensures
            w is Some <==> start.secs + duration_secs <= i64::MAX,
            w is Some ==> {
                &&& w->0.wf()
                &&& w->0.start() == start
                &&& w->0.duration_secs() == duration_secs
                &&& w->0.end() == start.later_by(duration_secs as int)
            },
    {
        match start.plus_seconds(duration_secs) {
            Some(end) => Some(RunWindow { start, duration_secs, end }),
            None => None,
        }
    }

    /// The window that starts at the present reading of the clock and lasts
    /// `duration_secs` seconds: `new` applied to the reading. Whatever the
    /// clock reads, a duration that fits 32 bits can be had.
    pub fn opening_now(duration_secs: u64) -> (w: Option<RunWindow>)
        ensures
            duration_secs <= u32::MAX ==> w is Some,
            w is Some ==> {
                &&& w->0.wf()
                &&& w->0.duration_secs() == duration_secs
                &&& w->0.start().readable()
                &&& w->0.end() == w->0.start().later_by(duration_secs as int)
            },
    {
        let start = now();
        Self::new(start, duration_secs)
    }

    /// When the run started.
    #[verifier::when_used_as_spec(spec_start)]
    pub fn start(&self) -> (t: WallTime)
        ensures
            t == self.start(),
    {
        self.start
    }

    /// How many seconds the run lasts.
    #[verifier::when_used_as_spec(spec_duration_secs)]
    pub fn duration_secs(&self) -> (d: u64)
        ensures
            d == self.duration_secs(),
    {
        self.duration_secs
    }

    /// When the run ends.
    #[verifier::when_used_as_spec(spec_end)]
    pub fn end(&self) -> (t: WallTime)
        ensures
            t == self.end(),
    {
        self.end
    }

    /// Whether the window is still open at the clock reading `at`.
    pub fn is_open(&self, at: &WallTime) -> (b: bool)
        requires
            at.wf(),
        ensures
            b == self.admits(*at),
    {
        proof {
            use_type_invariant(self);
        }
        at.is_before(&self.end)
    }
}

} // verus!
