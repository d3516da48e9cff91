//! The shared store: one collection behind one exclusive lock.

use vstd::prelude::*;
use vstd::rwlock::RwLock;
use vstd::rwlock::RwLockPredicate;
use crate::monitor::Monitor;
use crate::monitor::MonitorData;
use crate::monitor::MonitorView;
use crate::monitor::fully_measured;
use crate::monitor::measures;
use crate::monitor::roster;

verus! {

/// What the lock keeps true of a store that was loaded with `loaded`, and so
/// what holds of anything read from it: the roster is the one that was
/// loaded, and the records are either exactly as loaded or every one of them
/// carries a measurement. A collection in which a first pass has reached only
/// some of the records is neither. Which pass a measurement came from is not
/// told.
pub open spec fn observable(loaded: Seq<MonitorView>, seen: Seq<MonitorView>) -> bool {
    &&& roster(seen) == roster(loaded)
    &&& seen == loaded || fully_measured(seen)
}

/// The invariant that the lock keeps of the collection it guards.
pub struct SinceLoad {
    pub loaded: Seq<MonitorView>,
}

impl RwLockPredicate<MonitorData> for SinceLoad {
    open spec fn inv(self, v: MonitorData) -> bool {
        observable(self.loaded, v@)
    }
}

/// The collection of monitors behind a single exclusive lock. Every access,
/// to mutate or to copy, takes the lock for itself; whoever asks while it is
/// held spins until it is free, in no particular order.
pub struct MonitorStore {
    lock: RwLock<MonitorData, SinceLoad>,
}

impl MonitorStore {
    /// The records the store was loaded with.
    pub closed spec fn loaded(&self) -> Seq<MonitorView> {
        self.lock.pred().loaded
    }

    /// Puts a freshly loaded collection behind a new lock.
    pub fn new(data: MonitorData) -> (s: MonitorStore)
        ensures
            s.loaded() == data@,
    {
        MonitorStore { lock: RwLock::new(data, Ghost(SinceLoad { loaded: data@ })) }
    }

    /// Takes the lock, runs `f` over every record in order, and releases the
    /// lock. Nobody else sees the collection in between. What the pass found
    /// and what it left cannot be told in a contract, since another holder of
    /// the store may have changed it before and may change it after; what a
    /// later `snapshot` can count on is `observable`. A mutation that panics
    /// instead of returning leaves the lock taken.
    pub fn mutate_all<F: Fn(Monitor) -> Monitor>(&self, f: F)
        requires
            measures(f),
    {
        let (mut data, handle) = self.lock.acquire_write();
        let ghost before = data@;
        data.mutate_all(f);
        assert(roster(data@) =~= roster(before));
        handle.release_write(data);
    }

    /// Takes the lock once, runs `f` over every record in order, copies the
    /// collection as that pass left it, and releases the lock. No other
    /// holder of the store comes between the pass and the copy, so every
    /// record of the copy carries a measurement.
    pub fn mutate_and_snapshot<F: Fn(Monitor) -> Monitor>(&self, f: F) -> (snap: MonitorData)
        requires
            measures(f),
        ensures
            observable(self.loaded(), snap@),
            fully_measured(snap@),
    {
        let (mut data, handle) = self.lock.acquire_write();
        let ghost before = data@;
        data.mutate_all(f);
        assert(roster(data@) =~= roster(before));
        let snap = data.clone();
        handle.release_write(data);
        snap
    }

    /// Takes the lock, copies the collection as it stands, and releases the
    /// lock.
    pub fn snapshot(&self) -> (snap: MonitorData)
        ensures
            observable(self.loaded(), snap@),
    {
        let (data, handle) = self.lock.acquire_write();
        let snap = data.clone();
        handle.release_write(data);
        snap
    }
}

} // verus!
