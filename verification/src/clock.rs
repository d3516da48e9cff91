//! Wall-clock instants as plain values, and the one call that reads the clock.

use vstd::prelude::*;

verus! {

/// Nanoseconds in one second.
pub const NANOS_PER_SEC: u32 = 1_000_000_000;

/// A point on the UTC wall clock: whole seconds since the Unix epoch and the
/// nanoseconds elapsed within that second.
#[derive(Clone, Copy, Debug, PartialEq, Eq, Structural)]
pub struct WallTime {
    pub secs: i64,
    pub nanos: u32,
}

impl WallTime {
    /// The sub-second part is a proper fraction of a second.
    pub open spec fn wf(self) -> bool {
        self.nanos < NANOS_PER_SEC
    }

    /// A reading that the system clock can give: a proper instant whose day
    /// number, counted from 719,163 days before the epoch, fits an `i32`.
    pub open spec fn readable(self) -> bool {
        self.wf() && self.secs / 86_400 + 719_163 <= i32::MAX
    }

    /// The instant as a count of nanoseconds since the epoch.
    pub open spec fn total_nanos(self) -> int {
        self.secs * NANOS_PER_SEC + self.nanos
    }

    /// The instant `secs` whole seconds later.
    pub open spec fn later_by(self, secs: int) -> WallTime {
        WallTime { secs: (self.secs + secs) as i64, nanos: self.nanos }
    }

    /// The instant `nanos` nanoseconds into second `secs`, if `nanos` is less
    /// than a second.
    pub fn new(secs: i64, nanos: u32) -> (r: Option<WallTime>)
        ensures
            r is Some <==> nanos < NANOS_PER_SEC,
            r is Some ==> r->0 == (WallTime { secs, nanos }),
    {
        if nanos < NANOS_PER_SEC {
            Some(WallTime { secs, nanos })
        } else {
            None
        }
    }

    /// Whether `self` lies strictly before `other` on the time line.
    pub fn is_before(&self, other: &WallTime) -> (b: bool)
        requires
            self.wf(),
            other.wf(),
        ensures
            b == (self.total_nanos() < other.total_nanos()),
    {
        self.secs < other.secs || (self.secs == other.secs && self.nanos < other.nanos)
    }

    /// The instant `secs` whole seconds after `self`, unless its second count
    /// would no longer fit the representation.
    pub fn plus_seconds(&self, secs: u64) -> (r: Option<WallTime>)
        ensures
            r is Some <==> self.secs + secs <= i64::MAX,
            r is Some ==> r->0 == self.later_by(secs as int),
    {
        match self.secs.checked_add_unsigned(secs) {
            Some(total) => Some(WallTime { secs: total, nanos: self.nanos }),
            None => None,
        }
    }
}

/// Reads the system clock with `chrono::Utc::now` and keeps the reading's Unix
/// timestamp and its nanoseconds within the second. Nothing is promised about
/// how two readings relate: a wall clock may be set back between them. Two
/// claims hold of every reading. `Utc::now` takes the time since the epoch as
/// a `std::time::Duration`, whose sub-second part is below one second. And it
/// hands the seconds to `DateTime::from_timestamp`, which yields an instant
/// only where the day number, counted from 719,163 days before the epoch,
/// fits an `i32`.
#[verifier::external_body]
pub(crate) fn now() -> (t: WallTime)
    ensures
        t.wf(),
        t.secs / 86_400 + 719_163 <= i32::MAX,
{
    let reading = chrono::Utc::now();
    WallTime { secs: reading.timestamp(), nanos: reading.timestamp_subsec_nanos() }
}

} // verus!
