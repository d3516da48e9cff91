//! The measurement generator: a random value stamped with the wall clock.

use vstd::prelude::*;
use crate::clock::WallTime;
use crate::clock::now;
use crate::monitor::Measurement;
use crate::monitor::Monitor;
use crate::monitor::MonitorData;
use crate::monitor::fully_measured;
use crate::monitor::is_pass;
use crate::monitor::lemma_pass_keeps_roster;
use crate::monitor::lemma_pass_record_by_record;
use crate::monitor::roster;

verus! {

/// Draws a value with `rand::random::<i32>()`: uniform over the whole `i32`
/// range from the thread's generator. Any value can come back, so nothing is
/// claimed of it.
#[verifier::external_body]
pub(crate) fn random_value() -> (value: i32) {
    rand::random::<i32>()
}

/// Generates a fresh measurement and attaches it to the record: a random
/// value, stamped with the second at which the clock was read just after.
/// The record is otherwise returned as it came.
pub fn refresh(m: Monitor) -> (r: Monitor)
    ensures
        r@.identity == m@.identity,
        r@.result is Some,
        exists|at: WallTime| #[trigger] at.readable() && r@.result->0.processed_at == at.secs,
{
    let value = random_value();
    let at = now();
    assert(at.readable());
    m.attach(Measurement::taken_at(value, &at))
}

/// One full processing pass: every record, first to last, gets a freshly
/// generated measurement.
pub fn refresh_all(data: &mut MonitorData)
    ensures
        is_pass(old(data)@, final(data)@),
        roster(final(data)@) == roster(old(data)@),
        fully_measured(final(data)@),
{
    let ghost before = data@;
    data.mutate_all(refresh);
    proof {
        lemma_pass_record_by_record(before, data@);
        lemma_pass_keeps_roster(before, data@);
    }
}

} // verus!
