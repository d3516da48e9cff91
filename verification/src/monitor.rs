//! Monitor records, the collection that holds them, and the pass that
//! replaces every record's measurement.

use vstd::prelude::*;
use crate::clock::WallTime;

verus! {

/// The last measurement taken for a monitor: a value and the Unix second at
/// which it was captured. The two always travel together.
#[derive(Clone, Copy, Debug, PartialEq, Eq, Structural)]
pub struct Measurement {
    pub value: i32,
    pub processed_at: i64,
}

impl Measurement {
    /// The measurement of `value` captured at the clock reading `at`, kept to
    /// the whole second.
    pub fn taken_at(value: i32, at: &WallTime) -> (m: Measurement)
        ensures
            m == (Measurement { value, processed_at: at.secs }),
    {
        Measurement { value, processed_at: at.secs }
    }
}

/// One monitor record.
#[derive(Debug)]
pub struct Monitor {
    pub monitor_id: Option<i32>,
    pub name: String,
    pub script: Option<String>,
    pub monitor_type: Option<String>,
    pub result: Option<Measurement>,
    pub code: String,
}

/// What stays fixed about a record for its whole life: every field but the
/// measurement.
pub struct Identity {
    pub monitor_id: Option<i32>,
    pub name: Seq<char>,
    pub script: Option<Seq<char>>,
    pub monitor_type: Option<Seq<char>>,
    pub code: Seq<char>,
}

/// The mathematical content of a record: its identity and its measurement.
pub struct MonitorView {
    pub identity: Identity,
    pub result: Option<Measurement>,
}

/// The characters of an optional string.
pub open spec fn text_of(s: Option<String>) -> Option<Seq<char>> {
    match s {
        Some(t) => Some(t@),
        None => None,
    }
}

impl View for Monitor {
    type V = MonitorView;

    open spec fn view(&self) -> MonitorView {
        MonitorView {
            identity: Identity {
                monitor_id: self.monitor_id,
                name: self.name@,
                script: text_of(self.script),
                monitor_type: text_of(self.monitor_type),
                code: self.code@,
            },
            result: self.result,
        }
    }
}

impl MonitorView {
    /// The same record carrying `m` as its measurement.
    pub open spec fn measured(self, m: Measurement) -> MonitorView {
        MonitorView { identity: self.identity, result: Some(m) }
    }
}

impl Monitor {
    /// Replaces the record's measurement by `m`, value and timestamp together,
    /// and leaves everything else as it was.
    pub fn attach(self, m: Measurement) -> (r: Monitor)
        ensures
            r@ == self@.measured(m),
    {
        Monitor {
            monitor_id: self.monitor_id,
            name: self.name,
            script: self.script,
            monitor_type: self.monitor_type,
            result: Some(m),
            code: self.code,
        }
    }
}

impl Clone for Monitor {
    /// A copy with the same content.
    fn clone(&self) -> (r: Monitor)
        ensures
            r@ == self@,
    {
        let script = match &self.script {
            Some(s) => Some(s.clone()),
            None => None,
        };
        let monitor_type = match &self.monitor_type {
            Some(s) => Some(s.clone()),
            None => None,
        };
        Monitor {
            monitor_id: self.monitor_id,
            name: self.name.clone(),
            script,
            monitor_type,
            result: self.result,
            code: self.code.clone(),
        }
    }
}

/// The whole collection, in load order.
#[derive(Debug)]
pub struct MonitorData {
    pub monitors: Vec<Monitor>,
}

impl View for MonitorData {
    type V = Seq<MonitorView>;

    open spec fn view(&self) -> Seq<MonitorView> {
        self.monitors@.map_values(|m: Monitor| m@)
    }
}

/// The identities of a sequence of records, in order.
pub open spec fn roster(records: Seq<MonitorView>) -> Seq<Identity> {
    records.map_values(|m: MonitorView| m.identity)
}

/// Every record carries a measurement.
pub open spec fn fully_measured(records: Seq<MonitorView>) -> bool {
    forall|i: int| 0 <= i < records.len() ==> (#[trigger] records[i]).result is Some
}

/// The outcome of one pass over `records` in which record `i` receives
/// `samples[i]`.
pub open spec fn measured_all(
    records: Seq<MonitorView>,
    samples: Seq<Measurement>,
) -> Seq<MonitorView> {
    Seq::new(records.len(), |i: int| records[i].measured(samples[i]))
}

/// `after` is what some pass makes of `before`: the same records in the same
/// order, each with a measurement in place.
pub open spec fn is_pass(before: Seq<MonitorView>, after: Seq<MonitorView>) -> bool {
    exists|samples: Seq<Measurement>|
        samples.len() == before.len() && after == #[trigger] measured_all(before, samples)
}

/// The shape of a collection: which records it holds, in which order, and
/// which of them carry a measurement. Measured values are no part of it.
pub open spec fn shape(records: Seq<MonitorView>) -> Seq<(Identity, bool)> {
    records.map_values(|m: MonitorView| (m.identity, m.result is Some))
}

/// A mutation that can be applied to any record.
pub open spec fn total<F: Fn(Monitor) -> Monitor>(f: F) -> bool {
    forall|m: Monitor| call_requires(f, (m,))
}

/// A mutation that may be run over the store: it accepts any record, and
/// what it returns is the same record with a measurement in place.
pub open spec fn measures<F: Fn(Monitor) -> Monitor>(f: F) -> bool {
    &&& total(f)
    &&& forall|m: Monitor, r: Monitor| #[trigger]
        call_ensures(f, (m,), r) ==> r@.identity == m@.identity && r@.result is Some
}

impl Clone for MonitorData {
    /// A copy with the same records in the same order.
    fn clone(&self) -> (r: MonitorData)
        ensures
            r@ == self@,
    {
        let mut monitors: Vec<Monitor> = Vec::new();
        let mut i: usize = 0;
        while i < self.monitors.len()
            invariant
                i <= self.monitors.len(),
                monitors.len() == i,
                forall|j: int| 0 <= j < i ==> (#[trigger] monitors[j])@ == self.monitors[j]@,
            decreases self.monitors.len() - i,
        {
            monitors.push(self.monitors[i].clone());
            i = i + 1;
        }
        MonitorData { monitors }
    }
}

impl MonitorData {
    /// Runs `f` over every record, first to last, and puts what it returns in
    /// the record's place.
    pub fn mutate_all<F: Fn(Monitor) -> Monitor>(&mut self, f: F)
        requires
            forall|i: int|
                0 <= i < old(self).monitors.len() ==> call_requires(
                    f,
                    (#[trigger] old(self).monitors[i],),
                ),
        ensures
            final(self).monitors.len() == old(self).monitors.len(),
            forall|i: int|
                0 <= i < old(self).monitors.len() ==> call_ensures(
                    f,
                    (old(self).monitors[i],),
                    #[trigger] final(self).monitors[i],
                ),
    {
        let mut before: Vec<Monitor> = Vec::new();
        std::mem::swap(&mut self.monitors, &mut before);
        let ghost loaded = before@;
        for m in it: before
            invariant
                forall|i: int| 0 <= i < loaded.len() ==> call_requires(f, (#[trigger] loaded[i],)),
                it.seq() == loaded,
                self.monitors.len() == it.index(),
                forall|i: int|
                    0 <= i < it.index() ==> call_ensures(
                        f,
                        (loaded[i],),
                        #[trigger] self.monitors[i],
                    ),
        {
            let r = f(m);
            self.monitors.push(r);
        }
    }
}

/// A pass is described just as well record by record: the length and every
/// identity are kept, and every record ends with a measurement.
pub proof fn lemma_pass_record_by_record(before: Seq<MonitorView>, after: Seq<MonitorView>)
    ensures
        is_pass(before, after) <==> {
            &&& after.len() == before.len()
            &&& forall|i: int|
                0 <= i < before.len() ==> (#[trigger] after[i]).identity == before[i].identity
                    && after[i].result is Some
        },
{
    if is_pass(before, after) {
        let samples = choose|samples: Seq<Measurement>|
            samples.len() == before.len() && after == #[trigger] measured_all(before, samples);
        assert forall|i: int| 0 <= i < before.len() implies (#[trigger] after[i]).identity
            == before[i].identity && after[i].result is Some by {
            assert(after[i] == before[i].measured(samples[i]));
        }
    }
    if after.len() == before.len() && (forall|i: int|
        0 <= i < before.len() ==> (#[trigger] after[i]).identity == before[i].identity
            && after[i].result is Some) {
        let samples = Seq::new(after.len(), |i: int| after[i].result->0);
        assert(after =~= measured_all(before, samples));
    }
}

/// A pass keeps the roster: as many records as before, with the same
/// identities (names and codes among them) in the same order.
pub proof fn lemma_pass_keeps_roster(before: Seq<MonitorView>, after: Seq<MonitorView>)
    requires
        is_pass(before, after),
    ensures
        after.len() == before.len(),
        roster(after) == roster(before),
        forall|i: int|
            0 <= i < before.len() ==> (#[trigger] after[i]).identity.name == before[i].identity.name
                && after[i].identity.code == before[i].identity.code,
{
    lemma_pass_record_by_record(before, after);
    assert(roster(after) =~= roster(before));
}

/// After a pass every record carries exactly the sample drawn for it: its
/// value and its timestamp come from that one sample, never from two.
pub proof fn lemma_pass_installs_whole_samples(
    records: Seq<MonitorView>,
    samples: Seq<Measurement>,
)
    requires
        samples.len() == records.len(),
    ensures
        fully_measured(measured_all(records, samples)),
        forall|i: int|
            0 <= i < records.len() ==> (#[trigger] measured_all(records, samples)[i]).result
                == Some(samples[i]),
{
}

/// If every sample of a pass was captured between `opened` and `closed`,
/// every record's timestamp after the pass lies between them too.
pub proof fn lemma_pass_timestamps_within(
    records: Seq<MonitorView>,
    samples: Seq<Measurement>,
    opened: int,
    closed: int,
)
    requires
        samples.len() == records.len(),
        forall|i: int|
            0 <= i < samples.len() ==> opened <= (#[trigger] samples[i]).processed_at <= closed,
    ensures
        forall|i: int|
            0 <= i < records.len() ==> {
                let r = (#[trigger] measured_all(records, samples)[i]).result;
                r is Some && opened <= r->0.processed_at <= closed
            },
{
    assert forall|i: int| 0 <= i < records.len() implies {
        let r = (#[trigger] measured_all(records, samples)[i]).result;
        r is Some && opened <= r->0.processed_at <= closed
    } by {
        assert(measured_all(records, samples)[i].result == Some(samples[i]));
    }
}

/// Two passes over the same records give collections of the same shape,
/// whatever was measured in either.
pub proof fn lemma_passes_agree_in_shape(
    records: Seq<MonitorView>,
    first: Seq<MonitorView>,
    second: Seq<MonitorView>,
)
    requires
        is_pass(records, first),
        is_pass(records, second),
    ensures
        shape(first) == shape(second),
{
    lemma_pass_record_by_record(records, first);
    lemma_pass_record_by_record(records, second);
    assert(shape(first) =~= shape(second));
}

} // verus!
