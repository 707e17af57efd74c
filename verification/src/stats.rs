//! Throughput counters for the receive loop.
//!
//! The counters are loop-local state: one execution context owns them,
//! increments them on every received packet, and periodically turns them
//! into a report. Reading the clock and writing the log line belong to the
//! embedding application; `maybe_log` takes the current time as a plain
//! millisecond value and hands back the report to emit, if one is due.

use vstd::prelude::*;

verus! {

/// Milliseconds between two periodic throughput reports.
pub const STATS_LOG_INTERVAL_MILLIS: u64 = 10_000;

/// Windowed packet counters: packets seen since the start, and the marks of
/// the last emitted report.
#[derive(Clone, Copy, Debug, PartialEq, Eq, Structural)]
pub struct ReceiveStats {
    /// Packets received since the counter started.
    pub count: u64,
    /// Value of `count` when the last report was emitted.
    pub last_count: u64,
    /// Time of the last report, in milliseconds.
    pub last_log: u64,
}

/// A throughput report: cumulative packet count, and packets since the
/// previous report.
#[derive(Clone, Copy, Debug, PartialEq, Eq, Structural)]
pub struct StatsReport {
    pub total: u64,
    pub recent: u64,
}

/// Whether a report is due at time `now`.
pub open spec fn spec_report_due(s: ReceiveStats, now: u64) -> bool {
    now >= s.last_log + STATS_LOG_INTERVAL_MILLIS
}

/// The counters after `maybe_log` at time `now`: when a report is due the
/// window marks move up to `now` and the current count; otherwise nothing
/// changes. The cumulative count is never touched.
pub open spec fn spec_after_maybe_log(s: ReceiveStats, now: u64) -> ReceiveStats {
    if spec_report_due(s, now) {
        ReceiveStats { count: s.count, last_count: s.count, last_log: now }
    } else {
        s
    }
}

/// The report `maybe_log` emits at time `now`, if any.
pub open spec fn spec_report(s: ReceiveStats, now: u64) -> Option<StatsReport>
    recommends
        s.wf(),
{
    if spec_report_due(s, now) {
        Some(StatsReport { total: s.count, recent: (s.count - s.last_count) as u64 })
    } else {
        None
    }
}

impl ReceiveStats {
    /// The window mark never runs ahead of the cumulative count.
    pub open spec fn wf(self) -> bool {
        self.last_count <= self.count
    }

    /// Fresh counters starting their report window at `now_millis`.
    pub fn new(now_millis: u64) -> (s: Self)
        ensures
            s.count == 0,
            s.last_count == 0,
            s.last_log == now_millis,
            s.wf(),
    {
        ReceiveStats { count: 0, last_count: 0, last_log: now_millis }
    }

    /// Counts one received packet.
    pub fn increment(&mut self)
        requires
            old(self).count < u64::MAX,
        ensures
            final(self).count == old(self).count + 1,
            final(self).last_count == old(self).last_count,
            final(self).last_log == old(self).last_log,
            old(self).wf() ==> final(self).wf(),
    {
        self.count = self.count + 1;
    }

    /// Emits the periodic throughput report when one is due, rolling the
    /// window forward; otherwise leaves everything untouched.
    pub fn maybe_log(&mut self, now_millis: u64) -> (r: Option<StatsReport>)
        requires
            old(self).wf(),
        ensures
            final(self).wf(),
            *final(self) == spec_after_maybe_log(*old(self), now_millis),
            r == spec_report(*old(self), now_millis),
    {
        if now_millis >= self.last_log && now_millis - self.last_log >= STATS_LOG_INTERVAL_MILLIS {
            let report = StatsReport { total: self.count, recent: self.count - self.last_count };
            self.last_count = self.count;
            self.last_log = now_millis;
            Some(report)
        } else {
            None
        }
    }
}

/// The counters after one full receive iteration at time `now`: count the
/// packet, then emit the periodic report if due. Whether the packet decodes
/// or is rejected as non-shred traffic plays no part.
pub open spec fn spec_after_receive(s: ReceiveStats, now: u64) -> ReceiveStats
    recommends
        s.count < u64::MAX,
{
    spec_after_maybe_log(
        ReceiveStats { count: (s.count + 1) as u64, last_count: s.last_count, last_log: s.last_log },
        now,
    )
}

/// The counters after a whole run of receive iterations, one per entry of
/// `times` (the clock value each iteration saw).
pub open spec fn spec_after_receives(s: ReceiveStats, times: Seq<u64>) -> ReceiveStats
    decreases times.len(),
{
    if times.len() == 0 {
        s
    } else {
        spec_after_receives(spec_after_receive(s, times[0]), times.skip(1))
    }
}

/// The cumulative count after N receive iterations is the starting count
/// plus N, whatever the clock did and however many of the packets were
/// rejected as non-shred traffic: rejection does not touch the counters,
/// and the periodic report never resets the cumulative count.
pub proof fn lemma_count_after_receives(s: ReceiveStats, times: Seq<u64>)
    requires
        s.count + times.len() <= u64::MAX,
    ensures
        spec_after_receives(s, times).count == s.count + times.len(),
    decreases times.len(),
{
    if times.len() > 0 {
        lemma_count_after_receives(spec_after_receive(s, times[0]), times.skip(1));
    }
}

} // verus!
