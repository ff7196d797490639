//! The dashboard controller: it owns one metric series per chart, drives
//! both sampling cadences from the single periodic tick, and records every
//! sample into the series' rolling history.

use crate::chart::Rgb;
use crate::rolling::{push_evict, RollingBuffer};
use crate::sample::{sample, SourceError};
use vstd::prelude::*;

verus! {

/// One metric series: its chart configuration, its bounded history of
/// samples (oldest first), and the time its last sample was taken.
pub struct MetricSeries {
    /// Status label used to query the metric source, and chart title.
    pub label: String,
    /// Color of the chart polyline.
    pub color: Rgb,
    /// Minimal number of time units between two samples of this series.
    pub cadence: u64,
    /// Lower bound (inclusive) of the synthetic fallback range.
    pub fallback_low: i64,
    /// Upper bound (inclusive) of the synthetic fallback range.
    pub fallback_high: i64,
    /// Bounded rolling history of the recorded sample values.
    pub buffer: RollingBuffer<i64>,
    /// Time of the most recent sample, in the clock's time units.
    pub last_sampled_at: u64,
}

impl MetricSeries {
    /// The fallback range is non-empty and non-negative, and the history is
    /// bounded and holds only non-negative counts.
    pub open spec fn wf(&self) -> bool {
        &&& self.buffer.wf()
        &&& 0 <= self.fallback_low <= self.fallback_high
        &&& forall|i: int| 0 <= i < self.buffer@.len() ==> 0 <= #[trigger] self.buffer@[i]
    }

    /// The chart configuration of `b` is the one of `a`; only the history
    /// and the sampling time may differ.
    pub open spec fn same_config(a: MetricSeries, b: MetricSeries) -> bool {
        &&& b.label == a.label
        &&& b.color == a.color
        &&& b.cadence == a.cadence
        &&& b.fallback_low == a.fallback_low
        &&& b.fallback_high == a.fallback_high
        &&& b.buffer.spec_capacity() == a.buffer.spec_capacity()
    }

    /// Whether the series must be sampled at time `now`: at least its full
    /// cadence has elapsed since its last sample.
    pub open spec fn spec_due(&self, now: u64) -> bool {
        self.last_sampled_at + self.cadence <= now
    }

    pub fn new(
        label: String,
        color: Rgb,
        cadence: u64,
        fallback_low: i64,
        fallback_high: i64,
        capacity: usize,
    ) -> (r: MetricSeries)
        requires
            0 <= fallback_low <= fallback_high,
            1 <= capacity,
        ensures
            r.wf(),
            r.label == label,
            r.color == color,
            r.cadence == cadence,
            r.fallback_low == fallback_low,
            r.fallback_high == fallback_high,
            r.buffer@ == Seq::<i64>::empty(),
            r.buffer.spec_capacity() == capacity,
            r.last_sampled_at == 0,
    {
        MetricSeries {
            label,
            color,
            cadence,
            fallback_low,
            fallback_high,
            buffer: RollingBuffer::new(capacity),
            last_sampled_at: 0,
        }
    }

    pub fn due(&self, now: u64) -> (r: bool)
        ensures
            r == self.spec_due(now),
    {
        now >= self.last_sampled_at && now - self.last_sampled_at >= self.cadence
    }

    /// Records one sample at time `now`: the query outcome is absorbed into
    /// a guaranteed value (the queried count on success, a synthetic value
    /// from the fallback range on failure), the value is pushed into the
    /// history (evicting the oldest entry when full), and the sampling time
    /// is updated to `now`.
    pub fn record(&mut self, now: u64, query: Result<i64, SourceError>)
        requires
            old(self).wf(),
            query matches Ok(v) ==> 0 <= v,
        ensures
            final(self).wf(),
            MetricSeries::same_config(*old(self), *final(self)),
            final(self).last_sampled_at == now,
            query matches Ok(v) ==> final(self).buffer@ == push_evict(
                old(self).buffer@,
                old(self).buffer.spec_capacity(),
                v,
            ),
            query matches Err(_) ==> exists|x: i64|
                old(self).fallback_low <= x <= old(self).fallback_high && final(self).buffer@
                    == push_evict(old(self).buffer@, old(self).buffer.spec_capacity(), x),
    {
        let s = sample(query, self.fallback_low, self.fallback_high);
        let v = s.value();
        self.buffer.push(v);
        self.last_sampled_at = now;
    }
}

/// A series was sampled at time `t1`; at a later time `t2` it is due again
/// exactly when its full cadence has elapsed. So the series can never
/// refresh more often than its cadence allows, and it is never starved once
/// the cadence has elapsed.
pub proof fn lemma_cadence_gating(before: MetricSeries, after: MetricSeries, t1: u64, t2: u64)
    requires
        after.cadence == before.cadence,
        after.last_sampled_at == t1,
    ensures
        after.spec_due(t2) <==> t1 + after.cadence <= t2,
{
}

/// Owns the two metric series and wires scheduler ticks to sampling: the
/// fast series is recorded on every tick, the slow one only when its cadence
/// has elapsed.
pub struct DashboardController {
    pub fast: MetricSeries,
    pub slow: MetricSeries,
}

impl DashboardController {
    pub open spec fn wf(&self) -> bool {
        self.fast.wf() && self.slow.wf()
    }

    pub fn new(fast: MetricSeries, slow: MetricSeries) -> (r: DashboardController)
        requires
            fast.wf(),
            slow.wf(),
        ensures
            r.wf(),
            r.fast == fast,
            r.slow == slow,
    {
        DashboardController { fast, slow }
    }

    /// The startup seed: pushes the sentinel `0` into each empty history to
    /// anchor the vertical scale, then records one sample per series at time
    /// `now`, so both charts show data immediately.
    pub fn seed(
        &mut self,
        now: u64,
        fast_query: Result<i64, SourceError>,
        slow_query: Result<i64, SourceError>,
    )
        requires
            old(self).wf(),
            old(self).fast.buffer@.len() == 0,
            old(self).slow.buffer@.len() == 0,
            2 <= old(self).fast.buffer.spec_capacity(),
            2 <= old(self).slow.buffer.spec_capacity(),
            fast_query matches Ok(v) ==> 0 <= v,
            slow_query matches Ok(v) ==> 0 <= v,
        ensures
            final(self).wf(),
            MetricSeries::same_config(old(self).fast, final(self).fast),
            MetricSeries::same_config(old(self).slow, final(self).slow),
            final(self).fast.buffer@.len() == 2,
            final(self).fast.buffer@[0] == 0,
            fast_query matches Ok(v) ==> final(self).fast.buffer@[1] == v,
            fast_query matches Err(_) ==> final(self).fast.fallback_low <= final(self).fast.buffer@[1]
                <= final(self).fast.fallback_high,
            final(self).fast.last_sampled_at == now,
            final(self).slow.buffer@.len() == 2,
            final(self).slow.buffer@[0] == 0,
            slow_query matches Ok(v) ==> final(self).slow.buffer@[1] == v,
            slow_query matches Err(_) ==> final(self).slow.fallback_low <= final(self).slow.buffer@[1]
                <= final(self).slow.fallback_high,
            final(self).slow.last_sampled_at == now,
    {
        self.fast.buffer.push(0);
        self.fast.record(now, fast_query);
        self.slow.buffer.push(0);
        self.slow.record(now, slow_query);
    }

    /// Whether the slow series is due at time `now`. The host asks this on
    /// every tick and queries the slow metric only on a positive answer, so
    /// both cadences derive from the single tick clock.
    pub fn slow_due(&self, now: u64) -> (r: bool)
        ensures
            r == self.slow.spec_due(now),
    {
        self.slow.due(now)
    }

    /// Records the fast series' sample for the tick at time `now`.
    pub fn record_fast(&mut self, now: u64, query: Result<i64, SourceError>)
        requires
            old(self).wf(),
            query matches Ok(v) ==> 0 <= v,
        ensures
            final(self).wf(),
            final(self).slow == old(self).slow,
            MetricSeries::same_config(old(self).fast, final(self).fast),
            final(self).fast.last_sampled_at == now,
            query matches Ok(v) ==> final(self).fast.buffer@ == push_evict(
                old(self).fast.buffer@,
                old(self).fast.buffer.spec_capacity(),
                v,
            ),
            query matches Err(_) ==> exists|x: i64|
                old(self).fast.fallback_low <= x <= old(self).fast.fallback_high
                    && final(self).fast.buffer@ == push_evict(
                    old(self).fast.buffer@,
                    old(self).fast.buffer.spec_capacity(),
                    x,
                ),
    {
        self.fast.record(now, query);
    }

    /// Records the slow series' sample for the tick at time `now`; called
    /// only when `slow_due` answered positively for this tick.
    pub fn record_slow(&mut self, now: u64, query: Result<i64, SourceError>)
        requires
            old(self).wf(),
            query matches Ok(v) ==> 0 <= v,
        ensures
            final(self).wf(),
            final(self).fast == old(self).fast,
            MetricSeries::same_config(old(self).slow, final(self).slow),
            final(self).slow.last_sampled_at == now,
            query matches Ok(v) ==> final(self).slow.buffer@ == push_evict(
                old(self).slow.buffer@,
                old(self).slow.buffer.spec_capacity(),
                v,
            ),
            query matches Err(_) ==> exists|x: i64|
                old(self).slow.fallback_low <= x <= old(self).slow.fallback_high
                    && final(self).slow.buffer@ == push_evict(
                    old(self).slow.buffer@,
                    old(self).slow.buffer.spec_capacity(),
                    x,
                ),
    {
        self.slow.record(now, query);
    }
}

} // verus!
