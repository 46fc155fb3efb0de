//! Folding per-tick samples into running sums, and turning them into mean
//! values once the aggregation window has elapsed.
use crate::metric::{metric_views, Metric, MetricValue, Ratio};
use vstd::prelude::*;

verus! {

/// Bound on the magnitude of one sample.
pub open spec fn sample_bound() -> int {
    0x8000_0000_0000_0000
}

/// One tracked quantity: its metric name, the number of sample units per
/// unit of the metric, and the running sum and count of its samples.
#[derive(Clone, Copy, Debug)]
pub struct Quantity {
    pub name: &'static str,
    pub scale: u64,
    pub sum: i128,
    pub count: u32,
}

impl Quantity {
    /// The sum is made of `count` samples, each within `sample_bound()`,
    /// and the scale is positive.
    pub open spec fn wf(self) -> bool {
        &&& self.scale > 0
        &&& -(self.count * sample_bound()) <= self.sum <= self.count * sample_bound()
    }

    /// The quantity with one more sample, unless it already holds
    /// `u32::MAX` of them.
    pub open spec fn spec_add(self, sample: int) -> Quantity {
        if self.count < u32::MAX {
            Quantity { sum: (self.sum + sample) as i128, count: (self.count + 1) as u32, ..self }
        } else {
            self
        }
    }

    /// The mean of the samples, in metric units: `sum / (count * scale)`.
    pub open spec fn spec_mean(self) -> Ratio {
        Ratio { num: self.sum, den: (self.count * self.scale) as u128 }
    }

    /// The metric that a flush emits for this quantity, if it has samples.
    pub open spec fn average(self) -> Option<(Seq<char>, MetricValue)> {
        if self.count > 0 {
            Some((self.name@, MetricValue::Exact(self.spec_mean())))
        } else {
            None
        }
    }
}

/// The metrics that a flush of these quantities emits: one per quantity
/// with at least one sample, in the order of the quantities.
pub open spec fn averages(qs: Seq<Quantity>) -> Seq<(Seq<char>, MetricValue)> {
    qs.filter_map(|q: Quantity| q.average())
}

/// Running sums of a fixed set of quantities over a window of time, with
/// times in milliseconds on a monotonic clock.
pub struct Aggregator {
    pub quantities: Vec<Quantity>,
    pub window_start: u64,
    pub window_ms: u64,
}

/// Time from `start` to `now`, or zero if `now` is earlier.
pub open spec fn spec_elapsed(start: u64, now: u64) -> int {
    if now >= start {
        now - start
    } else {
        0
    }
}

impl Aggregator {
    pub open spec fn wf(&self) -> bool {
        forall|i: int| 0 <= i < self.quantities.len() ==> (#[trigger] self.quantities[i]).wf()
    }

    /// Whether the window has elapsed at time `now`.
    pub open spec fn spec_is_due(&self, now: u64) -> bool {
        spec_elapsed(self.window_start, now) > self.window_ms
    }

    /// The state right after a flush at `now`: every sum and count is zero
    /// and the window starts at `now`.
    pub open spec fn is_reset(&self, now: u64) -> bool {
        &&& self.window_start == now
        &&& forall|i: int|
            0 <= i < self.quantities.len() ==> (#[trigger] self.quantities[i]).sum == 0
                && self.quantities[i].count == 0
    }

    /// `other` tracks the same quantities as `self`.
    pub open spec fn same_quantities(&self, other: &Aggregator) -> bool {
        &&& other.window_ms == self.window_ms
        &&& other.quantities.len() == self.quantities.len()
        &&& forall|i: int|
            0 <= i < self.quantities.len() ==> (#[trigger] other.quantities[i]).name
                == self.quantities[i].name && other.quantities[i].scale
                == self.quantities[i].scale
    }

    /// An aggregator with no quantities yet, whose window starts at `now`.
    pub fn new(window_ms: u64, now: u64) -> (r: Aggregator)
        ensures
            r.wf(),
            r.quantities@.len() == 0,
            r.window_start == now,
            r.window_ms == window_ms,
    {
        Aggregator { quantities: Vec::new(), window_start: now, window_ms }
    }

    /// Starts tracking one more quantity, with no samples yet.
    pub fn track(&mut self, name: &'static str, scale: u64)
        requires
            old(self).wf(),
            scale > 0,
        ensures
            final(self).wf(),
            final(self).window_start == old(self).window_start,
            final(self).window_ms == old(self).window_ms,
            final(self).quantities@ == old(self).quantities@.push(
                Quantity { name, scale, sum: 0, count: 0 },
            ),
    {
        self.quantities.push(Quantity { name, scale, sum: 0, count: 0 });
    }

    /// Adds one sample to quantity `index`. A quantity holds at most
    /// `u32::MAX` samples per window; a sample beyond that is not counted.
    pub fn accumulate(&mut self, index: usize, sample: i64)
        requires
            old(self).wf(),
            index < old(self).quantities.len(),
        ensures
            final(self).wf(),
            final(self).window_start == old(self).window_start,
            final(self).window_ms == old(self).window_ms,
            final(self).quantities@ == old(self).quantities@.update(
                index as int,
                old(self).quantities[index as int].spec_add(sample as int),
            ),
    {
        let q = self.quantities[index];
        if q.count < u32::MAX {
            assert(q.wf());
            let updated = Quantity { sum: q.sum + sample as i128, count: q.count + 1, ..q };
            self.quantities.set(index, updated);
        }
    }

    /// Time since the window started, or zero if `now` is earlier.
    pub fn elapsed(&self, now: u64) -> (r: u64)
        ensures
            r == spec_elapsed(self.window_start, now),
    {
        if now >= self.window_start {
            now - self.window_start
        } else {
            0
        }
    }

    /// Whether the window has elapsed at time `now`.
    pub fn is_due(&self, now: u64) -> (r: bool)
        ensures
            r == self.spec_is_due(now),
    {
        self.elapsed(now) > self.window_ms
    }

    /// The mean of quantity `index`, if it has samples.
    pub fn mean(&self, index: usize) -> (r: Option<Ratio>)
        requires
            self.wf(),
            index < self.quantities.len(),
        ensures
            r == (if self.quantities[index as int].count > 0 {
                Some(self.quantities[index as int].spec_mean())
            } else {
                None
            }),
    {
        let q = self.quantities[index];
        if q.count > 0 {
            assert(q.wf());
            proof {
                lemma_den_fits(q.count, q.scale);
            }
            Some(Ratio { num: q.sum, den: q.count as u128 * q.scale as u128 })
        } else {
            None
        }
    }

    /// One metric per quantity with samples, holding its mean.
    pub fn averages(&self) -> (r: Vec<Metric>)
        requires
            self.wf(),
        ensures
            metric_views(r@) == averages(self.quantities@),
    {
        let mut out: Vec<Metric> = Vec::new();
        let mut i: usize = 0;
        while i < self.quantities.len()
            invariant
                self.wf(),
                i <= self.quantities.len(),
                metric_views(out@) == averages(self.quantities@.take(i as int)),
            decreases self.quantities.len() - i,
        {
            proof {
                self.quantities@.lemma_filter_map_take_succ(|q: Quantity| q.average(), i as int);
            }
            let avg = self.mean(i);
            if let Some(m) = avg {
                let metric = Metric::new(self.quantities[i].name, MetricValue::Exact(m));
                out.push(metric);
            }
            assert(metric_views(out@) =~= averages(self.quantities@.take(i + 1)));
            i = i + 1;
        }
        assert(self.quantities@.take(i as int) =~= self.quantities@);
        out
    }

    /// Clears every sum and count and starts a new window at `now`.
    pub fn reset(&mut self, now: u64)
        requires
            old(self).wf(),
        ensures
            final(self).wf(),
            final(self).is_reset(now),
            old(self).same_quantities(final(self)),
    {
        let mut i: usize = 0;
        let ghost before = *self;
        while i < self.quantities.len()
            invariant
                self.wf(),
                i <= self.quantities.len(),
                before.same_quantities(self),
                forall|j: int|
                    0 <= j < i ==> (#[trigger] self.quantities[j]).sum == 0
                        && self.quantities[j].count == 0,
            decreases self.quantities.len() - i,
        {
            let q = self.quantities[i];
            self.quantities.set(i, Quantity { sum: 0, count: 0, ..q });
            i = i + 1;
        }
        self.window_start = now;
    }

    /// Once the window has elapsed at `now`: returns one metric per
    /// quantity with samples, holding its mean, then clears every sum and
    /// count and starts a new window at `now`. Before that: returns nothing
    /// and changes nothing.
    pub fn maybe_flush(&mut self, now: u64) -> (r: Vec<Metric>)
        requires
            old(self).wf(),
        ensures
            final(self).wf(),
            old(self).same_quantities(final(self)),
            old(self).spec_is_due(now) ==> {
                &&& metric_views(r@) == averages(old(self).quantities@)
                &&& final(self).is_reset(now)
            },
            !old(self).spec_is_due(now) ==> r@.len() == 0 && *final(self) == *old(self),
    {
        if self.is_due(now) {
            let out = self.averages();
            self.reset(now);
            out
        } else {
            Vec::new()
        }
    }
}

/// A flush emits nothing for a quantity without samples: every metric it
/// emits is the mean of a quantity whose count is positive, and it emits as
/// many metrics as there are such quantities.
pub proof fn flush_emits_only_sampled(qs: Seq<Quantity>)
    ensures
        forall|k: int|
            0 <= k < averages(qs).len() ==> exists|i: int|
                0 <= i < qs.len() && qs[i].count > 0 && #[trigger] averages(qs)[k] == (
                qs[i].name@,
                MetricValue::Exact(qs[i].spec_mean()),
            ),
        averages(qs).len() == qs.filter(|q: Quantity| q.count > 0).len(),
    decreases qs.len(),
{
    if qs.len() > 0 {
        let init = qs.drop_last();
        flush_emits_only_sampled(init);
        assert(init.push(qs.last()) =~= qs);
        init.lemma_filter_push(qs.last(), |q: Quantity| q.count > 0);
        if qs.last().count > 0 {
            assert(averages(qs) == averages(init) + seq![
                (qs.last().name@, MetricValue::Exact(qs.last().spec_mean())),
            ]);
        } else {
            assert(averages(qs) == averages(init));
        }
        assert forall|k: int| 0 <= k < averages(qs).len() implies exists|i: int|
            0 <= i < qs.len() && qs[i].count > 0 && #[trigger] averages(qs)[k] == (
            qs[i].name@,
            MetricValue::Exact(qs[i].spec_mean()),
        ) by {
            if k < averages(init).len() {
                let i = choose|i: int|
                    0 <= i < init.len() && init[i].count > 0 && #[trigger] averages(init)[k] == (
                    init[i].name@,
                    MetricValue::Exact(init[i].spec_mean()),
                );
                assert(qs[i] == init[i]);
            } else {
                assert(qs[qs.len() - 1] == qs.last());
            }
        }
    }
}

proof fn lemma_den_fits(count: u32, scale: u64)
    ensures
        0 <= count * scale <= u128::MAX,
        count > 0 && scale > 0 ==> count * scale > 0,
{
    assert(0 <= count * scale <= 0xffff_ffff * 0xffff_ffff_ffff_ffff) by (nonlinear_arith);
    assert(count > 0 && scale > 0 ==> count * scale > 0) by (nonlinear_arith);
}

} // verus!
