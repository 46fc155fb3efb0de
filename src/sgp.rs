//! The air quality sensor: windowed means of CO2-equivalent, total
//! volatile organic compounds and the two raw gas signals, leaving out the
//! values with which the sensor says it has no reading yet.
use crate::aggregator::{averages, spec_elapsed, Aggregator, Quantity};
use crate::channel::{send_all, Outbox};
use crate::metric::{metric_views, Metric};
use vstd::prelude::*;

verus! {

pub const CO2: &'static str = "mbr-sgp30.co2";
pub const TVOC: &'static str = "mbr-sgp30.tvoc";
pub const RAW_H2: &'static str = "mbr-sgp30.raw-h2";
pub const RAW_ETHANOL: &'static str = "mbr-sgp30.raw-ethanol";

/// The CO2-equivalent that the sensor reports while its baseline is still
/// settling.
pub const CO2_BASELINE: u16 = 400;

/// An air quality reading: CO2-equivalent in ppm and TVOC in ppb.
#[derive(Clone, Copy, Debug, PartialEq, Eq, Structural)]
pub struct Measurement {
    pub co2eq_ppm: u16,
    pub tvoc_ppb: u16,
}

/// The raw hydrogen and ethanol signals.
#[derive(Clone, Copy, Debug, PartialEq, Eq, Structural)]
pub struct RawSignals {
    pub h2: u16,
    pub ethanol: u16,
}

/// The quantities after one tick: a CO2-equivalent other than the
/// baseline value, a nonzero TVOC, and a raw pair that is not all zero are
/// added; the rest, and what a failed read did not give, are left out.
pub open spec fn sampled(qs: Seq<Quantity>, m: Option<Measurement>, raw: Option<RawSignals>) -> Seq<Quantity> {
    let a = match m {
        Some(v) if v.co2eq_ppm != CO2_BASELINE => qs.update(0, qs[0].spec_add(v.co2eq_ppm as int)),
        _ => qs,
    };
    let b = match m {
        Some(v) if v.tvoc_ppb != 0 => a.update(1, a[1].spec_add(v.tvoc_ppb as int)),
        _ => a,
    };
    match raw {
        Some(s) if s.h2 > 0 || s.ethanol > 0 => b.update(2, b[2].spec_add(s.h2 as int)).update(
            3,
            b[3].spec_add(s.ethanol as int),
        ),
        _ => b,
    }
}

/// Air quality sensor state kept between samples.
pub struct State {
    pub window: Aggregator,
}

impl State {
    /// The window tracks CO2-equivalent, TVOC, hydrogen and ethanol, in
    /// that order, in the sensor's own units; hydrogen and ethanol always
    /// with equal counts.
    pub open spec fn wf(&self) -> bool {
        let qs = self.window.quantities@;
        &&& self.window.wf()
        &&& qs.len() == 4
        &&& qs[0].name@ == CO2@ && qs[0].scale == 1
        &&& qs[1].name@ == TVOC@ && qs[1].scale == 1
        &&& qs[2].name@ == RAW_H2@ && qs[2].scale == 1
        &&& qs[3].name@ == RAW_ETHANOL@ && qs[3].scale == 1
        &&& qs[3].count == qs[2].count
    }

    /// An air quality sensor with an empty window of `window_ms` that
    /// starts at `now`.
    pub fn new(window_ms: u64, now: u64) -> (r: State)
        ensures
            r.wf(),
            r.window.is_reset(now),
            r.window.window_ms == window_ms,
    {
        let mut window = Aggregator::new(window_ms, now);
        window.track(CO2, 1);
        window.track(TVOC, 1);
        window.track(RAW_H2, 1);
        window.track(RAW_ETHANOL, 1);
        State { window }
    }

    /// Adds what one tick read to the window, as `sampled` says.
    pub fn sample(&mut self, m: Option<Measurement>, raw: Option<RawSignals>)
        requires
            old(self).wf(),
        ensures
            final(self).wf(),
            final(self).window.window_start == old(self).window.window_start,
            final(self).window.window_ms == old(self).window.window_ms,
            final(self).window.quantities@ == sampled(old(self).window.quantities@, m, raw),
    {
        if let Some(v) = m {
            if v.co2eq_ppm != CO2_BASELINE {
                self.window.accumulate(0, v.co2eq_ppm as i64);
            }
            if v.tvoc_ppb != 0 {
                self.window.accumulate(1, v.tvoc_ppb as i64);
            }
        }
        if let Some(s) = raw {
            if s.h2 > 0 || s.ethanol > 0 {
                self.window.accumulate(2, s.h2 as i64);
                self.window.accumulate(3, s.ethanol as i64);
            }
        }
    }
}

/// One tick of the air quality sensor: adds what was read (`None` for a
/// failed read) to the window, flushes the window if it has elapsed at
/// `now`, and sends the means that the flush produced. Returns the metrics
/// that the channel refused because it had closed; all the others were
/// accepted by the channel, in order.
pub fn poll(
    state: &mut State,
    measurement: Option<Measurement>,
    raw: Option<RawSignals>,
    now: u64,
    out: &mut Outbox,
) -> (r: Vec<Metric>)
    requires
        old(state).wf(),
    ensures
        final(state).wf(),
        final(state).window.window_ms == old(state).window.window_ms,
        final(out).tx == old(out).tx,
        ({
            let qs = sampled(old(state).window.quantities@, measurement, raw);
            let emitted = averages(qs);
            let due = spec_elapsed(old(state).window.window_start, now)
                > old(state).window.window_ms;
            &&& due ==> final(state).window.is_reset(now) && r@.len() <= emitted.len()
                && metric_views(r@) == emitted.subrange(
                emitted.len() - r@.len(),
                emitted.len() as int,
            ) && final(out).accepted@ == old(out).accepted@ + emitted.take(
                emitted.len() - r@.len(),
            )
            &&& !due ==> final(state).window.quantities@ == qs && final(state).window.window_start
                == old(state).window.window_start && r@.len() == 0 && final(out).accepted@
                == old(out).accepted@
        }),
{
    state.sample(measurement, raw);
    let flushed = state.window.maybe_flush(now);
    let ghost views = metric_views(flushed@);
    let ghost sent = flushed@;
    let rest = send_all(out, flushed);
    assert(metric_views(rest@) =~= views.subrange(views.len() - rest@.len(), views.len() as int));
    assert(metric_views(sent.take(sent.len() - rest@.len())) =~= views.take(
        views.len() - rest@.len(),
    ));
    rest
}

} // verus!
