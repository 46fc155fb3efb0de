//! The climate sensor: windowed means of temperature, relative humidity
//! and pressure, with the summary metrics derived from those means.
use crate::aggregator::{averages, sample_bound, spec_elapsed, Aggregator, Quantity};
use crate::channel::{send_all, Outbox};
use crate::conversion::{celsius_to_fahrenheit, spec_fahrenheit};
use crate::metric::{metric_views, Metric, MetricValue, Ratio, RATIO_BOUND};
use vstd::prelude::*;

verus! {

pub const TEMPERATURE: &'static str = "mbr-bme280.temperature";
pub const HUMIDITY: &'static str = "mbr-bme280.humidity";
pub const PRESSURE: &'static str = "mbr-bme280.pressure";
pub const SUMMARY_TEMPERATURE: &'static str = "mbr.temperature";
pub const SUMMARY_HUMIDITY: &'static str = "mbr.humidity";
pub const SUMMARY_ABS_HUMIDITY: &'static str = "mbr.abs-humidity";
pub const SUMMARY_PRESSURE: &'static str = "mbr.pressure";

/// Thousandths of a degree Celsius per degree.
pub const TEMPERATURE_SCALE: u64 = 1000;
/// Thousandths of a percent per percent.
pub const HUMIDITY_SCALE: u64 = 1000;
/// Thousandths of a pascal per hectopascal.
pub const PRESSURE_SCALE: u64 = 100_000;

/// One reading of the climate sensor, in fixed point: thousandths of a
/// degree Celsius, of a percent of relative humidity, and of a pascal.
#[derive(Clone, Copy, Debug, PartialEq, Eq, Structural)]
pub struct Measurement {
    pub temperature: i32,
    pub humidity: i32,
    pub pressure: i32,
}

/// The quantities after one reading: each of the three sums takes its
/// value.
pub open spec fn sampled(qs: Seq<Quantity>, m: Measurement) -> Seq<Quantity> {
    qs.update(0, qs[0].spec_add(m.temperature as int))
        .update(1, qs[1].spec_add(m.humidity as int))
        .update(2, qs[2].spec_add(m.pressure as int))
}

/// What a flush of these quantities emits: the means of temperature (in
/// degrees Celsius), relative humidity and pressure (in hPa), then, if
/// there were samples, the temperature in degrees Fahrenheit, the relative
/// humidity, the absolute humidity, and the pressure at sea level in
/// inches of mercury.
pub open spec fn climate_metrics(qs: Seq<Quantity>) -> Seq<(Seq<char>, MetricValue)> {
    let celsius = qs[0].spec_mean();
    let relative = qs[1].spec_mean();
    let hpa = qs[2].spec_mean();
    averages(qs) + if qs[0].count > 0 {
        seq![
            (SUMMARY_TEMPERATURE@, MetricValue::Exact(spec_fahrenheit(celsius))),
            (SUMMARY_HUMIDITY@, MetricValue::Exact(relative)),
            (SUMMARY_ABS_HUMIDITY@, MetricValue::AbsoluteHumidity { relative, celsius }),
            (SUMMARY_PRESSURE@, MetricValue::SeaLevelInHg { hpa, celsius }),
        ]
    } else {
        seq![]
    }
}

/// Climate sensor state kept between samples.
pub struct State {
    pub window: Aggregator,
    /// Mean relative humidity and temperature of the last flush with
    /// samples, for the humidity compensation of the air quality sensor.
    pub last_climate: Option<(Ratio, Ratio)>,
}

impl State {
    /// The window tracks temperature, humidity and pressure, in that
    /// order, always with equal counts.
    pub open spec fn wf(&self) -> bool {
        let qs = self.window.quantities@;
        &&& self.window.wf()
        &&& qs.len() == 3
        &&& qs[0].name@ == TEMPERATURE@ && qs[0].scale == TEMPERATURE_SCALE
        &&& qs[1].name@ == HUMIDITY@ && qs[1].scale == HUMIDITY_SCALE
        &&& qs[2].name@ == PRESSURE@ && qs[2].scale == PRESSURE_SCALE
        &&& qs[1].count == qs[0].count && qs[2].count == qs[0].count
    }

    /// A climate sensor with an empty window of `window_ms` that starts at
    /// `now`.
    pub fn new(window_ms: u64, now: u64) -> (r: State)
        ensures
            r.wf(),
            r.window.is_reset(now),
            r.window.window_ms == window_ms,
            r.last_climate is None,
    {
        let mut window = Aggregator::new(window_ms, now);
        window.track(TEMPERATURE, TEMPERATURE_SCALE);
        window.track(HUMIDITY, HUMIDITY_SCALE);
        window.track(PRESSURE, PRESSURE_SCALE);
        State { window, last_climate: None }
    }

    /// Adds one reading to the window.
    pub fn sample(&mut self, m: Measurement)
        requires
            old(self).wf(),
        ensures
            final(self).wf(),
            final(self).last_climate == old(self).last_climate,
            final(self).window.window_start == old(self).window.window_start,
            final(self).window.window_ms == old(self).window.window_ms,
            final(self).window.quantities@ == sampled(old(self).window.quantities@, m),
    {
        self.window.accumulate(0, m.temperature as i64);
        self.window.accumulate(1, m.humidity as i64);
        self.window.accumulate(2, m.pressure as i64);
    }

    /// Once the window has elapsed at `now`: returns `climate_metrics` of
    /// the window, keeps its mean humidity and temperature if it had
    /// samples, and starts a new window at `now`. Before that: returns
    /// nothing and changes nothing.
    pub fn flush(&mut self, now: u64) -> (r: Vec<Metric>)
        requires
            old(self).wf(),
        ensures
            final(self).wf(),
            old(self).window.same_quantities(&final(self).window),
            old(self).window.spec_is_due(now) ==> {
                let qs = old(self).window.quantities@;
                &&& metric_views(r@) == climate_metrics(qs)
                &&& final(self).window.is_reset(now)
                &&& final(self).last_climate == if qs[0].count > 0 {
                    Some((qs[1].spec_mean(), qs[0].spec_mean()))
                } else {
                    old(self).last_climate
                }
            },
            !old(self).window.spec_is_due(now) ==> r@.len() == 0 && final(self).window
                == old(self).window && final(self).last_climate == old(self).last_climate,
    {
        if !self.window.is_due(now) {
            return Vec::new();
        }
        let mut out = self.window.averages();
        let t = self.window.mean(0);
        let h = self.window.mean(1);
        let p = self.window.mean(2);
        match (t, h, p) {
            (Some(celsius), Some(relative), Some(hpa)) => {
                proof {
                    let q = self.window.quantities@[0];
                    assert(q.wf());
                    lemma_mean_bounded(q.sum as int, q.count as int, q.scale as int);
                }
                let fahrenheit = celsius_to_fahrenheit(celsius);
                out.push(Metric::new(SUMMARY_TEMPERATURE, MetricValue::Exact(fahrenheit)));
                out.push(Metric::new(SUMMARY_HUMIDITY, MetricValue::Exact(relative)));
                out.push(
                    Metric::new(
                        SUMMARY_ABS_HUMIDITY,
                        MetricValue::AbsoluteHumidity { relative, celsius },
                    ),
                );
                out.push(Metric::new(SUMMARY_PRESSURE, MetricValue::SeaLevelInHg { hpa, celsius }));
                self.last_climate = Some((relative, celsius));
            },
            _ => {},
        }
        assert(metric_views(out@) =~= climate_metrics(self.window.quantities@));
        self.window.reset(now);
        out
    }
}

proof fn lemma_mean_bounded(sum: int, count: int, scale: int)
    requires
        1 <= count <= u32::MAX,
        1 <= scale <= 100_000,
        -(count * sample_bound()) <= sum <= count * sample_bound(),
    ensures
        -RATIO_BOUND <= sum <= RATIO_BOUND,
        0 < count * scale <= RATIO_BOUND,
{
    assert(count * sample_bound() <= u32::MAX * sample_bound()) by (nonlinear_arith)
        requires count <= u32::MAX;
    assert(0 < count * scale <= u32::MAX * 100_000) by (nonlinear_arith)
        requires 1 <= count <= u32::MAX, 1 <= scale <= 100_000;
}

/// One tick of the climate sensor. With a reading (`None` when the read
/// failed): adds it to the window. Then flushes the window if it has
/// elapsed at `now` and sends what the flush produced. Returns the metrics
/// that the channel refused because it had closed; all the others were
/// accepted by the channel, in order.
pub fn poll(
    state: &mut State,
    reading: Option<Measurement>,
    now: u64,
    out: &mut Outbox,
) -> (r: Vec<Metric>)
    requires
        old(state).wf(),
    ensures
        final(state).wf(),
        final(state).window.window_ms == old(state).window.window_ms,
        final(out).tx == old(out).tx,
        ({
            let qs = match reading {
                Some(m) => sampled(old(state).window.quantities@, m),
                None => old(state).window.quantities@,
            };
            let emitted = climate_metrics(qs);
            let due = spec_elapsed(old(state).window.window_start, now)
                > old(state).window.window_ms;
            &&& due ==> final(state).window.is_reset(now) && r@.len() <= emitted.len()
                && metric_views(r@) == emitted.subrange(
                emitted.len() - r@.len(),
                emitted.len() as int,
            ) && final(out).accepted@ == old(out).accepted@ + emitted.take(
                emitted.len() - r@.len(),
            ) && final(state).last_climate == if qs[0].count > 0 {
                Some((qs[1].spec_mean(), qs[0].spec_mean()))
            } else {
                old(state).last_climate
            }
            &&& !due ==> final(state).window.quantities@ == qs && final(state).window.window_start
                == old(state).window.window_start && r@.len() == 0 && final(out).accepted@
                == old(out).accepted@ && final(state).last_climate == old(state).last_climate
        }),
{
    if let Some(m) = reading {
        state.sample(m);
    }
    let flushed = state.flush(now);
    let ghost views = metric_views(flushed@);
    let ghost sent = flushed@;
    let rest = send_all(out, flushed);
    assert(metric_views(rest@) =~= views.subrange(views.len() - rest@.len(), views.len() as int));
    assert(metric_views(sent.take(sent.len() - rest@.len())) =~= views.take(
        views.len() - rest@.len(),
    ));
    rest
}

} // verus!
