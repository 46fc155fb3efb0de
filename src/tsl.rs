//! The light sensor: lux from the two raw channels, gain control between
//! samples, and windowed means of lux and of both channels.
use crate::aggregator::{averages, spec_elapsed, Aggregator, Quantity};
use crate::channel::{send_all, Outbox};
use crate::gain::{adjust_gain, adjusted_gain, gain_factor, spec_gain_factor, Gain, SATURATED};
use crate::metric::{metric_views, Metric, MetricValue, Ratio};
use vstd::prelude::*;

verus! {

pub const LUX: &'static str = "mbr-tsl2591.lux";
pub const FULL_SPECTRUM: &'static str = "mbr-tsl2591.full-spectrum";
pub const INFRARED: &'static str = "mbr-tsl2591.infrared";
pub const GAIN: &'static str = "mbr-tsl2591.gain";
pub const SUMMARY_LUX: &'static str = "mbr.lux";
pub const SUMMARY_LUX_DB: &'static str = "mbr.lux-db";

/// Lux per count of visible light at unit gain and one millisecond of
/// integration, times ten: the device factor 53 over the tenths in which
/// the visible estimate is counted.
pub const LUX_FACTOR: u64 = 53;

/// The least common multiple of the four gain factors, so that samples
/// taken at different gains share one denominator.
pub const GAIN_LCM: u64 = 26_418_300;

/// Integration time of the light sensor.
#[derive(Clone, Copy, Debug, PartialEq, Eq, Structural)]
pub enum IntegrationTime {
    Ms100,
    Ms200,
    Ms300,
    Ms400,
    Ms500,
    Ms600,
}

pub open spec fn spec_integration_ms(t: IntegrationTime) -> int {
    match t {
        IntegrationTime::Ms100 => 100,
        IntegrationTime::Ms200 => 200,
        IntegrationTime::Ms300 => 300,
        IntegrationTime::Ms400 => 400,
        IntegrationTime::Ms500 => 500,
        IntegrationTime::Ms600 => 600,
    }
}

/// Integration time in milliseconds.
pub fn integration_ms(t: IntegrationTime) -> (r: u64)
    ensures
        r as int == spec_integration_ms(t),
{
    match t {
        IntegrationTime::Ms100 => 100,
        IntegrationTime::Ms200 => 200,
        IntegrationTime::Ms300 => 300,
        IntegrationTime::Ms400 => 400,
        IntegrationTime::Ms500 => 500,
        IntegrationTime::Ms600 => 600,
    }
}

/// Visible light in tenths of a count: channel 0 less 1.7 times the
/// infrared channel 1 where that is positive and channel 0 is not
/// saturated, else channel 1 alone.
pub open spec fn visible_tenths(ch0: u16, ch1: u16) -> int {
    if ch0 != SATURATED && 10 * ch0 > 17 * ch1 {
        10 * ch0 - 17 * ch1
    } else {
        10 * ch1
    }
}

/// Lux from a raw channel pair: `visible * 53 / (time_ms * gain)`, and
/// none when both channels are saturated.
pub open spec fn spec_lux(ch0: u16, ch1: u16, gain: Gain, time: IntegrationTime) -> Option<Ratio> {
    if ch0 == SATURATED && ch1 == SATURATED {
        None
    } else {
        Some(
            Ratio {
                num: (visible_tenths(ch0, ch1) * LUX_FACTOR) as i128,
                den: (10 * spec_integration_ms(time) * spec_gain_factor(gain)) as u128,
            },
        )
    }
}

/// Lux from a raw channel pair at the given gain and integration time;
/// `None` marks the reading invalid (both channels saturated).
pub fn calculate_lux(ch0: u16, ch1: u16, gain: Gain, time: IntegrationTime) -> (r: Option<Ratio>)
    ensures
        r == spec_lux(ch0, ch1, gain, time),
{
    if ch0 == SATURATED && ch1 == SATURATED {
        return None;
    }
    let visible: u64 = if ch0 != SATURATED && 10 * (ch0 as u64) > 17 * (ch1 as u64) {
        10 * (ch0 as u64) - 17 * (ch1 as u64)
    } else {
        10 * (ch1 as u64)
    };
    let t = integration_ms(time);
    let f = gain_factor(gain) as u64;
    assert(10 * t * f <= 10 * 600 * 9876) by (nonlinear_arith)
        requires
            t <= 600,
            f <= 9876,
    ;
    let den = (10 * t * f) as u128;
    Some(Ratio { num: (visible * LUX_FACTOR) as i128, den })
}

/// Lux is a function of its four inputs: two evaluations on the same
/// inputs agree, and a pair with both channels saturated is invalid every
/// time.
pub proof fn lux_is_deterministic(
    ch0: u16,
    ch1: u16,
    gain: Gain,
    time: IntegrationTime,
    first: Option<Ratio>,
    second: Option<Ratio>,
)
    requires
        first == spec_lux(ch0, ch1, gain, time),
        second == spec_lux(ch0, ch1, gain, time),
    ensures
        first == second,
        ch0 == SATURATED && ch1 == SATURATED ==> first is None && second is None,
{
}

/// `GAIN_LCM` over the gain factor: what one count at this gain weighs
/// against the common denominator.
pub open spec fn gain_share(g: Gain) -> int {
    GAIN_LCM as int / spec_gain_factor(g)
}

fn share(g: Gain) -> (r: u64)
    ensures
        r as int == gain_share(g),
        r * spec_gain_factor(g) == GAIN_LCM,
        1 <= r <= GAIN_LCM,
{
    match g {
        Gain::Low => 26_418_300,
        Gain::Med => 1_056_732,
        Gain::High => 61_725,
        Gain::Max => 2_675,
    }
}

/// What one valid reading adds to the lux sum, over the denominator
/// `lux_scale(time)`.
pub open spec fn lux_sample(ch0: u16, ch1: u16, gain: Gain) -> int {
    visible_tenths(ch0, ch1) * LUX_FACTOR * gain_share(gain)
}

/// Denominator of the lux sum for one sample.
pub open spec fn lux_scale(time: IntegrationTime) -> int {
    10 * spec_integration_ms(time) * GAIN_LCM
}

/// A lux sample over its scale is the lux of the reading.
pub proof fn lux_sample_is_lux(ch0: u16, ch1: u16, gain: Gain, time: IntegrationTime)
    requires
        !(ch0 == SATURATED && ch1 == SATURATED),
    ensures
        lux_sample(ch0, ch1, gain) * spec_lux(ch0, ch1, gain, time).unwrap().den == spec_lux(
            ch0,
            ch1,
            gain,
            time,
        ).unwrap().num * lux_scale(time),
{
    let v = visible_tenths(ch0, ch1) * LUX_FACTOR;
    let s = gain_share(gain);
    let f = spec_gain_factor(gain);
    let t = spec_integration_ms(time);
    assert(s * f == GAIN_LCM);
    assert(0 <= v <= 655350 * 53);
    assert(10 * t * f <= 10 * 600 * 9876) by (nonlinear_arith)
        requires 1 <= t <= 600, 1 <= f <= 9876;
    assert(v * s * (10 * t * f) == v * (10 * t * (s * f))) by (nonlinear_arith);
}

/// The quantities after one reading: a valid reading adds its lux, and
/// both channels weighted by the gain, to the three sums; an invalid one
/// adds nothing.
pub open spec fn sampled(qs: Seq<Quantity>, ch0: u16, ch1: u16, gain: Gain, time: IntegrationTime) -> Seq<Quantity> {
    if spec_lux(ch0, ch1, gain, time) is Some {
        qs.update(0, qs[0].spec_add(lux_sample(ch0, ch1, gain)))
            .update(1, qs[1].spec_add(ch0 * gain_share(gain)))
            .update(2, qs[2].spec_add(ch1 * gain_share(gain)))
    } else {
        qs
    }
}

/// What a flush of these quantities emits: the means of lux and of both
/// channels, then, if lux has samples, the gain factor, the mean lux again
/// under its summary name, and the mean lux in decibels.
pub open spec fn light_metrics(qs: Seq<Quantity>, gain: Gain) -> Seq<(Seq<char>, MetricValue)> {
    averages(qs) + if qs[0].count > 0 {
        seq![
            (GAIN@, MetricValue::Exact(Ratio { num: spec_gain_factor(gain) as i128, den: 1 })),
            (SUMMARY_LUX@, MetricValue::Exact(qs[0].spec_mean())),
            (SUMMARY_LUX_DB@, MetricValue::Decibels(qs[0].spec_mean())),
        ]
    } else {
        seq![]
    }
}

/// The gain change that the threshold rule asks for after a reading, if any.
pub open spec fn gain_request(gain: Gain, ch0: u16, ch1: u16) -> Option<Gain> {
    if adjusted_gain(gain, ch0, ch1) != gain {
        Some(adjusted_gain(gain, ch0, ch1))
    } else {
        None
    }
}

/// Light sensor state kept between samples.
pub struct State {
    pub integ_time: IntegrationTime,
    pub gain: Gain,
    pub window: Aggregator,
}

impl State {
    /// The window tracks lux, full spectrum and infrared, in that order,
    /// over their common denominators, always with equal counts.
    pub open spec fn wf(&self) -> bool {
        let qs = self.window.quantities@;
        &&& self.window.wf()
        &&& qs.len() == 3
        &&& qs[0].name@ == LUX@ && qs[0].scale == lux_scale(self.integ_time)
        &&& qs[1].name@ == FULL_SPECTRUM@ && qs[1].scale == GAIN_LCM
        &&& qs[2].name@ == INFRARED@ && qs[2].scale == GAIN_LCM
        &&& qs[1].count == qs[0].count && qs[2].count == qs[0].count
    }

    /// A light sensor at the given settings, with an empty window of
    /// `window_ms` that starts at `now`.
    pub fn new(integ_time: IntegrationTime, gain: Gain, window_ms: u64, now: u64) -> (r: State)
        ensures
            r.wf(),
            r.integ_time == integ_time,
            r.gain == gain,
            r.window.is_reset(now),
            r.window.window_ms == window_ms,
    {
        let mut window = Aggregator::new(window_ms, now);
        window.track(LUX, 10 * integration_ms(integ_time) * GAIN_LCM);
        window.track(FULL_SPECTRUM, GAIN_LCM);
        window.track(INFRARED, GAIN_LCM);
        State { integ_time, gain, window }
    }

    /// Takes one raw channel pair: adds it to the window if its lux is
    /// valid, and returns the gain that the threshold rule asks for when it
    /// differs from the current one. The gain itself is left as it is until
    /// the device has taken the new setting (`settle_gain`).
    pub fn sample(&mut self, ch0: u16, ch1: u16) -> (r: Option<Gain>)
        requires
            old(self).wf(),
        ensures
            final(self).wf(),
            final(self).gain == old(self).gain,
            final(self).integ_time == old(self).integ_time,
            final(self).window.window_start == old(self).window.window_start,
            final(self).window.window_ms == old(self).window.window_ms,
            final(self).window.quantities@ == sampled(
                old(self).window.quantities@,
                ch0,
                ch1,
                old(self).gain,
                old(self).integ_time,
            ),
            r == gain_request(old(self).gain, ch0, ch1),
    {
        let lux = calculate_lux(ch0, ch1, self.gain, self.integ_time);
        if lux.is_some() {
            let visible: u64 = if ch0 != SATURATED && 10 * (ch0 as u64) > 17 * (ch1 as u64) {
                10 * (ch0 as u64) - 17 * (ch1 as u64)
            } else {
                10 * (ch1 as u64)
            };
            let w = share(self.gain);
            proof {
                lemma_sample_bounds(visible as int, ch0 as int, ch1 as int, w as int);
            }
            self.window.accumulate(0, (visible * LUX_FACTOR * w) as i64);
            self.window.accumulate(1, (ch0 as u64 * w) as i64);
            self.window.accumulate(2, (ch1 as u64 * w) as i64);
        }
        let next = adjust_gain(self.gain, ch0, ch1);
        if next != self.gain {
            Some(next)
        } else {
            None
        }
    }

    /// Records the outcome of pushing `proposed` to the device: the gain
    /// becomes `proposed` only if the device took it.
    pub fn settle_gain(&mut self, proposed: Gain, pushed: bool)
        ensures
            final(self).gain == (if pushed { proposed } else { old(self).gain }),
            final(self).integ_time == old(self).integ_time,
            final(self).window == old(self).window,
    {
        if pushed {
            self.gain = proposed;
        }
    }

    /// Once the window has elapsed at `now`: returns `light_metrics` of the
    /// window and starts a new one at `now`. Before that: returns nothing
    /// and changes nothing.
    pub fn flush(&mut self, now: u64) -> (r: Vec<Metric>)
        requires
            old(self).wf(),
        ensures
            final(self).wf(),
            final(self).gain == old(self).gain,
            final(self).integ_time == old(self).integ_time,
            old(self).window.same_quantities(&final(self).window),
            old(self).window.spec_is_due(now) ==> {
                &&& metric_views(r@) == light_metrics(old(self).window.quantities@, old(self).gain)
                &&& final(self).window.is_reset(now)
            },
            !old(self).window.spec_is_due(now) ==> r@.len() == 0 && final(self).window
                == old(self).window,
    {
        if !self.window.is_due(now) {
            return Vec::new();
        }
        let mut out = self.window.averages();
        let lux = self.window.mean(0);
        if let Some(mean) = lux {
            let factor = gain_factor(self.gain);
            out.push(Metric::new(GAIN, MetricValue::Exact(Ratio { num: factor as i128, den: 1 })));
            out.push(Metric::new(SUMMARY_LUX, MetricValue::Exact(mean)));
            out.push(Metric::new(SUMMARY_LUX_DB, MetricValue::Decibels(mean)));
        }
        assert(metric_views(out@) =~= light_metrics(self.window.quantities@, self.gain));
        self.window.reset(now);
        out
    }
}

proof fn lemma_sample_bounds(visible: int, ch0: int, ch1: int, w: int)
    requires
        0 <= visible <= 655350,
        0 <= ch0 <= 65535,
        0 <= ch1 <= 65535,
        1 <= w <= GAIN_LCM,
    ensures
        0 <= visible * 53 <= 655350 * 53,
        0 <= visible * 53 * w <= 655350 * 53 * GAIN_LCM,
        0 <= ch0 * w <= 65535 * GAIN_LCM,
        0 <= ch1 * w <= 65535 * GAIN_LCM,
{
    assert(0 <= visible * 53 * w <= 655350 * 53 * GAIN_LCM) by (nonlinear_arith)
        requires 0 <= visible <= 655350, 1 <= w <= GAIN_LCM;
    assert(0 <= ch0 * w <= 65535 * GAIN_LCM) by (nonlinear_arith)
        requires 0 <= ch0 <= 65535, 1 <= w <= GAIN_LCM;
    assert(0 <= ch1 * w <= 65535 * GAIN_LCM) by (nonlinear_arith)
        requires 0 <= ch1 <= 65535, 1 <= w <= GAIN_LCM;
}

/// One tick of the light sensor. With a reading (`None` when the read
/// failed): adds it to the window as `State::sample` does. Then flushes the
/// window if it has elapsed at `now` and sends what the flush produced.
/// Returns the gain change to push to the device, and the metrics that the
/// channel refused because it had closed; all the others were accepted by
/// the channel, in order.
pub fn poll(
    state: &mut State,
    channels: Option<(u16, u16)>,
    now: u64,
    out: &mut Outbox,
) -> (r: (Option<Gain>, Vec<Metric>))
    requires
        old(state).wf(),
    ensures
        final(state).wf(),
        final(state).gain == old(state).gain,
        final(state).integ_time == old(state).integ_time,
        final(state).window.window_ms == old(state).window.window_ms,
        final(out).tx == old(out).tx,
        ({
            let qs = match channels {
                Some(ch) => sampled(
                    old(state).window.quantities@,
                    ch.0,
                    ch.1,
                    old(state).gain,
                    old(state).integ_time,
                ),
                None => old(state).window.quantities@,
            };
            let emitted = light_metrics(qs, old(state).gain);
            let due = spec_elapsed(old(state).window.window_start, now)
                > old(state).window.window_ms;
            &&& r.0 == match channels {
                Some(ch) => gain_request(old(state).gain, ch.0, ch.1),
                None => None,
            }
            &&& due ==> final(state).window.is_reset(now) && metric_views(r.1@) == emitted.subrange(
                emitted.len() - r.1@.len(),
                emitted.len() as int,
            ) && r.1@.len() <= emitted.len() && final(out).accepted@ == old(out).accepted@
                + emitted.take(emitted.len() - r.1@.len())
            &&& !due ==> final(state).window.quantities@ == qs && final(state).window.window_start
                == old(state).window.window_start && r.1@.len() == 0 && final(out).accepted@
                == old(out).accepted@
        }),
{
    let request = match channels {
        Some((ch0, ch1)) => state.sample(ch0, ch1),
        None => None,
    };
    let flushed = state.flush(now);
    let ghost views = metric_views(flushed@);
    let ghost sent = flushed@;
    let rest = send_all(out, flushed);
    assert(metric_views(rest@) =~= views.subrange(views.len() - rest@.len(), views.len() as int));
    assert(metric_views(sent.take(sent.len() - rest@.len())) =~= views.take(
        views.len() - rest@.len(),
    ));
    (request, rest)
}

} // verus!
