//! Metrics: the named values that sources hand to the dispatcher.
use vstd::prelude::*;

verus! {

/// Bound on the magnitude of the numerator and of the denominator that
/// the unit conversions accept, so that their results fit in 128 bits.
pub const RATIO_BOUND: i128 = 0x10_0000_0000_0000_0000_0000_0000;

/// An exact rational number `num / den`.
#[derive(Clone, Copy, Debug, PartialEq, Eq, Structural)]
pub struct Ratio {
    pub num: i128,
    pub den: u128,
}

impl Ratio {
    /// A ratio with a positive denominator whose parts stay within
    /// `RATIO_BOUND`.
    pub open spec fn bounded(self) -> bool {
        &&& 0 < self.den <= RATIO_BOUND
        &&& -RATIO_BOUND <= self.num <= RATIO_BOUND
    }

    /// The whole number `n` as a ratio.
    pub fn whole(n: i64) -> (r: Ratio)
        ensures
            r.num == n as i128,
            r.den == 1,
            r.bounded(),
    {
        Ratio { num: n as i128, den: 1 }
    }

    /// The ratio `num / den`.
    pub fn new(num: i128, den: u128) -> (r: Ratio)
        ensures
            r.num == num,
            r.den == den,
    {
        Ratio { num, den }
    }
}

/// How the numeric value of a metric is obtained. Every quantity that the
/// library computes is exact; the last three variants name a conversion
/// that is evaluated in floating point when the value is published.
#[derive(Clone, Copy, Debug, PartialEq, Eq, Structural)]
pub enum MetricValue {
    /// The rational number itself.
    Exact(Ratio),
    /// `10 * log10(r)`, a level in decibels.
    Decibels(Ratio),
    /// Absolute humidity in grams per cubic metre at the given relative
    /// humidity (percent) and temperature (degrees Celsius).
    AbsoluteHumidity { relative: Ratio, celsius: Ratio },
    /// Station pressure in hPa at the given temperature (degrees Celsius),
    /// corrected to sea level and expressed in inches of mercury.
    SeaLevelInHg { hpa: Ratio, celsius: Ratio },
}

/// A named value for the telemetry sink. Names are lower case and dot
/// separated, `source.quantity`.
#[derive(Debug)]
pub struct Metric {
    pub name: String,
    pub value: MetricValue,
}

impl View for Metric {
    type V = (Seq<char>, MetricValue);

    open spec fn view(&self) -> (Seq<char>, MetricValue) {
        (self.name@, self.value)
    }
}

/// The views of a sequence of metrics.
pub open spec fn metric_views(ms: Seq<Metric>) -> Seq<(Seq<char>, MetricValue)> {
    ms.map_values(|m: Metric| m@)
}

impl Metric {
    /// A metric with the given name and value.
    pub fn new(name: &str, value: MetricValue) -> (r: Metric)
        ensures
            r@ == (name@, value),
    {
        Metric { name: String::from_str(name), value }
    }
}

} // verus!
