//! Current weather conditions: three metrics per report that carries a
//! timestamp.
use crate::metric::{metric_views, Metric, MetricValue, Ratio};
use vstd::prelude::*;

verus! {

pub const TEMPERATURE: &'static str = "weather.temp";
pub const HUMIDITY: &'static str = "weather.humidity";
pub const PRESSURE: &'static str = "weather.pressure";

/// The current conditions of a weather report: its UTC timestamp (zero
/// when the report could not be read), the temperature in thousandths of a
/// degree, the relative humidity in percent and the pressure in hPa.
#[derive(Clone, Copy, Debug, PartialEq, Eq, Structural)]
pub struct Conditions {
    pub utc_timestamp: i64,
    pub temperature: i32,
    pub humidity: i32,
    pub pressure: i32,
}

/// The metrics of a report: none without a timestamp, else temperature,
/// humidity and pressure, in that order.
pub open spec fn spec_current_metrics(c: Conditions) -> Seq<(Seq<char>, MetricValue)> {
    if c.utc_timestamp == 0 {
        seq![]
    } else {
        seq![
            (TEMPERATURE@, MetricValue::Exact(Ratio { num: c.temperature as i128, den: 1000 })),
            (HUMIDITY@, MetricValue::Exact(Ratio { num: c.humidity as i128, den: 1 })),
            (PRESSURE@, MetricValue::Exact(Ratio { num: c.pressure as i128, den: 1 })),
        ]
    }
}

/// The metrics of a weather report, as `spec_current_metrics` says.
pub fn current_metrics(c: Conditions) -> (r: Vec<Metric>)
    ensures
        metric_views(r@) == spec_current_metrics(c),
{
    let mut out: Vec<Metric> = Vec::new();
    if c.utc_timestamp != 0 {
        out.push(
            Metric::new(
                TEMPERATURE,
                MetricValue::Exact(Ratio { num: c.temperature as i128, den: 1000 }),
            ),
        );
        out.push(Metric::new(HUMIDITY, MetricValue::Exact(Ratio { num: c.humidity as i128, den: 1 })));
        out.push(Metric::new(PRESSURE, MetricValue::Exact(Ratio { num: c.pressure as i128, den: 1 })));
    }
    assert(metric_views(out@) =~= spec_current_metrics(c));
    out
}

} // verus!
