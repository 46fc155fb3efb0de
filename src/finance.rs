//! Quotes: one metric per symbol whose quote came back with a price.
use crate::feed::{finance_feed_name, hyphenated, lower_of};
use crate::metric::{Metric, MetricValue, Ratio};
use vstd::prelude::*;

verus! {

/// Millionths of a currency unit per unit: quote prices are carried in
/// millionths.
pub const PRICE_SCALE: u128 = 1_000_000;

/// The metric for a quote of `symbol` at `price_micros` millionths, or
/// none for a zero price, which is what the quote service returns for a
/// symbol it does not know.
pub fn quote_metric(symbol: &str, price_micros: i64) -> (r: Option<Metric>)
    ensures
        price_micros == 0 ==> r is None,
        price_micros != 0 ==> (r matches Some(m) && m@ == (
            "finance."@ + hyphenated(lower_of(symbol@)),
            MetricValue::Exact(Ratio { num: price_micros as i128, den: PRICE_SCALE }),
        )),
{
    if price_micros == 0 {
        None
    } else {
        let name = finance_feed_name(symbol);
        Some(
            Metric {
                name,
                value: MetricValue::Exact(Ratio { num: price_micros as i128, den: PRICE_SCALE }),
            },
        )
    }
}

} // verus!
