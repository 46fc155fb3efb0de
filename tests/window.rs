use metrics_pipeline::aggregator::Aggregator;
use metrics_pipeline::metric::{MetricValue, Ratio};

fn value(r: Ratio) -> f64 {
    r.num as f64 / r.den as f64
}

#[test]
fn three_temperatures_average_to_one_metric() {
    let mut agg = Aggregator::new(60_000, 0);
    agg.track("indoor-env.temperature", 1000);
    for (t, reading) in [(1_000u64, 20_000i64), (2_000, 22_000), (3_000, 21_000)] {
        agg.accumulate(0, reading);
        assert!(agg.maybe_flush(t).is_empty());
    }
    assert_eq!(agg.quantities[0].count, 3);
    let out = agg.maybe_flush(60_001);
    assert_eq!(out.len(), 1);
    assert_eq!(out[0].name, "indoor-env.temperature");
    match out[0].value {
        MetricValue::Exact(r) => assert_eq!(value(r), 21.0),
        _ => panic!("mean is exact"),
    }
}

#[test]
fn flush_skips_quantities_without_samples() {
    let mut agg = Aggregator::new(15_000, 0);
    agg.track("a.first", 1);
    agg.track("a.second", 1);
    agg.track("a.third", 1);
    agg.accumulate(1, 7);
    agg.accumulate(1, -3);
    let out = agg.maybe_flush(15_001);
    assert_eq!(out.len(), 1);
    assert_eq!(out[0].name, "a.second");
    assert_eq!(out[0].value, MetricValue::Exact(Ratio::new(4, 2)));
}

#[test]
fn flush_resets_sums_counts_and_window() {
    let mut agg = Aggregator::new(15_000, 100);
    agg.track("a.x", 10);
    agg.accumulate(0, 5);
    let out = agg.maybe_flush(20_000);
    assert_eq!(out.len(), 1);
    assert_eq!(agg.window_start, 20_000);
    assert_eq!((agg.quantities[0].sum, agg.quantities[0].count), (0, 0));
    assert!(agg.maybe_flush(35_000).is_empty());
    assert_eq!(agg.window_start, 20_000);
    assert!(agg.maybe_flush(35_001).is_empty());
    assert_eq!(agg.window_start, 35_001);
}

#[test]
fn no_flush_until_window_exceeded() {
    let mut agg = Aggregator::new(60_000, 0);
    agg.track("a.x", 1);
    agg.accumulate(0, 1);
    assert!(!agg.is_due(60_000));
    assert!(agg.maybe_flush(60_000).is_empty());
    assert_eq!(agg.quantities[0].count, 1);
    assert!(agg.is_due(60_001));
}

#[test]
fn clock_before_window_start_counts_as_no_time() {
    let agg = Aggregator::new(10, 500);
    assert_eq!(agg.elapsed(100), 0);
    assert_eq!(agg.elapsed(600), 100);
    assert!(!agg.is_due(100));
}

#[test]
fn mean_of_quantity() {
    let mut agg = Aggregator::new(10, 0);
    agg.track("a.x", 4);
    assert_eq!(agg.mean(0), None);
    agg.accumulate(0, i64::MAX);
    agg.accumulate(0, i64::MAX);
    assert_eq!(agg.mean(0), Some(Ratio::new(2 * (i64::MAX as i128), 8)));
}
