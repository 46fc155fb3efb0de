use metrics_pipeline::channel::Outbox;
use metrics_pipeline::bme::{poll, Measurement, State};
use metrics_pipeline::metric::{Metric, MetricValue, Ratio};

fn value(r: Ratio) -> f64 {
    r.num as f64 / r.den as f64
}

fn exact(m: &Metric) -> f64 {
    match m.value {
        MetricValue::Exact(r) => value(r),
        _ => panic!("{} is not exact", m.name),
    }
}

#[test]
fn climate_flush_sends_means_and_derived_values() {
    let (tx, rx) = async_channel::bounded(16);
    let mut out = Outbox::new(tx);
    let mut state = State::new(60_000, 0);
    let a = Measurement { temperature: 20_000, humidity: 40_000, pressure: 100_000_000 };
    let b = Measurement { temperature: 22_000, humidity: 50_000, pressure: 101_000_000 };
    assert!(poll(&mut state, Some(a), 1_000, &mut out).is_empty());
    assert!(poll(&mut state, None, 2_000, &mut out).is_empty());
    assert!(poll(&mut state, Some(b), 60_001, &mut out).is_empty());
    let mut got = Vec::new();
    while let Ok(m) = rx.try_recv() {
        got.push(m);
    }
    let names: Vec<&str> = got.iter().map(|m| m.name.as_str()).collect();
    assert_eq!(
        names,
        vec![
            "mbr-bme280.temperature",
            "mbr-bme280.humidity",
            "mbr-bme280.pressure",
            "mbr.temperature",
            "mbr.humidity",
            "mbr.abs-humidity",
            "mbr.pressure",
        ]
    );
    assert_eq!(exact(&got[0]), 21.0);
    assert_eq!(exact(&got[1]), 45.0);
    assert_eq!(exact(&got[2]), 1005.0);
    assert!((exact(&got[3]) - 69.8).abs() < 1e-12);
    assert_eq!(exact(&got[4]), 45.0);
    let celsius = Ratio::new(42_000, 2_000);
    let relative = Ratio::new(90_000, 2_000);
    assert_eq!(got[5].value, MetricValue::AbsoluteHumidity { relative, celsius });
    assert_eq!(
        got[6].value,
        MetricValue::SeaLevelInHg { hpa: Ratio::new(201_000_000, 200_000), celsius }
    );
    assert_eq!(state.last_climate, Some((relative, celsius)));
    assert_eq!(state.window.window_start, 60_001);
}

#[test]
fn climate_window_without_readings_sends_nothing() {
    let (tx, rx) = async_channel::bounded(16);
    let mut out = Outbox::new(tx);
    let mut state = State::new(60_000, 0);
    assert!(poll(&mut state, None, 60_001, &mut out).is_empty());
    assert!(rx.try_recv().is_err());
    assert_eq!(state.last_climate, None);
    assert_eq!(state.window.window_start, 60_001);
}

#[test]
fn closed_channel_hands_metrics_back() {
    let (tx, rx) = async_channel::bounded(16);
    let mut out = Outbox::new(tx);
    drop(rx);
    let mut state = State::new(10, 0);
    let m = Measurement { temperature: -5_000, humidity: 90_000, pressure: 99_000_000 };
    let rest = poll(&mut state, Some(m), 11, &mut out);
    assert_eq!(rest.len(), 7);
    assert_eq!(rest[0].name, "mbr-bme280.temperature");
    assert_eq!(exact(&rest[0]), -5.0);
    assert_eq!(exact(&rest[3]), 23.0);
}

#[test]
fn failed_read_before_window_end_changes_nothing() {
    let (tx, rx) = async_channel::bounded(16);
    let mut out = Outbox::new(tx);
    let mut state = State::new(60_000, 0);
    let m = Measurement { temperature: 20_000, humidity: 40_000, pressure: 100_000_000 };
    assert!(poll(&mut state, Some(m), 1_000, &mut out).is_empty());
    let before: Vec<(i128, u32)> = state.window.quantities.iter().map(|q| (q.sum, q.count)).collect();
    assert!(poll(&mut state, None, 2_000, &mut out).is_empty());
    let after: Vec<(i128, u32)> = state.window.quantities.iter().map(|q| (q.sum, q.count)).collect();
    assert_eq!(before, after);
    assert_eq!(state.window.window_start, 0);
    assert_eq!(state.window.window_ms, 60_000);
    assert_eq!(state.last_climate, None);
    assert!(rx.try_recv().is_err());
}
