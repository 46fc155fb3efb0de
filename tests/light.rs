use metrics_pipeline::channel::Outbox;
use metrics_pipeline::gain::Gain;
use metrics_pipeline::metric::{MetricValue, Ratio};
use metrics_pipeline::tsl::{calculate_lux, poll, IntegrationTime, State};

fn value(r: Ratio) -> f64 {
    r.num as f64 / r.den as f64
}

#[test]
fn lux_subtracts_infrared() {
    let lux = calculate_lux(1000, 100, Gain::Med, IntegrationTime::Ms200).unwrap();
    assert_eq!((lux.num, lux.den), (8300 * 53, 10 * 200 * 25));
    assert!((value(lux) - 8.798).abs() < 1e-12);
}

#[test]
fn lux_falls_back_to_infrared_channel() {
    let lux = calculate_lux(100, 100, Gain::Low, IntegrationTime::Ms100).unwrap();
    assert_eq!((lux.num, lux.den), (1000 * 53, 1000));
    let sat0 = calculate_lux(65535, 100, Gain::Low, IntegrationTime::Ms100).unwrap();
    assert_eq!(sat0.num, 1000 * 53);
}

#[test]
fn lux_is_invalid_only_when_both_channels_saturate() {
    assert_eq!(calculate_lux(65535, 65535, Gain::Med, IntegrationTime::Ms200), None);
    assert!(calculate_lux(100, 65535, Gain::Med, IntegrationTime::Ms200).is_some());
}

#[test]
fn lux_twice_gives_the_same_result() {
    for (a, b) in [(0u16, 0u16), (1234, 56), (65535, 65535), (40000, 1)] {
        for g in [Gain::Low, Gain::Med, Gain::High, Gain::Max] {
            let first = calculate_lux(a, b, g, IntegrationTime::Ms300);
            let second = calculate_lux(a, b, g, IntegrationTime::Ms300);
            assert_eq!(first, second);
        }
    }
}

#[test]
fn saturated_pair_lowers_gain_and_is_not_accumulated() {
    let mut state = State::new(IntegrationTime::Ms200, Gain::Med, 60_000, 0);
    assert_eq!(calculate_lux(65535, 65535, state.gain, state.integ_time), None);
    let request = state.sample(65535, 65535);
    assert_eq!(request, Some(Gain::Low));
    assert!(state.window.quantities.iter().all(|q| q.count == 0 && q.sum == 0));
    state.settle_gain(Gain::Low, true);
    assert_eq!(state.gain, Gain::Low);
}

#[test]
fn failed_gain_push_keeps_gain() {
    let mut state = State::new(IntegrationTime::Ms200, Gain::High, 60_000, 0);
    let request = state.sample(10, 10);
    assert_eq!(request, Some(Gain::Max));
    state.settle_gain(Gain::Max, false);
    assert_eq!(state.gain, Gain::High);
    assert_eq!(state.window.quantities[0].count, 1);
}

#[test]
fn light_flush_sends_means_and_summary() {
    let (tx, rx) = async_channel::bounded(16);
    let mut out = Outbox::new(tx);
    let mut state = State::new(IntegrationTime::Ms200, Gain::Med, 60_000, 0);
    let (request, rest) = poll(&mut state, Some((1000, 100)), 1_000, &mut out);
    assert_eq!(request, None);
    assert!(rest.is_empty());
    assert!(rx.try_recv().is_err());
    let (_, rest) = poll(&mut state, Some((1000, 100)), 61_001, &mut out);
    assert!(rest.is_empty());
    let mut got = Vec::new();
    while let Ok(m) = rx.try_recv() {
        got.push(m);
    }
    let names: Vec<&str> = got.iter().map(|m| m.name.as_str()).collect();
    assert_eq!(
        names,
        vec![
            "mbr-tsl2591.lux",
            "mbr-tsl2591.full-spectrum",
            "mbr-tsl2591.infrared",
            "mbr-tsl2591.gain",
            "mbr.lux",
            "mbr.lux-db",
        ]
    );
    match got[0].value {
        MetricValue::Exact(r) => assert!((value(r) - 8.798).abs() < 1e-9),
        _ => panic!("lux is exact"),
    }
    match got[1].value {
        MetricValue::Exact(r) => assert!((value(r) - 40.0).abs() < 1e-9),
        _ => panic!("full spectrum is exact"),
    }
    match got[2].value {
        MetricValue::Exact(r) => assert!((value(r) - 4.0).abs() < 1e-9),
        _ => panic!("infrared is exact"),
    }
    assert_eq!(got[3].value, MetricValue::Exact(Ratio::whole(25)));
    assert_eq!(got[4].value, got[0].value);
    match (got[0].value, got[5].value) {
        (MetricValue::Exact(a), MetricValue::Decibels(b)) => assert_eq!(a, b),
        _ => panic!("lux in decibels"),
    }
    assert_eq!(state.window.window_start, 61_001);
    assert!(state.window.quantities.iter().all(|q| q.count == 0 && q.sum == 0));
}

#[test]
fn light_window_without_valid_samples_sends_nothing() {
    let (tx, rx) = async_channel::bounded(16);
    let mut out = Outbox::new(tx);
    let mut state = State::new(IntegrationTime::Ms200, Gain::Med, 60_000, 0);
    let (request, _) = poll(&mut state, Some((65535, 65535)), 1_000, &mut out);
    assert_eq!(request, Some(Gain::Low));
    let (_, rest) = poll(&mut state, None, 60_001, &mut out);
    assert!(rest.is_empty());
    assert!(rx.try_recv().is_err());
    assert_eq!(state.window.window_start, 60_001);
}

#[test]
fn lux_averages_across_gain_changes() {
    let (tx, rx) = async_channel::bounded(16);
    let mut out = Outbox::new(tx);
    let mut state = State::new(IntegrationTime::Ms100, Gain::Low, 10, 0);
    state.sample(100, 0);
    state.settle_gain(Gain::Max, true);
    state.sample(100, 0);
    let (_, rest) = poll(&mut state, None, 11, &mut out);
    assert!(rest.is_empty());
    let first = rx.try_recv().unwrap();
    // 53 lux at unit gain, then the same counts at gain 9876.
    let expected = (53.0 + 53.0 / 9876.0) / 2.0;
    match first.value {
        MetricValue::Exact(r) => assert!((value(r) - expected).abs() < 1e-9),
        _ => panic!("lux is exact"),
    }
}
