use metrics_pipeline::metric::{MetricValue, Ratio};
use metrics_pipeline::weather::{current_metrics, Conditions};

#[test]
fn report_without_timestamp_gives_nothing() {
    let c = Conditions { utc_timestamp: 0, temperature: 12_500, humidity: 60, pressure: 1013 };
    assert!(current_metrics(c).is_empty());
}

#[test]
fn report_gives_temperature_humidity_and_pressure() {
    let c = Conditions {
        utc_timestamp: 1_650_000_000,
        temperature: -3_250,
        humidity: 81,
        pressure: 1009,
    };
    let got = current_metrics(c);
    let names: Vec<&str> = got.iter().map(|m| m.name.as_str()).collect();
    assert_eq!(names, vec!["weather.temp", "weather.humidity", "weather.pressure"]);
    assert_eq!(got[0].value, MetricValue::Exact(Ratio::new(-3_250, 1000)));
    assert_eq!(got[1].value, MetricValue::Exact(Ratio::whole(81)));
    assert_eq!(got[2].value, MetricValue::Exact(Ratio::whole(1009)));
}
