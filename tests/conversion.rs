use metrics_pipeline::conversion::{celsius_to_fahrenheit, celsius_to_kelvin, hpa_to_inhg};
use metrics_pipeline::metric::Ratio;

fn value(r: Ratio) -> f64 {
    r.num as f64 / r.den as f64
}

#[test]
fn c_to_f_works() {
    assert_eq!(68.0, value(celsius_to_fahrenheit(Ratio::whole(20))));
}

#[test]
fn c_to_k_works() {
    assert_eq!(293.15, value(celsius_to_kelvin(Ratio::whole(20))));
}

#[test]
fn hpa_to_inhg_works() {
    assert_eq!(29.9, (value(hpa_to_inhg(Ratio::new(101325, 100))) * 10.0).round() / 10.0);
}

#[test]
fn fahrenheit_of_a_fraction_is_exact() {
    // 21.5 degrees Celsius is 70.7 degrees Fahrenheit.
    let f = celsius_to_fahrenheit(Ratio::new(215, 10));
    assert_eq!(f.num, 9 * 215 + 160 * 10);
    assert_eq!(f.den, 50);
    assert!((value(f) - 70.7).abs() < 1e-12);
}

#[test]
fn freezing_point_in_kelvin() {
    let k = celsius_to_kelvin(Ratio::whole(0));
    assert_eq!((k.num, k.den), (27315, 100));
}
