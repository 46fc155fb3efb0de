//! Exact unit conversions on rational values.
use crate::metric::Ratio;
use vstd::prelude::*;

verus! {

/// `celsius * 9 / 5 + 32`, over the denominator `5 * celsius.den`.
pub open spec fn spec_fahrenheit(celsius: Ratio) -> Ratio {
    Ratio {
        num: (9 * celsius.num + 160 * celsius.den) as i128,
        den: (5 * celsius.den) as u128,
    }
}

/// `celsius * 9 / 5 + 32`.
pub fn celsius_to_fahrenheit(celsius: Ratio) -> (r: Ratio)
    requires
        celsius.bounded(),
    ensures
        r == spec_fahrenheit(celsius),
        r.num == 9 * celsius.num + 160 * celsius.den,
        r.den == 5 * celsius.den,
{
    Ratio { num: 9 * celsius.num + 160 * (celsius.den as i128), den: 5 * celsius.den }
}

/// `celsius + 273.15`.
pub fn celsius_to_kelvin(celsius: Ratio) -> (r: Ratio)
    requires
        celsius.bounded(),
    ensures
        r.num == 100 * celsius.num + 27315 * celsius.den,
        r.den == 100 * celsius.den,
{
    Ratio { num: 100 * celsius.num + 27315 * (celsius.den as i128), den: 100 * celsius.den }
}

/// Hectopascals to inches of mercury: `hpa / 33.863888`.
pub fn hpa_to_inhg(hpa: Ratio) -> (r: Ratio)
    requires
        hpa.bounded(),
    ensures
        r.num == 1_000_000 * hpa.num,
        r.den == 33_863_888 * hpa.den,
{
    Ratio { num: 1_000_000 * hpa.num, den: 33_863_888 * hpa.den }
}

} // verus!
