//! Tests of the bit-level numeric model and the text helpers.

use density_graph::fbits::{
    abs_bits, clamp_bits, is_nan_bits, is_zero_bits, le_bits, lt_bits, max_bits, BITS_EPSILON,
    BITS_HALF, BITS_MILLI, BITS_NEG_ONE, BITS_ONE, BITS_POS_ZERO, BITS_TWO,
};
use density_graph::text::{i64_to_string, str_contains, str_eq, u64_to_string};

fn sample_values() -> Vec<f64> {
    vec![
        0.0,
        -0.0,
        1.0,
        -1.0,
        0.5,
        2.0,
        0.001,
        f64::EPSILON,
        1e-308,
        -1e-308,
        1e308,
        -1e308,
        f64::INFINITY,
        f64::NEG_INFINITY,
        f64::NAN,
        3.25,
        -7.75,
        f64::MIN_POSITIVE,
    ]
}

#[test]
fn named_constants_match_hardware() {
    assert_eq!(BITS_POS_ZERO, 0.0f64.to_bits());
    assert_eq!(BITS_ONE, 1.0f64.to_bits());
    assert_eq!(BITS_TWO, 2.0f64.to_bits());
    assert_eq!(BITS_HALF, 0.5f64.to_bits());
    assert_eq!(BITS_NEG_ONE, (-1.0f64).to_bits());
    assert_eq!(BITS_MILLI, 0.001f64.to_bits());
    assert_eq!(BITS_EPSILON, f64::EPSILON.to_bits());
}

#[test]
fn comparisons_match_hardware() {
    for &a in &sample_values() {
        assert_eq!(is_nan_bits(a.to_bits()), a.is_nan(), "is_nan on {}", a);
        assert_eq!(is_zero_bits(a.to_bits()), a == 0.0 || a == -0.0, "is_zero on {}", a);
        assert_eq!(abs_bits(a.to_bits()), a.abs().to_bits(), "abs on {}", a);
        for &b in &sample_values() {
            assert_eq!(lt_bits(a.to_bits(), b.to_bits()), a < b, "lt on {} {}", a, b);
            assert_eq!(le_bits(a.to_bits(), b.to_bits()), a <= b, "le on {} {}", a, b);
        }
    }
}

#[test]
fn clamp_matches_hardware() {
    let walls = vec![(-1.0f64, 1.0f64), (0.0, 0.0), (2.5, 7.0), (-9.0, -3.0)];
    for &(lo, hi) in &walls {
        for &v in &sample_values() {
            let got = clamp_bits(v.to_bits(), lo.to_bits(), hi.to_bits());
            assert_eq!(got, v.clamp(lo, hi).to_bits(), "clamp {} into [{}, {}]", v, lo, hi);
        }
    }
}

#[test]
fn max_against_positive_constant_matches_hardware() {
    for &v in &sample_values() {
        let got = max_bits(v.to_bits(), 0.001f64.to_bits());
        assert_eq!(got, v.max(0.001).to_bits(), "max({}, 0.001)", v);
    }
}

#[test]
fn decimal_rendering() {
    assert_eq!(u64_to_string(0), "0");
    assert_eq!(u64_to_string(7), "7");
    assert_eq!(u64_to_string(12345), "12345");
    assert_eq!(u64_to_string(u64::MAX), format!("{}", u64::MAX));
    assert_eq!(i64_to_string(0), "0");
    assert_eq!(i64_to_string(-1), "-1");
    assert_eq!(i64_to_string(-42), "-42");
    assert_eq!(i64_to_string(i64::MIN), format!("{}", i64::MIN));
    assert_eq!(i64_to_string(i64::MAX), format!("{}", i64::MAX));
}

#[test]
fn string_search() {
    assert!(str_eq("abc", "abc"));
    assert!(!str_eq("abc", "abd"));
    assert!(!str_eq("abc", "abcd"));
    assert!(str_contains("Settings/Settings.json", "Settings"));
    assert!(str_contains("pack/Density/base.json", "Density"));
    assert!(!str_contains("Biomes/base.json", "Density"));
    assert!(str_contains("anything", ""));
    assert!(!str_contains("ab", "abc"));
}
