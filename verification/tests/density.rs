//! End-to-end tests of the graph builder and evaluator.

use density_graph::evaluator::DensityEvaluator;
use density_graph::json::{JsonNumber, JsonValue};
use density_graph::nodes::seed_hash;

fn doc_model(v: &serde_json::Value) -> JsonValue {
    match v {
        serde_json::Value::Null => JsonValue::Null,
        serde_json::Value::Bool(b) => JsonValue::Bool(*b),
        serde_json::Value::Number(n) => JsonValue::Number(JsonNumber {
            float_bits: n.as_f64().map(f64::to_bits).unwrap_or(0),
            int_val: n.as_i64(),
        }),
        serde_json::Value::String(s) => JsonValue::Text(s.clone()),
        serde_json::Value::Array(items) => JsonValue::Array(items.iter().map(doc_model).collect()),
        serde_json::Value::Object(map) => {
            JsonValue::Object(map.iter().map(|(k, val)| (k.clone(), doc_model(val))).collect())
        }
    }
}

fn doc(text: &str) -> JsonValue {
    let v: serde_json::Value = serde_json::from_str(text).expect("test document parses");
    doc_model(&v)
}

fn eval_at(ev: &DensityEvaluator, x: f64, y: f64, z: f64) -> f64 {
    f64::from_bits(ev.evaluate(x.to_bits(), y.to_bits(), z.to_bits()))
}

#[test]
fn constant_evaluates_exactly() {
    let ev = DensityEvaluator::from_json(&doc(r#"{"Type": "Constant", "Value": 42.5}"#)).unwrap();
    assert_eq!(eval_at(&ev, 0.0, 0.0, 0.0).to_bits(), 42.5f64.to_bits());
    assert_eq!(eval_at(&ev, -812.25, 64.0, 9000.125).to_bits(), 42.5f64.to_bits());
}

#[test]
fn constant_defaults_to_zero() {
    let ev = DensityEvaluator::from_json(&doc(r#"{"Type": "Constant"}"#)).unwrap();
    assert_eq!(eval_at(&ev, 1.0, 2.0, 3.0), 0.0);
}

#[test]
fn build_rejects_non_object() {
    let err = DensityEvaluator::from_json(&doc("[1, 2, 3]")).err().unwrap();
    assert_eq!(err, "Density node must be a JSON object");
    let err = DensityEvaluator::from_json(&doc("3.5")).err().unwrap();
    assert_eq!(err, "Density node must be a JSON object");
}

#[test]
fn build_rejects_missing_type() {
    let err = DensityEvaluator::from_json(&doc(r#"{"Foo": 1}"#)).err().unwrap();
    assert_eq!(err, "Missing 'Type' field");
    let err = DensityEvaluator::from_json(&doc(r#"{"Type": 17}"#)).err().unwrap();
    assert_eq!(err, "Missing 'Type' field");
}

#[test]
fn build_rejects_bad_nested_input() {
    let err = DensityEvaluator::from_json(&doc(r#"{"Type": "Sum", "Inputs": [1]}"#))
        .err()
        .unwrap();
    assert_eq!(err, "Density node must be a JSON object");
}

#[test]
fn unknown_type_evaluates_zero() {
    let ev = DensityEvaluator::from_json(&doc(r#"{"Type": "NotARealType"}"#)).unwrap();
    assert_eq!(eval_at(&ev, 0.0, 0.0, 0.0), 0.0);
    assert_eq!(eval_at(&ev, 15.5, -3.0, 77.0), 0.0);
}

#[test]
fn sum_of_two_constants() {
    let ev = DensityEvaluator::from_json(&doc(
        r#"{"Type": "Sum", "Inputs": [
            {"Type": "Constant", "Value": 1.0},
            {"Type": "Constant", "Value": 2.0}
        ]}"#,
    ))
    .unwrap();
    assert_eq!(eval_at(&ev, 0.0, 0.0, 0.0), 3.0);
}

#[test]
fn sum_folds_left_to_right() {
    let ev = DensityEvaluator::from_json(&doc(
        r#"{"Type": "Sum", "Inputs": [
            {"Type": "Constant", "Value": 3.5},
            {"Type": "Constant", "Value": 0.25},
            {"Type": "Constant", "Value": -1.125}
        ]}"#,
    ))
    .unwrap();
    let expected = ((0.0f64 + 3.5) + 0.25) + -1.125;
    assert_eq!(eval_at(&ev, 4.0, 5.0, 6.0).to_bits(), expected.to_bits());
}

#[test]
fn sum_of_nothing_is_zero() {
    let ev = DensityEvaluator::from_json(&doc(r#"{"Type": "Sum"}"#)).unwrap();
    assert_eq!(eval_at(&ev, 1.0, 1.0, 1.0), 0.0);
}

#[test]
fn clamp_saturates_both_sides() {
    let over = DensityEvaluator::from_json(&doc(
        r#"{"Type": "Clamp", "WallA": -1.0, "WallB": 1.0,
            "Inputs": [{"Type": "Constant", "Value": 5.0}]}"#,
    ))
    .unwrap();
    assert_eq!(eval_at(&over, 0.0, 0.0, 0.0), 1.0);
    let under = DensityEvaluator::from_json(&doc(
        r#"{"Type": "Clamp", "WallA": -1.0, "WallB": 1.0,
            "Inputs": [{"Type": "Constant", "Value": -7.5}]}"#,
    ))
    .unwrap();
    assert_eq!(eval_at(&under, 0.0, 0.0, 0.0), -1.0);
    let inside = DensityEvaluator::from_json(&doc(
        r#"{"Type": "Clamp", "WallA": -1.0, "WallB": 1.0,
            "Inputs": [{"Type": "Constant", "Value": 0.375}]}"#,
    ))
    .unwrap();
    assert_eq!(eval_at(&inside, 0.0, 0.0, 0.0).to_bits(), 0.375f64.to_bits());
}

#[test]
fn clamp_without_input_clamps_zero() {
    let ev = DensityEvaluator::from_json(&doc(r#"{"Type": "Clamp", "WallA": 0.25, "WallB": 1.0}"#))
        .unwrap();
    assert_eq!(eval_at(&ev, 0.0, 0.0, 0.0).to_bits(), 0.25f64.to_bits());
}

#[test]
fn normalizer_remaps_exactly() {
    let ev = DensityEvaluator::from_json(&doc(
        r#"{"Type": "Normalizer", "FromMin": 0.0, "FromMax": 10.0, "ToMin": 0.0, "ToMax": 1.0,
            "Inputs": [{"Type": "Constant", "Value": 2.5}]}"#,
    ))
    .unwrap();
    let expected: f64 = 0.0 + ((2.5 - 0.0) / (10.0 - 0.0)) * (1.0 - 0.0);
    assert_eq!(eval_at(&ev, 0.0, 0.0, 0.0).to_bits(), expected.to_bits());
}

#[test]
fn normalizer_identity_round_trip() {
    let ev = DensityEvaluator::from_json(&doc(
        r#"{"Type": "Normalizer", "FromMin": -1.0, "FromMax": 1.0, "ToMin": -1.0, "ToMax": 1.0,
            "Inputs": [{"Type": "Constant", "Value": 0.3}]}"#,
    ))
    .unwrap();
    let got = eval_at(&ev, 0.0, 0.0, 0.0);
    assert!((got - 0.3).abs() < 1e-12, "round trip drifted: {}", got);
}

#[test]
fn normalizer_degenerate_range_yields_to_min() {
    let ev = DensityEvaluator::from_json(&doc(
        r#"{"Type": "Normalizer", "FromMin": 5.0, "FromMax": 5.0, "ToMin": 0.25, "ToMax": 9.0,
            "Inputs": [{"Type": "Constant", "Value": 123.0}]}"#,
    ))
    .unwrap();
    assert_eq!(eval_at(&ev, 0.0, 0.0, 0.0).to_bits(), 0.25f64.to_bits());
}

#[test]
fn normalizer_defaults_remap_unit_range() {
    // default source [-1, 1], target [0, 1]: a zero child lands in the middle
    let ev = DensityEvaluator::from_json(&doc(r#"{"Type": "Normalizer"}"#)).unwrap();
    assert_eq!(eval_at(&ev, 0.0, 0.0, 0.0).to_bits(), 0.5f64.to_bits());
}

#[test]
fn seed_hash_matches_reference() {
    let expected = "main"
        .bytes()
        .fold(0i32, |acc, b| acc.wrapping_mul(31).wrapping_add(b as i32));
    assert_eq!(seed_hash("main"), expected);
    assert_eq!(seed_hash(""), 0);
    let long = "the quick brown fox";
    let expected_long = long
        .bytes()
        .fold(0i32, |acc, b| acc.wrapping_mul(31).wrapping_add(b as i32));
    assert_eq!(seed_hash(long), expected_long);
}

#[test]
fn noise_matches_reference_pipeline() {
    let ev = DensityEvaluator::from_json(&doc(
        r#"{"Type": "SimplexNoise2D", "Scale": 250.0, "Octaves": 3,
            "Lacunarity": 2.0, "Persistence": 0.5, "Seed": "main"}"#,
    ))
    .unwrap();
    let (x, y, z) = (123.45f64, 7.0f64, -67.89f64);
    let got = eval_at(&ev, x, y, z);

    let seed = "main"
        .bytes()
        .fold(0i32, |acc, b| acc.wrapping_mul(31).wrapping_add(b as i32));
    let mut g = fastnoise_lite::FastNoiseLite::new();
    g.set_noise_type(Some(fastnoise_lite::NoiseType::OpenSimplex2));
    g.set_seed(Some(seed));
    g.set_frequency(Some((1.0 / 250.0f64.max(0.001)) as f32));
    let mut value = 0.0f64;
    let mut amplitude = 1.0f64;
    let mut frequency = 1.0 / 250.0f64.max(0.001);
    let mut max_amp = 0.0f64;
    for _ in 0..3 {
        let nx = (x * frequency) as f32;
        let nz = (z * frequency) as f32;
        value += g.get_noise_2d(nx, nz) as f64 * amplitude;
        max_amp += amplitude;
        amplitude *= 0.5;
        frequency *= 2.0;
    }
    let expected = if max_amp > 0.0 { value / max_amp } else { 0.0 };
    assert_eq!(got.to_bits(), expected.to_bits());
}

#[test]
fn noise_is_deterministic() {
    let text = r#"{"Type": "SimplexNoise2D", "Scale": 64.0, "Octaves": 2, "Seed": "world-7"}"#;
    let a = DensityEvaluator::from_json(&doc(text)).unwrap();
    let b = DensityEvaluator::from_json(&doc(text)).unwrap();
    let first = eval_at(&a, 10.0, 0.0, -4.0);
    assert_eq!(first.to_bits(), eval_at(&a, 10.0, 0.0, -4.0).to_bits());
    assert_eq!(first.to_bits(), eval_at(&b, 10.0, 0.0, -4.0).to_bits());
}

#[test]
fn noise_ignores_y() {
    let ev = DensityEvaluator::from_json(&doc(
        r#"{"Type": "SimplexNoise2D", "Scale": 32.0, "Octaves": 4, "Seed": "column"}"#,
    ))
    .unwrap();
    let at_ground = eval_at(&ev, 5.5, 0.0, 8.25);
    assert_eq!(at_ground.to_bits(), eval_at(&ev, 5.5, 320.0, 8.25).to_bits());
    assert_eq!(at_ground.to_bits(), eval_at(&ev, 5.5, -1e9, 8.25).to_bits());
}

#[test]
fn noise_zero_octaves_is_zero() {
    let ev = DensityEvaluator::from_json(&doc(
        r#"{"Type": "SimplexNoise2D", "Scale": 16.0, "Octaves": 0}"#,
    ))
    .unwrap();
    assert_eq!(eval_at(&ev, 3.0, 0.0, 4.0), 0.0);
}

#[test]
fn composite_graph_stays_finite() {
    let ev = DensityEvaluator::from_json(&doc(
        r#"{"Type": "Normalizer", "FromMin": -1.0, "FromMax": 1.0, "ToMin": 0.0, "ToMax": 128.0,
            "Inputs": [{"Type": "Clamp", "WallA": -1.0, "WallB": 1.0, "Inputs": [
                {"Type": "Sum", "Inputs": [
                    {"Type": "SimplexNoise2D", "Scale": 100.0, "Octaves": 3, "Seed": "hills"},
                    {"Type": "Constant", "Value": 0.1}
                ]}
            ]}]}"#,
    ))
    .unwrap();
    for step in 0..20 {
        let x = (step as f64) * 13.5 - 100.0;
        let z = (step as f64) * -7.25 + 50.0;
        let v = eval_at(&ev, x, 0.0, z);
        assert!(v.is_finite(), "not finite at ({}, {}): {}", x, z, v);
        assert!((0.0..=128.0).contains(&v), "out of range at ({}, {}): {}", x, z, v);
    }
}

#[test]
fn octaves_count_is_truncated_to_32_bits() {
    // 2^32 + 2 truncates to 2 in the node's 32-bit octave count
    let wide = DensityEvaluator::from_json(&doc(
        r#"{"Type": "SimplexNoise2D", "Scale": 40.0, "Octaves": 4294967298, "Seed": "t"}"#,
    ))
    .unwrap();
    let narrow = DensityEvaluator::from_json(&doc(
        r#"{"Type": "SimplexNoise2D", "Scale": 40.0, "Octaves": 2, "Seed": "t"}"#,
    ))
    .unwrap();
    let a = eval_at(&wide, 9.0, 0.0, -2.5);
    let b = eval_at(&narrow, 9.0, 0.0, -2.5);
    assert_eq!(a.to_bits(), b.to_bits());
}

#[test]
fn non_string_seed_defaults_to_empty() {
    let with_number = DensityEvaluator::from_json(&doc(
        r#"{"Type": "SimplexNoise2D", "Scale": 40.0, "Octaves": 1, "Seed": 5}"#,
    ))
    .unwrap();
    let with_empty = DensityEvaluator::from_json(&doc(
        r#"{"Type": "SimplexNoise2D", "Scale": 40.0, "Octaves": 1, "Seed": ""}"#,
    ))
    .unwrap();
    let a = eval_at(&with_number, 3.0, 0.0, 4.0);
    let b = eval_at(&with_empty, 3.0, 0.0, 4.0);
    assert_eq!(a.to_bits(), b.to_bits());
}

#[test]
fn noise_parameter_defaults() {
    // omitted parameters default to lacunarity 2.0, persistence 0.5,
    // scale 1.0, octaves 1, seed ""
    let defaulted = DensityEvaluator::from_json(&doc(
        r#"{"Type": "SimplexNoise2D", "Octaves": 3, "Scale": 20.0}"#,
    ))
    .unwrap();
    let explicit = DensityEvaluator::from_json(&doc(
        r#"{"Type": "SimplexNoise2D", "Octaves": 3, "Scale": 20.0,
            "Lacunarity": 2.0, "Persistence": 0.5, "Seed": ""}"#,
    ))
    .unwrap();
    let a = eval_at(&defaulted, 31.0, 0.0, -8.5);
    let b = eval_at(&explicit, 31.0, 0.0, -8.5);
    assert_eq!(a.to_bits(), b.to_bits());
}

#[test]
fn clamp_wall_defaults() {
    // omitted walls default to [0, 1]
    let ev = DensityEvaluator::from_json(&doc(
        r#"{"Type": "Clamp", "Inputs": [{"Type": "Constant", "Value": 5.0}]}"#,
    ))
    .unwrap();
    assert_eq!(eval_at(&ev, 0.0, 0.0, 0.0), 1.0);
    let low = DensityEvaluator::from_json(&doc(
        r#"{"Type": "Clamp", "Inputs": [{"Type": "Constant", "Value": -5.0}]}"#,
    ))
    .unwrap();
    assert_eq!(eval_at(&low, 0.0, 0.0, 0.0), 0.0);
}
