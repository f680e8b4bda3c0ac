//! Tests of the schema linter.

use density_graph::json::{JsonNumber, JsonValue};
use density_graph::validation::{summarize_validation, validate_asset, Severity};

fn lint_model(v: &serde_json::Value) -> JsonValue {
    match v {
        serde_json::Value::Null => JsonValue::Null,
        serde_json::Value::Bool(b) => JsonValue::Bool(*b),
        serde_json::Value::Number(n) => JsonValue::Number(JsonNumber {
            float_bits: n.as_f64().map(f64::to_bits).unwrap_or(0),
            int_val: n.as_i64(),
        }),
        serde_json::Value::String(s) => JsonValue::Text(s.clone()),
        serde_json::Value::Array(items) => {
            JsonValue::Array(items.iter().map(lint_model).collect())
        }
        serde_json::Value::Object(map) => {
            JsonValue::Object(map.iter().map(|(k, val)| (k.clone(), lint_model(val))).collect())
        }
    }
}

fn lint_doc(text: &str) -> JsonValue {
    let v: serde_json::Value = serde_json::from_str(text).expect("test document parses");
    lint_model(&v)
}

#[test]
fn valid_constant() {
    let json = lint_doc(r#"{"Type": "Constant", "Value": 1.0}"#);
    let errors = validate_asset("test.json", &json);
    assert!(errors.is_empty(), "expected no errors, got: {:?}", errors);
}

#[test]
fn missing_constant_value() {
    let json = lint_doc(r#"{"Type": "Constant"}"#);
    let errors = validate_asset("test.json", &json);
    assert_eq!(errors.len(), 1);
    assert_eq!(errors[0].field, "Value");
    assert_eq!(errors[0].severity, Severity::Error);
}

#[test]
fn invalid_octaves() {
    let json = lint_doc(r#"{"Type": "SimplexNoise2D", "Scale": 1.0, "Octaves": 0}"#);
    let errors = validate_asset("test.json", &json);
    assert!(errors.iter().any(|e| e.field == "Octaves"));
}

#[test]
fn negative_scale() {
    let json = lint_doc(r#"{"Type": "SimplexNoise2D", "Scale": -5.0}"#);
    let errors = validate_asset("test.json", &json);
    assert!(errors.iter().any(|e| e.field == "Scale"));
}

#[test]
fn unknown_type_warning() {
    let json = lint_doc(r#"{"Type": "MadeUpType"}"#);
    let errors = validate_asset("test.json", &json);
    assert!(errors.iter().any(|e| e.severity == Severity::Warning && e.field == "Type"));
}

#[test]
fn nested_validation() {
    let json = lint_doc(r#"{"Type": "Sum", "Inputs": [{"Type": "Constant"}]}"#);
    let errors = validate_asset("test.json", &json);
    // Nested Constant is missing Value
    assert!(errors.iter().any(|e| e.field == "Value"));
}

#[test]
fn valid_settings() {
    let json = lint_doc(
        r#"{"CustomConcurrency": -1, "BufferCapacityFactor": 0.3, "TargetViewDistance": 512.0}"#,
    );
    let errors = validate_asset("Settings/Settings.json", &json);
    assert!(errors.is_empty(), "expected no errors, got: {:?}", errors);
}

#[test]
fn invalid_settings_concurrency() {
    let json = lint_doc(r#"{"CustomConcurrency": -5, "BufferCapacityFactor": 0.3}"#);
    let errors = validate_asset("Settings/Settings.json", &json);
    assert!(errors.iter().any(|e| e.field == "CustomConcurrency"));
}

#[test]
fn non_object_root_is_error() {
    let errors = validate_asset("test.json", &lint_doc("[1, 2]"));
    assert_eq!(errors.len(), 1);
    assert_eq!(errors[0].message, "Root value must be a JSON object");
    assert_eq!(errors[0].severity, Severity::Error);
    assert_eq!(errors[0].field, "");
}

#[test]
fn missing_type_in_density_path() {
    let errors = validate_asset("Density/base.json", &lint_doc(r#"{"Value": 1.0}"#));
    assert_eq!(errors.len(), 1);
    assert_eq!(errors[0].field, "Type");
    assert_eq!(errors[0].message, "Missing required 'Type' field");
    let none = validate_asset("Biomes/base.json", &lint_doc(r#"{"Value": 1.0}"#));
    assert!(none.is_empty());
}

#[test]
fn unknown_type_message_names_the_tag() {
    let errors = validate_asset("test.json", &lint_doc(r#"{"Type": "MadeUpType"}"#));
    assert_eq!(errors.len(), 1);
    assert_eq!(errors[0].message, "Unknown type 'MadeUpType' - not a recognized V2 type");
}

#[test]
fn short_inputs_array_warns_with_count() {
    let errors = validate_asset(
        "test.json",
        &lint_doc(r#"{"Type": "Sum", "Inputs": [{"Type": "Constant", "Value": 1.0}]}"#),
    );
    assert!(errors.iter().any(|e| e.field == "Inputs"
        && e.severity == Severity::Warning
        && e.message == "'Inputs' should have at least 2 items (got 1)"));
}

#[test]
fn missing_inputs_array_warns() {
    let errors = validate_asset("test.json", &lint_doc(r#"{"Type": "Min"}"#));
    assert!(errors.iter().any(|e| e.field == "Inputs"
        && e.severity == Severity::Warning
        && e.message == "Missing required field 'Inputs'"));
}

#[test]
fn octaves_error_carries_values() {
    let errors = validate_asset(
        "test.json",
        &lint_doc(r#"{"Type": "SimplexNoise2D", "Scale": 1.0, "Octaves": -3}"#),
    );
    assert!(errors.iter().any(|e| e.message == "'Octaves' must be >= 1 (got -3)"));
}

#[test]
fn nested_paths_name_the_route() {
    let errors = validate_asset(
        "pack/Density/base.json",
        &lint_doc(
            r#"{"Type": "Sum", "Inputs": [
                {"Type": "Constant", "Value": 1.0},
                {"Type": "Constant"}
            ]}"#,
        ),
    );
    let nested: Vec<_> = errors.iter().filter(|e| e.field == "Value").collect();
    assert_eq!(nested.len(), 1);
    assert_eq!(nested[0].file, "pack/Density/base.json > Inputs[1]");
}

#[test]
fn nested_object_field_is_followed() {
    let errors = validate_asset(
        "test.json",
        &lint_doc(r#"{"Type": "Gradient", "FromY": 0.0, "ToY": 128.0, "Extra": {"Type": "Constant"}}"#),
    );
    assert!(errors.iter().any(|e| e.field == "Value" && e.file == "test.json > Extra"));
}

#[test]
fn noise_range_biomes_rules() {
    let empty = validate_asset(
        "WorldStructures/main.json",
        &lint_doc(r#"{"Type": "NoiseRange", "DefaultBiome": "plains", "Biomes": []}"#),
    );
    assert!(empty.iter().any(|e| e.field == "Biomes"
        && e.message == "Biomes array should not be empty"));
    let missing = validate_asset(
        "WorldStructures/main.json",
        &lint_doc(r#"{"Type": "NoiseRange", "DefaultBiome": "plains", "Biomes": [{"Weight": 1}]}"#),
    );
    assert!(missing.iter().any(|e| e.field == "Biomes[0].Biome"
        && e.message == "Biome entry missing 'Biome' field"));
}

#[test]
fn settings_positive_checks() {
    let errors = validate_asset(
        "Settings/Settings.json",
        &lint_doc(r#"{"BufferCapacityFactor": 0.0, "TargetViewDistance": -2.0}"#),
    );
    assert!(errors.iter().any(|e| e.message == "BufferCapacityFactor must be > 0"));
    assert!(errors.iter().any(|e| e.message == "TargetViewDistance must be > 0"));
}

#[test]
fn summary_reflects_findings() {
    let errors = validate_asset("test.json", &lint_doc(r#"{"Type": "Constant"}"#));
    let summary = summarize_validation(errors, 3);
    assert!(!summary.valid);
    assert_eq!(summary.files_checked, 3);
    assert_eq!(summary.errors.len(), 1);
    let clean = summarize_validation(Vec::new(), 7);
    assert!(clean.valid);
    assert_eq!(clean.errors.len(), 0);
}
