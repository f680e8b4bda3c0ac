//! The schema linter: checks parsed JSON documents against the known node
//! type names and their per-type field rules, reporting findings without
//! building anything.
//!
//! The model of one finding is [`ErrV`]; what the linter reports for a
//! document is written down by [`spec_validate`], and the executable
//! [`validate_asset`] is proved to report exactly that.

use vstd::prelude::*;

use crate::fbits::{le_bits, spec_le, BITS_POS_ZERO};
use crate::json::{get_field, has_field, spec_get, JsonValue};
use crate::text::{i64_to_string, spec_idec, spec_str_contains, spec_udec, str_contains, str_eq, u64_to_string};
use vstd::string::StrSliceExecFns;
use vstd::string::StringExecFns;

verus! {

broadcast use vstd::std_specs::vec::group_vec_axioms;

/// Severity level for validation findings.
#[derive(Debug, Clone, PartialEq, Eq, Structural)]
pub enum Severity {
    Error,
    Warning,
    Info,
}

/// A single validation finding.
#[derive(Debug, Clone)]
pub struct ValidationError {
    pub file: String,
    pub field: String,
    pub message: String,
    pub severity: Severity,
}

/// Result of validating an asset pack.
#[derive(Debug, Clone)]
pub struct ValidationResult {
    pub valid: bool,
    pub errors: Vec<ValidationError>,
    pub files_checked: usize,
}

/// The model of a finding: its strings as character sequences.
pub struct ErrV {
    pub file: Seq<char>,
    pub field: Seq<char>,
    pub message: Seq<char>,
    pub severity: Severity,
}

impl View for ValidationError {
    type V = ErrV;

    open spec fn view(&self) -> ErrV {
        ErrV {
            file: self.file@,
            field: self.field@,
            message: self.message@,
            severity: self.severity,
        }
    }
}

/// The models of a list of findings, in order.
pub open spec fn view_errs(errs: Seq<ValidationError>) -> Seq<ErrV>
    decreases errs,
{
    if errs.len() == 0 {
        Seq::empty()
    } else {
        view_errs(errs.drop_last()).push(errs.last()@)
    }
}

/// Appending one finding appends its model.
pub proof fn lemma_view_errs_push(errs: Seq<ValidationError>, e: ValidationError)
    ensures
        view_errs(errs.push(e)) == view_errs(errs).push(e@),
{
    assert(errs.push(e).drop_last() =~= errs);
}

/// The model of a concatenation is the concatenation of the models.
pub proof fn lemma_view_errs_concat(a: Seq<ValidationError>, b: Seq<ValidationError>)
    ensures
        view_errs(a + b) == view_errs(a) + view_errs(b),
    decreases b.len(),
{
    if b.len() == 0 {
        assert(a + b =~= a);
        assert(view_errs(a) + view_errs(b) =~= view_errs(a));
    } else {
        lemma_view_errs_concat(a, b.drop_last());
        assert((a + b).drop_last() =~= a + b.drop_last());
        assert(view_errs(a) + view_errs(b.drop_last()).push(b.last()@) =~= (view_errs(a)
            + view_errs(b.drop_last())).push(b.last()@));
        assert(view_errs(b.drop_last()).push(b.last()@) =~= view_errs(b));
    }
}

/// One finding, as a model value.
pub open spec fn spec_err(
    file: Seq<char>,
    field: Seq<char>,
    message: Seq<char>,
    severity: Severity,
) -> ErrV {
    ErrV { file, field, message, severity }
}

/// Builds one finding.
fn mk_err(file: &str, field: String, message: String, severity: Severity) -> (r: ValidationError)
    ensures
        r@ == spec_err(file@, field@, message@, severity),
{
    ValidationError { file: file.to_owned(), field, message, severity }
}

/// The findings of the rule: `name` must be present.
pub open spec fn spec_required_field(
    path: Seq<char>,
    fields: Seq<(String, JsonValue)>,
    name: Seq<char>,
) -> Seq<ErrV> {
    if spec_get(fields, name) is Some {
        Seq::empty()
    } else {
        seq![
            spec_err(
                path,
                name,
                "Missing required field '"@ + name + "'"@,
                Severity::Error,
            ),
        ]
    }
}

/// Checks that `name` is present, reporting an error otherwise.
pub fn validate_required_field(
    file_path: &str,
    fields: &Vec<(String, JsonValue)>,
    name: &str,
    errors: &mut Vec<ValidationError>,
)
    ensures
        view_errs(final(errors)@) == view_errs(old(errors)@) + spec_required_field(
            file_path@,
            fields@,
            name@,
        ),
{
    if !has_field(fields, name) {
        let mut message = "Missing required field '".to_owned();
        message.append(name);
        message.append("'");
        let e = mk_err(file_path, name.to_owned(), message, Severity::Error);
        proof {
            lemma_view_errs_push(errors@, e);
        }
        errors.push(e);
        proof {
            assert(view_errs(errors@) =~= view_errs(old(errors)@) + spec_required_field(
                file_path@,
                fields@,
                name@,
            ));
        }
    } else {
        proof {
            assert(view_errs(errors@) =~= view_errs(old(errors)@) + spec_required_field(
                file_path@,
                fields@,
                name@,
            ));
        }
    }
}

/// The findings of the rule: when `name` carries a number, it must be
/// strictly positive.
pub open spec fn spec_positive_field(
    path: Seq<char>,
    fields: Seq<(String, JsonValue)>,
    name: Seq<char>,
) -> Seq<ErrV> {
    match spec_get(fields, name) {
        Some(v) => match v {
            JsonValue::Number(n) => {
                if spec_le(n.float_bits, BITS_POS_ZERO) {
                    seq![
                        spec_err(
                            path,
                            name,
                            "'"@ + name + "' must be > 0"@,
                            Severity::Error,
                        ),
                    ]
                } else {
                    Seq::empty()
                }
            },
            _ => Seq::empty(),
        },
        None => Seq::empty(),
    }
}

/// Checks that `name`, when it carries a number, is strictly positive.
pub fn validate_positive_field(
    file_path: &str,
    fields: &Vec<(String, JsonValue)>,
    name: &str,
    errors: &mut Vec<ValidationError>,
)
    ensures
        view_errs(final(errors)@) == view_errs(old(errors)@) + spec_positive_field(
            file_path@,
            fields@,
            name@,
        ),
{
    let mut bad: bool = false;
    match get_field(fields, name) {
        Some(JsonValue::Number(n)) => {
            if le_bits(n.float_bits, BITS_POS_ZERO) {
                bad = true;
            }
        },
        _ => {},
    }
    if bad {
        let mut message = "'".to_owned();
        message.append(name);
        message.append("' must be > 0");
        let e = mk_err(file_path, name.to_owned(), message, Severity::Error);
        proof {
            lemma_view_errs_push(errors@, e);
        }
        errors.push(e);
    }
    proof {
        assert(view_errs(final(errors)@) =~= view_errs(old(errors)@) + spec_positive_field(
            file_path@,
            fields@,
            name@,
        ));
    }
}

/// The findings of the rule: `name` must be present, and when it carries an
/// array, the array must have at least `min_len` items.
pub open spec fn spec_min_array_length(
    path: Seq<char>,
    fields: Seq<(String, JsonValue)>,
    name: Seq<char>,
    min_len: int,
) -> Seq<ErrV> {
    match spec_get(fields, name) {
        Some(v) => match v {
            JsonValue::Array(elems) => {
                if elems@.len() < min_len {
                    seq![
                        spec_err(
                            path,
                            name,
                            "'"@ + name + "' should have at least "@ + spec_udec(min_len)
                                + " items (got "@ + spec_udec(elems@.len() as int) + ")"@,
                            Severity::Warning,
                        ),
                    ]
                } else {
                    Seq::empty()
                }
            },
            _ => Seq::empty(),
        },
        None => seq![
            spec_err(
                path,
                name,
                "Missing required field '"@ + name + "'"@,
                Severity::Warning,
            ),
        ],
    }
}

/// Checks that `name` is present and, when it carries an array, that the
/// array has at least `min_len` items.
pub fn validate_min_array_length(
    file_path: &str,
    fields: &Vec<(String, JsonValue)>,
    name: &str,
    min_len: usize,
    errors: &mut Vec<ValidationError>,
)
    ensures
        view_errs(final(errors)@) == view_errs(old(errors)@) + spec_min_array_length(
            file_path@,
            fields@,
            name@,
            min_len as int,
        ),
{
    match get_field(fields, name) {
        Some(JsonValue::Array(elems)) => {
            if elems.len() < min_len {
                let mut message = "'".to_owned();
                message.append(name);
                message.append("' should have at least ");
                message.append(u64_to_string(min_len as u64).as_str());
                message.append(" items (got ");
                message.append(u64_to_string(elems.len() as u64).as_str());
                message.append(")");
                let e = mk_err(file_path, name.to_owned(), message, Severity::Warning);
                proof {
                    lemma_view_errs_push(errors@, e);
                }
                errors.push(e);
            }
        },
        Some(_) => {},
        None => {
            let mut message = "Missing required field '".to_owned();
            message.append(name);
            message.append("'");
            let e = mk_err(file_path, name.to_owned(), message, Severity::Warning);
            proof {
                lemma_view_errs_push(errors@, e);
            }
            errors.push(e);
        },
    }
    proof {
        assert(view_errs(final(errors)@) =~= view_errs(old(errors)@) + spec_min_array_length(
            file_path@,
            fields@,
            name@,
            min_len as int,
        ));
    }
}

/// The findings of the rule: when `name` carries an integer, it must be at
/// least `min`.
pub open spec fn spec_min_int_field(
    path: Seq<char>,
    fields: Seq<(String, JsonValue)>,
    name: Seq<char>,
    min: i64,
) -> Seq<ErrV> {
    match spec_get(fields, name) {
        Some(v) => match v {
            JsonValue::Number(n) => match n.int_val {
                Some(value) => {
                    if value < min {
                        seq![
                            spec_err(
                                path,
                                name,
                                "'"@ + name + "' must be >= "@ + spec_idec(min as int)
                                    + " (got "@ + spec_idec(value as int) + ")"@,
                                Severity::Error,
                            ),
                        ]
                    } else {
                        Seq::empty()
                    }
                },
                None => Seq::empty(),
            },
            _ => Seq::empty(),
        },
        None => Seq::empty(),
    }
}

/// Checks that `name`, when it carries an integer, is at least `min`.
pub fn validate_min_int_field(
    file_path: &str,
    fields: &Vec<(String, JsonValue)>,
    name: &str,
    min: i64,
    errors: &mut Vec<ValidationError>,
)
    ensures
        view_errs(final(errors)@) == view_errs(old(errors)@) + spec_min_int_field(
            file_path@,
            fields@,
            name@,
            min,
        ),
{
    let mut found: Option<i64> = None;
    match get_field(fields, name) {
        Some(JsonValue::Number(n)) => {
            match n.int_val {
                Some(value) => {
                    if value < min {
                        found = Some(value);
                    }
                },
                None => {},
            }
        },
        _ => {},
    }
    match found {
        Some(value) => {
            let mut message = "'".to_owned();
            message.append(name);
            message.append("' must be >= ");
            message.append(i64_to_string(min).as_str());
            message.append(" (got ");
            message.append(i64_to_string(value).as_str());
            message.append(")");
            let e = mk_err(file_path, name.to_owned(), message, Severity::Error);
            proof {
                lemma_view_errs_push(errors@, e);
            }
            errors.push(e);
        },
        None => {},
    }
    proof {
        assert(view_errs(final(errors)@) =~= view_errs(old(errors)@) + spec_min_int_field(
            file_path@,
            fields@,
            name@,
            min,
        ));
    }
}


/// The recognized type names: the density node kinds and the top-level
/// structure kinds.
pub open spec fn spec_is_known_type(tn: Seq<char>) -> bool {
    tn == "SimplexNoise2D"@
        || tn == "SimplexNoise3D"@
        || tn == "CellNoise2D"@
        || tn == "CellNoise3D"@
        || tn == "Constant"@
        || tn == "Sum"@
        || tn == "Multiplier"@
        || tn == "Abs"@
        || tn == "Inverter"@
        || tn == "Sqrt"@
        || tn == "Pow"@
        || tn == "OffsetConstant"@
        || tn == "AmplitudeConstant"@
        || tn == "Clamp"@
        || tn == "SmoothClamp"@
        || tn == "Floor"@
        || tn == "SmoothFloor"@
        || tn == "Ceiling"@
        || tn == "SmoothCeiling"@
        || tn == "Min"@
        || tn == "SmoothMin"@
        || tn == "Max"@
        || tn == "SmoothMax"@
        || tn == "Normalizer"@
        || tn == "CurveMapper"@
        || tn == "Offset"@
        || tn == "Amplitude"@
        || tn == "Mix"@
        || tn == "MultiMix"@
        || tn == "Scale"@
        || tn == "Slider"@
        || tn == "Rotator"@
        || tn == "Anchor"@
        || tn == "XOverride"@
        || tn == "YOverride"@
        || tn == "ZOverride"@
        || tn == "GradientWarp"@
        || tn == "FastGradientWarp"@
        || tn == "VectorWarp"@
        || tn == "Distance"@
        || tn == "Cube"@
        || tn == "Ellipsoid"@
        || tn == "Cuboid"@
        || tn == "Cylinder"@
        || tn == "Plane"@
        || tn == "Axis"@
        || tn == "Shell"@
        || tn == "Angle"@
        || tn == "XValue"@
        || tn == "YValue"@
        || tn == "ZValue"@
        || tn == "Terrain"@
        || tn == "BaseHeight"@
        || tn == "CellWallDistance"@
        || tn == "DistanceToBiomeEdge"@
        || tn == "Gradient"@
        || tn == "Cache"@
        || tn == "Cache2D"@
        || tn == "YSampled"@
        || tn == "Switch"@
        || tn == "SwitchState"@
        || tn == "PositionsCellNoise"@
        || tn == "Positions3D"@
        || tn == "PositionsPinch"@
        || tn == "PositionsTwist"@
        || tn == "Exported"@
        || tn == "Imported"@
        || tn == "Pipeline"@
        || tn == "NoiseRange"@
        || tn == "DAOTerrain"@
}

/// Whether `tn` is a recognized type name.
pub fn is_known_type(tn: &str) -> (r: bool)
    ensures
        r == spec_is_known_type(tn@),
{
    str_eq(tn, "SimplexNoise2D")
        || str_eq(tn, "SimplexNoise3D")
        || str_eq(tn, "CellNoise2D")
        || str_eq(tn, "CellNoise3D")
        || str_eq(tn, "Constant")
        || str_eq(tn, "Sum")
        || str_eq(tn, "Multiplier")
        || str_eq(tn, "Abs")
        || str_eq(tn, "Inverter")
        || str_eq(tn, "Sqrt")
        || str_eq(tn, "Pow")
        || str_eq(tn, "OffsetConstant")
        || str_eq(tn, "AmplitudeConstant")
        || str_eq(tn, "Clamp")
        || str_eq(tn, "SmoothClamp")
        || str_eq(tn, "Floor")
        || str_eq(tn, "SmoothFloor")
        || str_eq(tn, "Ceiling")
        || str_eq(tn, "SmoothCeiling")
        || str_eq(tn, "Min")
        || str_eq(tn, "SmoothMin")
        || str_eq(tn, "Max")
        || str_eq(tn, "SmoothMax")
        || str_eq(tn, "Normalizer")
        || str_eq(tn, "CurveMapper")
        || str_eq(tn, "Offset")
        || str_eq(tn, "Amplitude")
        || str_eq(tn, "Mix")
        || str_eq(tn, "MultiMix")
        || str_eq(tn, "Scale")
        || str_eq(tn, "Slider")
        || str_eq(tn, "Rotator")
        || str_eq(tn, "Anchor")
        || str_eq(tn, "XOverride")
        || str_eq(tn, "YOverride")
        || str_eq(tn, "ZOverride")
        || str_eq(tn, "GradientWarp")
        || str_eq(tn, "FastGradientWarp")
        || str_eq(tn, "VectorWarp")
        || str_eq(tn, "Distance")
        || str_eq(tn, "Cube")
        || str_eq(tn, "Ellipsoid")
        || str_eq(tn, "Cuboid")
        || str_eq(tn, "Cylinder")
        || str_eq(tn, "Plane")
        || str_eq(tn, "Axis")
        || str_eq(tn, "Shell")
        || str_eq(tn, "Angle")
        || str_eq(tn, "XValue")
        || str_eq(tn, "YValue")
        || str_eq(tn, "ZValue")
        || str_eq(tn, "Terrain")
        || str_eq(tn, "BaseHeight")
        || str_eq(tn, "CellWallDistance")
        || str_eq(tn, "DistanceToBiomeEdge")
        || str_eq(tn, "Gradient")
        || str_eq(tn, "Cache")
        || str_eq(tn, "Cache2D")
        || str_eq(tn, "YSampled")
        || str_eq(tn, "Switch")
        || str_eq(tn, "SwitchState")
        || str_eq(tn, "PositionsCellNoise")
        || str_eq(tn, "Positions3D")
        || str_eq(tn, "PositionsPinch")
        || str_eq(tn, "PositionsTwist")
        || str_eq(tn, "Exported")
        || str_eq(tn, "Imported")
        || str_eq(tn, "Pipeline")
        || str_eq(tn, "NoiseRange")
        || str_eq(tn, "DAOTerrain")
}

/// The findings of the settings checks: concurrency at least -1, buffer
/// capacity factor and target view distance strictly positive.
pub open spec fn spec_settings_checks(
    path: Seq<char>,
    fields: Seq<(String, JsonValue)>,
) -> Seq<ErrV> {
    (match spec_get(fields, "CustomConcurrency"@) {
        Some(JsonValue::Number(n)) => match n.int_val {
            Some(v) => {
                if v < -1 {
                    seq![
                        spec_err(
                            path,
                            "CustomConcurrency"@,
                            "CustomConcurrency must be >= -1"@,
                            Severity::Error,
                        ),
                    ]
                } else {
                    Seq::empty()
                }
            },
            None => Seq::empty(),
        },
        _ => Seq::empty(),
    }) + (match spec_get(fields, "BufferCapacityFactor"@) {
        Some(JsonValue::Number(n)) => {
            if spec_le(n.float_bits, BITS_POS_ZERO) {
                seq![
                    spec_err(
                        path,
                        "BufferCapacityFactor"@,
                        "BufferCapacityFactor must be > 0"@,
                        Severity::Error,
                    ),
                ]
            } else {
                Seq::empty()
            }
        },
        _ => Seq::empty(),
    }) + (match spec_get(fields, "TargetViewDistance"@) {
        Some(JsonValue::Number(n)) => {
            if spec_le(n.float_bits, BITS_POS_ZERO) {
                seq![
                    spec_err(
                        path,
                        "TargetViewDistance"@,
                        "TargetViewDistance must be > 0"@,
                        Severity::Error,
                    ),
                ]
            } else {
                Seq::empty()
            }
        },
        _ => Seq::empty(),
    })
}

/// Checks the settings-specific fields of a document without a type tag.
fn validate_settings(
    file_path: &str,
    fields: &Vec<(String, JsonValue)>,
    errors: &mut Vec<ValidationError>,
)
    ensures
        view_errs(final(errors)@) == view_errs(old(errors)@) + spec_settings_checks(
            file_path@,
            fields@,
        ),
{
    match get_field(fields, "CustomConcurrency") {
        Some(JsonValue::Number(n)) => {
            match n.int_val {
                Some(v) => {
                    if v < -1 {
                        let e = mk_err(
                            file_path,
                            "CustomConcurrency".to_owned(),
                            "CustomConcurrency must be >= -1".to_owned(),
                            Severity::Error,
                        );
                        proof {
                            lemma_view_errs_push(errors@, e);
                        }
                        errors.push(e);
                    }
                },
                None => {},
            }
        },
        _ => {},
    }
    match get_field(fields, "BufferCapacityFactor") {
        Some(JsonValue::Number(n)) => {
            if le_bits(n.float_bits, BITS_POS_ZERO) {
                let e = mk_err(
                    file_path,
                    "BufferCapacityFactor".to_owned(),
                    "BufferCapacityFactor must be > 0".to_owned(),
                    Severity::Error,
                );
                proof {
                    lemma_view_errs_push(errors@, e);
                }
                errors.push(e);
            }
        },
        _ => {},
    }
    match get_field(fields, "TargetViewDistance") {
        Some(JsonValue::Number(n)) => {
            if le_bits(n.float_bits, BITS_POS_ZERO) {
                let e = mk_err(
                    file_path,
                    "TargetViewDistance".to_owned(),
                    "TargetViewDistance must be > 0".to_owned(),
                    Severity::Error,
                );
                proof {
                    lemma_view_errs_push(errors@, e);
                }
                errors.push(e);
            }
        },
        _ => {},
    }
    proof {
        assert(view_errs(final(errors)@) =~= view_errs(old(errors)@) + spec_settings_checks(
            file_path@,
            fields@,
        ));
    }
}

/// The finding reported for a type tag outside the recognized set.
pub open spec fn spec_unknown_rule(path: Seq<char>, tn: Seq<char>) -> Seq<ErrV> {
    if spec_is_known_type(tn) {
        Seq::empty()
    } else {
        seq![
            spec_err(
                path,
                "Type"@,
                "Unknown type '"@ + tn + "' - not a recognized V2 type"@,
                Severity::Warning,
            ),
        ]
    }
}

/// The findings of a `NoiseRange` biome table: the array should not be
/// empty, and each object entry needs a `Biome` field.
pub open spec fn spec_biomes_rules(path: Seq<char>, fields: Seq<(String, JsonValue)>) -> Seq<
    ErrV,
> {
    match spec_get(fields, "Biomes"@) {
        Some(JsonValue::Array(elems)) => {
            (if elems@.len() == 0 {
                seq![
                    spec_err(
                        path,
                        "Biomes"@,
                        "Biomes array should not be empty"@,
                        Severity::Warning,
                    ),
                ]
            } else {
                Seq::empty()
            }) + spec_biome_items(path, elems@, 0)
        },
        _ => Seq::empty(),
    }
}

/// The findings over the biome entries from position `idx` on.
pub open spec fn spec_biome_items(path: Seq<char>, elems: Seq<JsonValue>, idx: int) -> Seq<ErrV>
    decreases elems.len(),
{
    if elems.len() == 0 {
        Seq::empty()
    } else {
        (match elems.first() {
            JsonValue::Object(bf) => {
                if spec_get(bf@, "Biome"@) is None {
                    seq![
                        spec_err(
                            path,
                            "Biomes["@ + spec_udec(idx) + "].Biome"@,
                            "Biome entry missing 'Biome' field"@,
                            Severity::Error,
                        ),
                    ]
                } else {
                    Seq::empty()
                }
            },
            _ => Seq::empty(),
        }) + spec_biome_items(path, elems.drop_first(), idx + 1)
    }
}

/// Checks a `NoiseRange` biome table.
fn validate_biomes(
    file_path: &str,
    fields: &Vec<(String, JsonValue)>,
    errors: &mut Vec<ValidationError>,
)
    ensures
        view_errs(final(errors)@) == view_errs(old(errors)@) + spec_biomes_rules(
            file_path@,
            fields@,
        ),
{
    match get_field(fields, "Biomes") {
        Some(JsonValue::Array(elems)) => {
            if elems.len() == 0 {
                let e = mk_err(
                    file_path,
                    "Biomes".to_owned(),
                    "Biomes array should not be empty".to_owned(),
                    Severity::Warning,
                );
                proof {
                    lemma_view_errs_push(errors@, e);
                }
                errors.push(e);
            }
            let ghost mid = errors@;
            let m: usize = elems.len();
            let mut j: usize = 0;
            proof {
                assert(elems@.skip(0) =~= elems@);
            }
            while j < m
                invariant
                    0 <= j <= m,
                    m == elems@.len(),
                    view_errs(errors@) + spec_biome_items(file_path@, elems@.skip(j as int), j as int)
                        == view_errs(mid) + spec_biome_items(file_path@, elems@, 0),
                decreases m - j,
            {
                proof {
                    assert(elems@.skip(j as int).first() == elems@[j as int]);
                    assert(elems@.skip(j as int).drop_first() =~= elems@.skip(j + 1));
                }
                match &elems[j] {
                    JsonValue::Object(bf) => {
                        if !has_field(bf, "Biome") {
                            let mut field = "Biomes[".to_owned();
                            field.append(u64_to_string(j as u64).as_str());
                            field.append("].Biome");
                            let e = mk_err(
                                file_path,
                                field,
                                "Biome entry missing 'Biome' field".to_owned(),
                                Severity::Error,
                            );
                            proof {
                                lemma_view_errs_push(errors@, e);
                            }
                            errors.push(e);
                        }
                    },
                    _ => {},
                }
                j += 1;
            }
            proof {
                assert(elems@.skip(m as int) =~= Seq::<JsonValue>::empty());
                assert(view_errs(final(errors)@) =~= view_errs(old(errors)@) + spec_biomes_rules(
                    file_path@,
                    fields@,
                ));
            }
        },
        _ => {},
    }
    proof {
        assert(view_errs(final(errors)@) =~= view_errs(old(errors)@) + spec_biomes_rules(
            file_path@,
            fields@,
        ));
    }
}

/// The per-type findings for a document with type tag `tn`.
pub open spec fn spec_type_rules(
    path: Seq<char>,
    fields: Seq<(String, JsonValue)>,
    tn: Seq<char>,
) -> Seq<ErrV> {
    if tn == "Constant"@ {
        spec_required_field(path, fields, "Value"@)
    } else if tn == "SimplexNoise2D"@ {
        spec_positive_field(path, fields, "Scale"@) + spec_min_int_field(
            path,
            fields,
            "Octaves"@,
            1,
        )
    } else if tn == "SimplexNoise3D"@ {
        spec_positive_field(path, fields, "ScaleXZ"@) + spec_positive_field(
            path,
            fields,
            "ScaleY"@,
        ) + spec_min_int_field(path, fields, "Octaves"@, 1)
    } else if tn == "CellNoise2D"@ || tn == "CellNoise3D"@ {
        spec_positive_field(path, fields, "Scale"@)
    } else if tn == "Clamp"@ || tn == "SmoothClamp"@ {
        spec_required_field(path, fields, "WallA"@) + spec_required_field(path, fields, "WallB"@)
    } else if tn == "Normalizer"@ {
        spec_required_field(path, fields, "FromMin"@) + spec_required_field(
            path,
            fields,
            "FromMax"@,
        ) + spec_required_field(path, fields, "ToMin"@) + spec_required_field(
            path,
            fields,
            "ToMax"@,
        )
    } else if tn == "Pow"@ {
        spec_required_field(path, fields, "Exponent"@)
    } else if tn == "OffsetConstant"@ {
        spec_required_field(path, fields, "Offset"@)
    } else if tn == "AmplitudeConstant"@ {
        spec_required_field(path, fields, "Amplitude"@)
    } else if tn == "Sum"@ || tn == "Multiplier"@ || tn == "Mix"@ {
        spec_min_array_length(path, fields, "Inputs"@, 2)
    } else if tn == "Scale"@ {
        spec_required_field(path, fields, "X"@) + spec_required_field(path, fields, "Y"@)
            + spec_required_field(path, fields, "Z"@)
    } else if tn == "Min"@ || tn == "Max"@ {
        spec_min_array_length(path, fields, "Inputs"@, 2)
    } else if tn == "SmoothMin"@ || tn == "SmoothMax"@ {
        spec_required_field(path, fields, "Range"@) + spec_min_array_length(
            path,
            fields,
            "Inputs"@,
            2,
        )
    } else if tn == "Switch"@ {
        spec_required_field(path, fields, "SwitchCases"@)
    } else if tn == "Imported"@ {
        spec_required_field(path, fields, "Name"@)
    } else if tn == "CurveMapper"@ {
        spec_required_field(path, fields, "Curve"@)
    } else if tn == "Abs"@ || tn == "Inverter"@ || tn == "Sqrt"@ || tn == "Floor"@ || tn
        == "Ceiling"@ {
        spec_required_field(path, fields, "Input"@)
    } else if tn == "FastGradientWarp"@ {
        spec_positive_field(path, fields, "WarpScale"@) + spec_min_int_field(
            path,
            fields,
            "WarpOctaves"@,
            1,
        )
    } else if tn == "Cache"@ {
        spec_min_int_field(path, fields, "Capacity"@, 1)
    } else if tn == "Gradient"@ {
        spec_required_field(path, fields, "FromY"@) + spec_required_field(path, fields, "ToY"@)
    } else if tn == "NoiseRange"@ {
        spec_required_field(path, fields, "DefaultBiome"@) + spec_biomes_rules(path, fields)
    } else {
        Seq::empty()
    }
}

/// The findings of a document without a readable type tag: density and
/// world-structure documents must carry one, and settings documents get the
/// settings checks.
pub open spec fn spec_no_type_rules(path: Seq<char>, fields: Seq<(String, JsonValue)>) -> Seq<
    ErrV,
> {
    (if spec_str_contains(path, "Density"@) || spec_str_contains(path, "WorldStructures"@) {
        seq![
            spec_err(
                path,
                "Type"@,
                "Missing required 'Type' field"@,
                Severity::Error,
            ),
        ]
    } else {
        Seq::empty()
    }) + (if spec_str_contains(path, "Settings"@) {
        spec_settings_checks(path, fields)
    } else {
        Seq::empty()
    })
}

/// Everything the linter reports for one document.
pub open spec fn spec_validate(path: Seq<char>, json: JsonValue) -> Seq<ErrV>
    decreases json,
{
    match json {
        JsonValue::Object(fields) => {
            let tname = match spec_get(fields@, "Type"@) {
                Some(v) => v.spec_as_text(),
                None => None,
            };
            match tname {
                None => spec_no_type_rules(path, fields@),
                Some(tn) => spec_unknown_rule(path, tn) + spec_type_rules(path, fields@, tn)
                    + spec_validate_fields(path, fields@),
            }
        },
        _ => seq![
            spec_err(
                path,
                Seq::empty(),
                "Root value must be a JSON object"@,
                Severity::Error,
            ),
        ],
    }
}

/// The nested findings over the fields of a typed document, in field order.
pub open spec fn spec_validate_fields(path: Seq<char>, fields: Seq<(String, JsonValue)>) -> Seq<
    ErrV,
>
    decreases fields,
{
    if fields.len() == 0 {
        Seq::empty()
    } else {
        spec_validate_entry(path, fields.first()) + spec_validate_fields(
            path,
            fields.drop_first(),
        )
    }
}

/// The nested findings of one field: a typed object value is validated under
/// the path extended by the key, and each typed object element of an array
/// value under the path extended by the key and the element's position.
pub open spec fn spec_validate_entry(path: Seq<char>, entry: (String, JsonValue)) -> Seq<ErrV>
    decreases entry,
{
    if entry.0@ == "Type"@ {
        Seq::empty()
    } else {
        (match entry.1 {
            JsonValue::Object(nf) => {
                if spec_get(nf@, "Type"@) is Some {
                    spec_validate(path + " > "@ + entry.0@, entry.1)
                } else {
                    Seq::empty()
                }
            },
            _ => Seq::empty(),
        }) + (match entry.1 {
            JsonValue::Array(elems) => spec_validate_items(path, entry.0@, elems@, 0),
            _ => Seq::empty(),
        })
    }
}

/// The nested findings over array elements from position `idx` on.
pub open spec fn spec_validate_items(
    path: Seq<char>,
    key: Seq<char>,
    elems: Seq<JsonValue>,
    idx: int,
) -> Seq<ErrV>
    decreases elems,
{
    if elems.len() == 0 {
        Seq::empty()
    } else {
        (match elems.first() {
            JsonValue::Object(ef) => {
                if spec_get(ef@, "Type"@) is Some {
                    spec_validate(
                        path + " > "@ + key + "["@ + spec_udec(idx) + "]"@,
                        elems.first(),
                    )
                } else {
                    Seq::empty()
                }
            },
            _ => Seq::empty(),
        }) + spec_validate_items(path, key, elems.drop_first(), idx + 1)
    }
}

/// Validates the typed object elements of one array field.
fn validate_items(
    file_path: &str,
    key: &str,
    elems: &Vec<JsonValue>,
    errors: &mut Vec<ValidationError>,
)
    ensures
        view_errs(final(errors)@) == view_errs(old(errors)@) + spec_validate_items(
            file_path@,
            key@,
            elems@,
            0,
        ),
    decreases *elems,
{
    let m: usize = elems.len();
    let mut j: usize = 0;
    proof {
        assert(elems@.skip(0) =~= elems@);
        assert(decreases_to!(*elems => elems@));
    }
    while j < m
        invariant
            0 <= j <= m,
            m == elems@.len(),
            decreases_to!(*elems => elems@),
            view_errs(errors@) + spec_validate_items(file_path@, key@, elems@.skip(j as int), j as int)
                == view_errs(old(errors)@) + spec_validate_items(file_path@, key@, elems@, 0),
        decreases m - j,
    {
        proof {
            assert(elems@.skip(j as int).first() == elems@[j as int]);
            assert(elems@.skip(j as int).drop_first() =~= elems@.skip(j + 1));
            assert(decreases_to!(elems@ => elems@[j as int]));
        }
        match &elems[j] {
            JsonValue::Object(ef) => {
                if has_field(ef, "Type") {
                    let mut item_path = file_path.to_owned();
                    item_path.append(" > ");
                    item_path.append(key);
                    item_path.append("[");
                    item_path.append(u64_to_string(j as u64).as_str());
                    item_path.append("]");
                    let mut nested = validate_asset(item_path.as_str(), &elems[j]);
                    proof {
                        lemma_view_errs_concat(errors@, nested@);
                    }
                    errors.append(&mut nested);
                }
            },
            _ => {},
        }
        j += 1;
    }
    proof {
        assert(elems@.skip(m as int) =~= Seq::<JsonValue>::empty());
        assert(view_errs(final(errors)@) + Seq::<ErrV>::empty() =~= view_errs(final(errors)@));
        assert(view_errs(final(errors)@) =~= view_errs(old(errors)@) + spec_validate_items(
            file_path@,
            key@,
            elems@,
            0,
        ));
    }
}

/// Validates the nested documents under one field of a typed document.
fn validate_entry(
    file_path: &str,
    entry: &(String, JsonValue),
    errors: &mut Vec<ValidationError>,
)
    ensures
        view_errs(final(errors)@) == view_errs(old(errors)@) + spec_validate_entry(
            file_path@,
            *entry,
        ),
    decreases *entry,
{
    if str_eq(entry.0.as_str(), "Type") {
        proof {
            assert(view_errs(final(errors)@) =~= view_errs(old(errors)@) + spec_validate_entry(
                file_path@,
                *entry,
            ));
        }
        return ;
    }
    match &entry.1 {
        JsonValue::Object(nf) => {
            if has_field(nf, "Type") {
                let mut nested_path = file_path.to_owned();
                nested_path.append(" > ");
                nested_path.append(entry.0.as_str());
                proof {
                    assert(decreases_to!(*entry => entry.1));
                }
                let mut nested = validate_asset(nested_path.as_str(), &entry.1);
                proof {
                    lemma_view_errs_concat(errors@, nested@);
                }
                errors.append(&mut nested);
            }
        },
        _ => {},
    }
    match &entry.1 {
        JsonValue::Array(elems) => {
            proof {
                assert(decreases_to!(*entry => entry.1));
                assert(decreases_to!(entry.1 => *elems));
            }
            validate_items(file_path, entry.0.as_str(), elems, errors);
        },
        _ => {},
    }
    proof {
        assert(view_errs(final(errors)@) =~= view_errs(old(errors)@) + spec_validate_entry(
            file_path@,
            *entry,
        ));
    }
}

/// Validates a single asset document against the schema rules.
pub fn validate_asset(file_path: &str, value: &JsonValue) -> (r: Vec<ValidationError>)
    ensures
        view_errs(r@) == spec_validate(file_path@, *value),
    decreases *value,
{
    let mut errors: Vec<ValidationError> = Vec::new();
    match value {
        JsonValue::Object(fields) => {
            let tname: Option<&str> = match get_field(fields, "Type") {
                Some(JsonValue::Text(s)) => Some(s.as_str()),
                _ => None,
            };
            match tname {
                None => {
                    if str_contains(file_path, "Density") || str_contains(
                        file_path,
                        "WorldStructures",
                    ) {
                        let e = mk_err(
                            file_path,
                            "Type".to_owned(),
                            "Missing required 'Type' field".to_owned(),
                            Severity::Error,
                        );
                        proof {
                            lemma_view_errs_push(errors@, e);
                        }
                        errors.push(e);
                    }
                    if str_contains(file_path, "Settings") {
                        validate_settings(file_path, fields, &mut errors);
                    }
                    proof {
                        assert(view_errs(errors@) =~= spec_validate(file_path@, *value));
                    }
                    errors
                },
                Some(tn) => {
                    if !is_known_type(tn) {
                        let mut message = "Unknown type '".to_owned();
                        message.append(tn);
                        message.append("' - not a recognized V2 type");
                        let e = mk_err(
                            file_path,
                            "Type".to_owned(),
                            message,
                            Severity::Warning,
                        );
                        proof {
                            lemma_view_errs_push(errors@, e);
                        }
                        errors.push(e);
                    }
                    proof {
                        assert(view_errs(errors@) =~= spec_unknown_rule(file_path@, tn@));
                    }
                    let ghost base1 = errors@;
                    if str_eq(tn, "Constant") {
                        validate_required_field(file_path, fields, "Value", &mut errors);
                    } else if str_eq(tn, "SimplexNoise2D") {
                        validate_positive_field(file_path, fields, "Scale", &mut errors);
                        validate_min_int_field(file_path, fields, "Octaves", 1, &mut errors);
                    } else if str_eq(tn, "SimplexNoise3D") {
                        validate_positive_field(file_path, fields, "ScaleXZ", &mut errors);
                        validate_positive_field(file_path, fields, "ScaleY", &mut errors);
                        validate_min_int_field(file_path, fields, "Octaves", 1, &mut errors);
                    } else if str_eq(tn, "CellNoise2D") || str_eq(tn, "CellNoise3D") {
                        validate_positive_field(file_path, fields, "Scale", &mut errors);
                    } else if str_eq(tn, "Clamp") || str_eq(tn, "SmoothClamp") {
                        validate_required_field(file_path, fields, "WallA", &mut errors);
                        validate_required_field(file_path, fields, "WallB", &mut errors);
                    } else if str_eq(tn, "Normalizer") {
                        validate_required_field(file_path, fields, "FromMin", &mut errors);
                        validate_required_field(file_path, fields, "FromMax", &mut errors);
                        validate_required_field(file_path, fields, "ToMin", &mut errors);
                        validate_required_field(file_path, fields, "ToMax", &mut errors);
                    } else if str_eq(tn, "Pow") {
                        validate_required_field(file_path, fields, "Exponent", &mut errors);
                    } else if str_eq(tn, "OffsetConstant") {
                        validate_required_field(file_path, fields, "Offset", &mut errors);
                    } else if str_eq(tn, "AmplitudeConstant") {
                        validate_required_field(file_path, fields, "Amplitude", &mut errors);
                    } else if str_eq(tn, "Sum") || str_eq(tn, "Multiplier") || str_eq(tn, "Mix") {
                        validate_min_array_length(file_path, fields, "Inputs", 2, &mut errors);
                    } else if str_eq(tn, "Scale") {
                        validate_required_field(file_path, fields, "X", &mut errors);
                        validate_required_field(file_path, fields, "Y", &mut errors);
                        validate_required_field(file_path, fields, "Z", &mut errors);
                    } else if str_eq(tn, "Min") || str_eq(tn, "Max") {
                        validate_min_array_length(file_path, fields, "Inputs", 2, &mut errors);
                    } else if str_eq(tn, "SmoothMin") || str_eq(tn, "SmoothMax") {
                        validate_required_field(file_path, fields, "Range", &mut errors);
                        validate_min_array_length(file_path, fields, "Inputs", 2, &mut errors);
                    } else if str_eq(tn, "Switch") {
                        validate_required_field(file_path, fields, "SwitchCases", &mut errors);
                    } else if str_eq(tn, "Imported") {
                        validate_required_field(file_path, fields, "Name", &mut errors);
                    } else if str_eq(tn, "CurveMapper") {
                        validate_required_field(file_path, fields, "Curve", &mut errors);
                    } else if str_eq(tn, "Abs") || str_eq(tn, "Inverter") || str_eq(tn, "Sqrt")
                        || str_eq(tn, "Floor") || str_eq(tn, "Ceiling") {
                        validate_required_field(file_path, fields, "Input", &mut errors);
                    } else if str_eq(tn, "FastGradientWarp") {
                        validate_positive_field(file_path, fields, "WarpScale", &mut errors);
                        validate_min_int_field(file_path, fields, "WarpOctaves", 1, &mut errors);
                    } else if str_eq(tn, "Cache") {
                        validate_min_int_field(file_path, fields, "Capacity", 1, &mut errors);
                    } else if str_eq(tn, "Gradient") {
                        validate_required_field(file_path, fields, "FromY", &mut errors);
                        validate_required_field(file_path, fields, "ToY", &mut errors);
                    } else if str_eq(tn, "NoiseRange") {
                        validate_required_field(file_path, fields, "DefaultBiome", &mut errors);
                        validate_biomes(file_path, fields, &mut errors);
                    }
                    proof {
                        assert(view_errs(errors@) =~= view_errs(base1) + spec_type_rules(
                            file_path@,
                            fields@,
                            tn@,
                        ));
                    }
                    let ghost base2 = errors@;
                    let n: usize = fields.len();
                    let mut i: usize = 0;
                    proof {
                        assert(fields@.skip(0) =~= fields@);
                        assert(decreases_to!(*value => *fields));
                        assert(decreases_to!(*fields => fields@));
                    }
                    while i < n
                        invariant
                            0 <= i <= n,
                            n == fields@.len(),
                            decreases_to!(*value => fields@),
                            view_errs(errors@) + spec_validate_fields(
                                file_path@,
                                fields@.skip(i as int),
                            ) == view_errs(base2) + spec_validate_fields(file_path@, fields@),
                        decreases n - i,
                    {
                        proof {
                            assert(fields@.skip(i as int).first() == fields@[i as int]);
                            assert(fields@.skip(i as int).drop_first() =~= fields@.skip(i + 1));
                            assert(decreases_to!(fields@ => fields@[i as int]));
                        }
                        validate_entry(file_path, &fields[i], &mut errors);
                        i += 1;
                    }
                    proof {
                        assert(fields@.skip(n as int) =~= Seq::<(String, JsonValue)>::empty());
                        assert(view_errs(errors@) + Seq::<ErrV>::empty() =~= view_errs(errors@));
                        assert(view_errs(errors@) =~= spec_validate(file_path@, *value));
                    }
                    errors
                },
            }
        },
        _ => {
            let e = mk_err(
                file_path,
                String::new(),
                "Root value must be a JSON object".to_owned(),
                Severity::Error,
            );
            proof {
                lemma_view_errs_push(errors@, e);
            }
            errors.push(e);
            proof {
                assert(view_errs(errors@) =~= spec_validate(file_path@, *value));
            }
            errors
        },
    }
}

/// Gathers per-file findings into the result of validating an asset pack.
pub fn summarize_validation(errors: Vec<ValidationError>, files_checked: usize) -> (r:
    ValidationResult)
    ensures
        r.valid == (errors@.len() == 0),
        r.errors == errors,
        r.files_checked == files_checked,
{
    let valid = errors.len() == 0;
    ValidationResult { valid, errors, files_checked }
}


} // verus!
