//! The graph builder: one JSON value in, one evaluable node tree out.
//!
//! Construction fails only when a value that should be a node is not a JSON
//! object or carries no readable `Type` string; everything else is tolerated
//! by defaulting, and an unrecognized type name builds a zero constant, so a
//! half-edited document still previews.  [`spec_parse`] writes the whole
//! policy down; the executable parser is proved to follow it.

use vstd::prelude::*;

use crate::arith::{div_bits, fdiv, fnarrow, narrow_bits};
use crate::fbits::{
    max_bits, spec_max, BITS_HALF, BITS_MILLI, BITS_NEG_ONE, BITS_ONE, BITS_POS_ZERO, BITS_TWO,
};
use crate::json::{
    field_float_or, field_i64_or, get_field, lemma_get_smaller, spec_field_float_or,
    spec_field_i64_or, spec_field_text_or, spec_get, JsonValue,
};
use crate::nodes::{seed_hash, spec_eval, spec_seed_hash, view_list, Node, NodeV};
use crate::text::str_eq;
use vstd::string::StrSliceExecFns;
use vstd::string::StringExecFns;
use vstd::string::StringSliceAdditionalSpecFns;
use vstd::utf8::encode_utf8;

verus! {

broadcast use vstd::std_specs::vec::group_vec_axioms;

/// The two ways construction can fail.
pub enum BuildError {
    /// The value that should be a node is not a JSON object.
    NotAnObject,
    /// The object carries no `Type` field with a string value.
    MissingType,
}

/// The message the builder reports for each failure.
pub open spec fn spec_error_message(e: BuildError) -> Seq<char> {
    match e {
        BuildError::NotAnObject => "Density node must be a JSON object"@,
        BuildError::MissingType => "Missing 'Type' field"@,
    }
}

/// The integer seed of a seed string: the polynomial hash of its UTF-8
/// bytes.
pub open spec fn spec_seed_of(s: Seq<char>) -> i32 {
    spec_seed_hash(encode_utf8(s))
}

/// The elements under a node's `Inputs` field: empty when the field is
/// absent or not an array.
pub open spec fn spec_inputs_array(fields: Seq<(String, JsonValue)>) -> Seq<JsonValue> {
    match spec_get(fields, "Inputs"@) {
        Some(v) => match v.spec_as_array() {
            Some(elems) => elems,
            None => Seq::empty(),
        },
        None => Seq::empty(),
    }
}

/// What the builder makes of one JSON value.
pub open spec fn spec_parse(json: JsonValue) -> Result<NodeV, BuildError>
    decreases json,
    via spec_parse_dec
{
    match json {
        JsonValue::Object(fields) => {
            let tname = match spec_get(fields@, "Type"@) {
                Some(v) => v.spec_as_text(),
                None => None,
            };
            match tname {
                None => Err(BuildError::MissingType),
                Some(tn) => {
                    if tn == "Constant"@ {
                        Ok(
                            NodeV::Constant {
                                value: spec_field_float_or(fields@, "Value"@, BITS_POS_ZERO),
                            },
                        )
                    } else if tn == "SimplexNoise2D"@ {
                        let scale = spec_field_float_or(fields@, "Scale"@, BITS_ONE);
                        Ok(
                            NodeV::SimplexNoise2D {
                                seed: spec_seed_of(
                                    spec_field_text_or(fields@, "Seed"@, Seq::empty()),
                                ),
                                freq_cfg: narrow_bits(
                                    div_bits(BITS_ONE, spec_max(scale, BITS_MILLI)),
                                ),
                                octaves: spec_field_i64_or(fields@, "Octaves"@, 1) as i32,
                                lacunarity: spec_field_float_or(fields@, "Lacunarity"@, BITS_TWO),
                                persistence: spec_field_float_or(
                                    fields@,
                                    "Persistence"@,
                                    BITS_HALF,
                                ),
                                scale,
                            },
                        )
                    } else if tn == "Sum"@ {
                        let elems = spec_inputs_array(fields@);
                        if elems.len() == 0 {
                            Ok(NodeV::Sum { inputs: Seq::empty() })
                        } else {
                            match spec_parse_list(elems) {
                                Ok(inputs) => Ok(NodeV::Sum { inputs }),
                                Err(e) => Err(e),
                            }
                        }
                    } else if tn == "Clamp"@ {
                        match spec_parse_single(fields@) {
                            Ok(child) => Ok(
                                NodeV::Clamp {
                                    input: Box::new(child),
                                    min: spec_field_float_or(fields@, "WallA"@, BITS_POS_ZERO),
                                    max: spec_field_float_or(fields@, "WallB"@, BITS_ONE),
                                },
                            ),
                            Err(e) => Err(e),
                        }
                    } else if tn == "Normalizer"@ {
                        match spec_parse_single(fields@) {
                            Ok(child) => Ok(
                                NodeV::Normalizer {
                                    input: Box::new(child),
                                    from_min: spec_field_float_or(
                                        fields@,
                                        "FromMin"@,
                                        BITS_NEG_ONE,
                                    ),
                                    from_max: spec_field_float_or(fields@, "FromMax"@, BITS_ONE),
                                    to_min: spec_field_float_or(fields@, "ToMin"@, BITS_POS_ZERO),
                                    to_max: spec_field_float_or(fields@, "ToMax"@, BITS_ONE),
                                },
                            ),
                            Err(e) => Err(e),
                        }
                    } else {
                        Ok(NodeV::Constant { value: BITS_POS_ZERO })
                    }
                },
            }
        },
        _ => Err(BuildError::NotAnObject),
    }
}

/// What the builder makes of a list of child values: the nodes in order, or
/// the first failure.
pub open spec fn spec_parse_list(elems: Seq<JsonValue>) -> Result<Seq<NodeV>, BuildError>
    decreases elems,
{
    if elems.len() == 0 {
        Ok(Seq::empty())
    } else {
        match spec_parse(elems.first()) {
            Err(e) => Err(e),
            Ok(n) => match spec_parse_list(elems.drop_first()) {
                Err(e) => Err(e),
                Ok(ns) => Ok(seq![n] + ns),
            },
        }
    }
}

/// What the builder makes of a single-input node's child: the first element
/// of `Inputs`, or a zero constant when the list is empty.
pub open spec fn spec_parse_single(fields: Seq<(String, JsonValue)>) -> Result<
    NodeV,
    BuildError,
>
    decreases fields,
    via spec_parse_single_dec
{
    let elems = spec_inputs_array(fields);
    if elems.len() == 0 {
        Ok(NodeV::Constant { value: BITS_POS_ZERO })
    } else {
        spec_parse(elems.first())
    }
}

#[via_fn]
proof fn spec_parse_dec(json: JsonValue) {
    broadcast use vstd::std_specs::vec::group_vec_axioms;

    if let JsonValue::Object(fields) = json {
        assert(decreases_to!(json => fields));
        assert(decreases_to!(fields => fields@));
        if spec_get(fields@, "Inputs"@) is Some {
            lemma_get_smaller(fields@, "Inputs"@);
            let v = spec_get(fields@, "Inputs"@)->Some_0;
            if let JsonValue::Array(elems) = v {
                assert(decreases_to!(v => elems));
                assert(decreases_to!(elems => elems@));
                assert(spec_inputs_array(fields@) == elems@);
                assert(decreases_to!(json => elems@));
            }
        }
    }
}

#[via_fn]
proof fn spec_parse_single_dec(fields: Seq<(String, JsonValue)>) {
    broadcast use vstd::std_specs::vec::group_vec_axioms;

    if spec_get(fields, "Inputs"@) is Some {
        lemma_get_smaller(fields, "Inputs"@);
        let v = spec_get(fields, "Inputs"@)->Some_0;
        if let JsonValue::Array(elems) = v {
            assert(decreases_to!(v => elems));
            assert(decreases_to!(elems => elems@));
            assert(spec_inputs_array(fields) == elems@);
            assert(decreases_to!(fields => elems@));
            if elems@.len() > 0 {
                assert(decreases_to!(elems@ => elems@[0]));
            }
        }
    }
}

/// Recursively builds an evaluable node from a JSON value.
fn parse_node(json: &JsonValue) -> (r: Result<Node, String>)
    ensures
        spec_parse(*json) is Ok ==> r is Ok && r->Ok_0@ == spec_parse(*json)->Ok_0,
        spec_parse(*json) is Err ==> r is Err && r->Err_0@ == spec_error_message(
            spec_parse(*json)->Err_0,
        ),
    decreases *json,
{
    match json {
        JsonValue::Object(fields) => {
            let tname: Option<&str> = match get_field(fields, "Type") {
                Some(JsonValue::Text(s)) => Some(s.as_str()),
                _ => None,
            };
            match tname {
                None => Err("Missing 'Type' field".to_owned()),
                Some(tn) => {
                    if str_eq(tn, "Constant") {
                        Ok(Node::Constant { value: field_float_or(fields, "Value", BITS_POS_ZERO) })
                    } else if str_eq(tn, "SimplexNoise2D") {
                        let scale = field_float_or(fields, "Scale", BITS_ONE);
                        let octaves_wide: i64 = field_i64_or(fields, "Octaves", 1);
                        let seed_text: &str = match get_field(fields, "Seed") {
                            Some(JsonValue::Text(s)) => s.as_str(),
                            _ => "",
                        };
                        proof {
                            reveal_strlit("");
                            assert(""@ =~= Seq::<char>::empty());
                        }
                        Ok(
                            Node::SimplexNoise2D {
                                seed: seed_hash(seed_text),
                                freq_cfg: fnarrow(fdiv(BITS_ONE, max_bits(scale, BITS_MILLI))),
                                octaves: #[verifier::truncate] (octaves_wide as i32),
                                lacunarity: field_float_or(fields, "Lacunarity", BITS_TWO),
                                persistence: field_float_or(fields, "Persistence", BITS_HALF),
                                scale,
                            },
                        )
                    } else if str_eq(tn, "Sum") {
                        match parse_inputs(fields) {
                            Ok(inputs) => Ok(Node::Sum { inputs }),
                            Err(e) => Err(e),
                        }
                    } else if str_eq(tn, "Clamp") {
                        match parse_single_input(fields) {
                            Ok(input) => Ok(
                                Node::Clamp {
                                    input: Box::new(input),
                                    min: field_float_or(fields, "WallA", BITS_POS_ZERO),
                                    max: field_float_or(fields, "WallB", BITS_ONE),
                                },
                            ),
                            Err(e) => Err(e),
                        }
                    } else if str_eq(tn, "Normalizer") {
                        match parse_single_input(fields) {
                            Ok(input) => Ok(
                                Node::Normalizer {
                                    input: Box::new(input),
                                    from_min: field_float_or(fields, "FromMin", BITS_NEG_ONE),
                                    from_max: field_float_or(fields, "FromMax", BITS_ONE),
                                    to_min: field_float_or(fields, "ToMin", BITS_POS_ZERO),
                                    to_max: field_float_or(fields, "ToMax", BITS_ONE),
                                },
                            ),
                            Err(e) => Err(e),
                        }
                    } else {
                        // Unknown types evaluate as zero
                        Ok(Node::Constant { value: BITS_POS_ZERO })
                    }
                },
            }
        },
        _ => Err("Density node must be a JSON object".to_owned()),
    }
}

/// Builds the ordered children under a node's `Inputs` field.
fn parse_inputs(fields: &Vec<(String, JsonValue)>) -> (r: Result<Vec<Node>, String>)
    ensures
        spec_parse_list(spec_inputs_array(fields@)) is Ok ==> r is Ok && view_list(r->Ok_0@)
            == spec_parse_list(spec_inputs_array(fields@))->Ok_0,
        spec_parse_list(spec_inputs_array(fields@)) is Err ==> r is Err && r->Err_0@
            == spec_error_message(spec_parse_list(spec_inputs_array(fields@))->Err_0),
    decreases *fields,
{
    let arr: Option<&Vec<JsonValue>> = match get_field(fields, "Inputs") {
        Some(JsonValue::Array(elems)) => Some(elems),
        _ => None,
    };
    match arr {
        None => {
            proof {
                assert(view_list(Seq::<Node>::empty()) =~= Seq::<NodeV>::empty());
            }
            Ok(Vec::new())
        },
        Some(elems) => {
            proof {
                lemma_get_smaller(fields@, "Inputs"@);
            }
            let ghost all = elems@;
            let n: usize = elems.len();
            let mut out: Vec<Node> = Vec::new();
            let mut i: usize = 0;
            proof {
                assert(all.skip(0) =~= all);
                assert(view_list(out@) =~= Seq::<NodeV>::empty());
            }
            while i < n
                invariant
                    0 <= i <= n,
                    n == elems@.len(),
                    all == elems@,
                    all == spec_inputs_array(fields@),
                    decreases_to!(*fields => *elems),
                    spec_parse_list(all) == match spec_parse_list(all.skip(i as int)) {
                        Ok(rest) => Ok::<Seq<NodeV>, BuildError>(view_list(out@) + rest),
                        Err(e) => Err(e),
                    },
                decreases n - i,
            {
                proof {
                    assert(all.skip(i as int).first() == all[i as int]);
                    assert(all.skip(i as int).drop_first() =~= all.skip(i + 1));
                }
                match parse_node(&elems[i]) {
                    Err(e) => {
                        return Err(e);
                    },
                    Ok(node) => {
                        let ghost prev = out@;
                        out.push(node);
                        proof {
                            assert(out@.drop_last() =~= prev);
                            assert(view_list(out@).drop_last() =~= view_list(prev));
                            assert(view_list(out@) =~= view_list(prev).push(
                                spec_parse(all[i as int])->Ok_0,
                            ));
                            if spec_parse_list(all.skip(i + 1)) is Ok {
                                let rest = spec_parse_list(all.skip(i + 1))->Ok_0;
                                assert(view_list(prev) + (seq![
                                    spec_parse(all[i as int])->Ok_0,
                                ] + rest) =~= view_list(out@) + rest);
                            }
                        }
                        i += 1;
                    },
                }
            }
            proof {
                assert(all.skip(n as int) =~= Seq::<JsonValue>::empty());
                assert(view_list(out@) + Seq::<NodeV>::empty() =~= view_list(out@));
            }
            Ok(out)
        },
    }
}

/// Builds a single-input node's child: the first element of `Inputs`, or a
/// zero constant when the list is empty.
fn parse_single_input(fields: &Vec<(String, JsonValue)>) -> (r: Result<Node, String>)
    ensures
        spec_parse_single(fields@) is Ok ==> r is Ok && r->Ok_0@ == spec_parse_single(
            fields@,
        )->Ok_0,
        spec_parse_single(fields@) is Err ==> r is Err && r->Err_0@ == spec_error_message(
            spec_parse_single(fields@)->Err_0,
        ),
    decreases *fields,
{
    match get_field(fields, "Inputs") {
        Some(JsonValue::Array(elems)) => {
            if elems.len() > 0 {
                proof {
                    lemma_get_smaller(fields@, "Inputs"@);
                }
                parse_node(&elems[0])
            } else {
                Ok(Node::Constant { value: BITS_POS_ZERO })
            }
        },
        _ => Ok(Node::Constant { value: BITS_POS_ZERO }),
    }
}

/// Density function evaluator: parses a density graph JSON document and
/// evaluates it at (x, y, z) coordinate bits.
pub struct DensityEvaluator {
    root: Node,
}

impl View for DensityEvaluator {
    type V = NodeV;

    closed spec fn view(&self) -> NodeV {
        self.root@
    }
}

impl DensityEvaluator {
    /// Parses a density function JSON document into an evaluable graph.
    pub fn from_json(json: &JsonValue) -> (r: Result<DensityEvaluator, String>)
        ensures
            spec_parse(*json) is Ok ==> r is Ok && r->Ok_0@ == spec_parse(*json)->Ok_0,
            spec_parse(*json) is Err ==> r is Err && r->Err_0@ == spec_error_message(
                spec_parse(*json)->Err_0,
            ),
    {
        match parse_node(json) {
            Ok(root) => Ok(DensityEvaluator { root }),
            Err(e) => Err(e),
        }
    }

    /// Evaluates the density function at a world position, given as binary64
    /// bit patterns.
    ///
    /// A root normalizer whose source range is a single finite value yields
    /// its target minimum, whatever its child produces.
    pub fn evaluate(&self, x: u64, y: u64, z: u64) -> (r: u64)
        ensures
            r == spec_eval(self@, x, y, z),
            (match self@ {
                NodeV::Normalizer { input, from_min, from_max, to_min, to_max } => from_min
                    == from_max && crate::fbits::spec_is_finite(from_min) ==> r == to_min,
                _ => true,
            }),
    {
        self.root.evaluate(x, y, z)
    }
}

/// The string under an object's `Type` field, when there is one.
pub open spec fn spec_type_name(json: JsonValue) -> Option<Seq<char>> {
    match json {
        JsonValue::Object(fields) => match spec_get(fields@, "Type"@) {
            Some(v) => v.spec_as_text(),
            None => None,
        },
        _ => None,
    }
}

/// The type tags the builder recognizes.
pub open spec fn spec_builder_kind(tn: Seq<char>) -> bool {
    tn == "Constant"@ || tn == "SimplexNoise2D"@ || tn == "Sum"@ || tn == "Clamp"@ || tn
        == "Normalizer"@
}

/// The evaluator is reproducible end to end: equal seed strings hash to
/// equal integer seeds, equal documents build equal graphs, and equal graphs
/// evaluate to equal values at equal coordinates, across runs and instances.
pub proof fn lemma_deterministic(
    s1: Seq<char>,
    s2: Seq<char>,
    j1: JsonValue,
    j2: JsonValue,
    n1: NodeV,
    n2: NodeV,
    x: u64,
    y: u64,
    z: u64,
)
    requires
        s1 == s2,
        j1 == j2,
        n1 == n2,
    ensures
        spec_seed_of(s1) == spec_seed_of(s2),
        spec_parse(j1) == spec_parse(j2),
        spec_eval(n1, x, y, z) == spec_eval(n2, x, y, z),
{
}

/// A document whose type tag is a string outside the builder's recognized
/// set still builds, into a constant node that evaluates to +0.0 at every
/// coordinate.
pub proof fn lemma_unknown_type_builds_zero(json: JsonValue, x: u64, y: u64, z: u64)
    requires
        spec_type_name(json) is Some,
        !spec_builder_kind(spec_type_name(json)->Some_0),
    ensures
        spec_parse(json) == Ok::<NodeV, BuildError>(
            NodeV::Constant { value: crate::fbits::BITS_POS_ZERO },
        ),
        spec_eval(spec_parse(json)->Ok_0, x, y, z) == crate::fbits::BITS_POS_ZERO,
{
}

/// Construction fails exactly on structural errors: a value that is not a
/// JSON object is rejected as not an object, and an object without a
/// readable `Type` string as missing its type; an object with one always
/// gets past the root.
pub proof fn lemma_build_failure(json: JsonValue)
    ensures
        !(json is Object) ==> spec_parse(json) == Err::<NodeV, BuildError>(
            BuildError::NotAnObject,
        ),
        json is Object && spec_type_name(json) is None ==> spec_parse(json) == Err::<
            NodeV,
            BuildError,
        >(BuildError::MissingType),
{
}

} // verus!
