//! A minimal model of parsed JSON documents.
//!
//! The evaluator and the validator work on already-parsed JSON handed in by
//! the I/O layer.  A document is modelled by [`JsonValue`]; a number carries
//! the bit pattern of the closest binary64 value together with its exact
//! signed-integer reading when it has one, which is all the graph builder
//! and the validator ever ask of a number.  An object is an ordered list of
//! distinct keys; lookup returns the first binding of a key.

use vstd::prelude::*;

use crate::text::str_eq;

verus! {

broadcast use vstd::std_specs::vec::group_vec_axioms;

/// A JSON number, reduced to the two readings the system uses.
pub struct JsonNumber {
    /// Bit pattern of the closest binary64 value.
    pub float_bits: u64,
    /// The exact value as a signed 64-bit integer, when it has one.
    pub int_val: Option<i64>,
}

/// A parsed JSON document.
pub enum JsonValue {
    Null,
    Bool(bool),
    Number(JsonNumber),
    Text(String),
    Array(Vec<JsonValue>),
    Object(Vec<(String, JsonValue)>),
}

/// The first binding of `key` among `fields`, front to back.
pub open spec fn spec_get(fields: Seq<(String, JsonValue)>, key: Seq<char>) -> Option<
    JsonValue,
>
    decreases fields.len(),
{
    if fields.len() == 0 {
        None
    } else if fields[0].0@ == key {
        Some(fields[0].1)
    } else {
        spec_get(fields.drop_first(), key)
    }
}

/// The binary64 bit pattern of a value, when it is a number.
pub open spec fn spec_as_float_bits(v: JsonValue) -> Option<u64> {
    match v {
        JsonValue::Number(n) => Some(n.float_bits),
        _ => None,
    }
}

/// The signed-integer reading of a value, when it is a number with one.
pub open spec fn spec_as_i64(v: JsonValue) -> Option<i64> {
    match v {
        JsonValue::Number(n) => n.int_val,
        _ => None,
    }
}

/// The field's number read as binary64 bits, or `dflt` when the field is
/// absent or not a number.
pub open spec fn spec_field_float_or(
    fields: Seq<(String, JsonValue)>,
    key: Seq<char>,
    dflt: u64,
) -> u64 {
    match spec_get(fields, key) {
        Some(v) => match spec_as_float_bits(v) {
            Some(bits) => bits,
            None => dflt,
        },
        None => dflt,
    }
}

/// The field's number read as a signed integer, or `dflt` when the field is
/// absent or not an integer.
pub open spec fn spec_field_i64_or(
    fields: Seq<(String, JsonValue)>,
    key: Seq<char>,
    dflt: i64,
) -> i64 {
    match spec_get(fields, key) {
        Some(v) => match spec_as_i64(v) {
            Some(n) => n,
            None => dflt,
        },
        None => dflt,
    }
}

impl JsonValue {
    /// The object fields of this value, when it is an object.
    pub open spec fn spec_as_object(self) -> Option<Seq<(String, JsonValue)>> {
        match self {
            JsonValue::Object(fields) => Some(fields@),
            _ => None,
        }
    }

    /// The elements of this value, when it is an array.
    pub open spec fn spec_as_array(self) -> Option<Seq<JsonValue>> {
        match self {
            JsonValue::Array(elems) => Some(elems@),
            _ => None,
        }
    }

    /// The characters of this value, when it is a string.
    pub open spec fn spec_as_text(self) -> Option<Seq<char>> {
        match self {
            JsonValue::Text(s) => Some(s@),
            _ => None,
        }
    }
}

/// The field's string characters, or `dflt` when the field is absent or not
/// a string.
pub open spec fn spec_field_text_or(
    fields: Seq<(String, JsonValue)>,
    key: Seq<char>,
    dflt: Seq<char>,
) -> Seq<char> {
    match spec_get(fields, key) {
        Some(v) => match v.spec_as_text() {
            Some(s) => s,
            None => dflt,
        },
        None => dflt,
    }
}

/// A found binding sits below the field list in the structural order that
/// justifies recursion into it.
pub proof fn lemma_get_smaller(fields: Seq<(String, JsonValue)>, key: Seq<char>)
    requires
        spec_get(fields, key) is Some,
    ensures
        decreases_to!(fields => spec_get(fields, key)->Some_0),
    decreases fields.len(),
{
    if fields.len() == 0 {
    } else if fields[0].0@ == key {
        assert(decreases_to!(fields => fields[0]));
        assert(decreases_to!(fields[0] => fields[0].1));
    } else {
        lemma_get_smaller(fields.drop_first(), key);
        assert(decreases_to!(fields => fields.drop_first()));
    }
}

/// Looks up the first binding of `key` among `fields`.
pub fn get_field<'a>(fields: &'a Vec<(String, JsonValue)>, key: &str) -> (r: Option<
    &'a JsonValue,
>)
    ensures
        match spec_get(fields@, key@) {
            Some(v) => r is Some && *r->Some_0 == v,
            None => r is None,
        },
{
    let n: usize = fields.len();
    proof {
        assert(fields@.subrange(0, n as int) =~= fields@);
    }
    let mut i: usize = 0;
    while i < n
        invariant
            0 <= i <= n,
            n == fields@.len(),
            spec_get(fields@, key@) == spec_get(fields@.subrange(i as int, n as int), key@),
        decreases n - i,
    {
        proof {
            assert(fields@.subrange(i as int, n as int)[0] == fields@[i as int]);
            assert(fields@.subrange(i as int, n as int).drop_first() =~= fields@.subrange(
                i as int + 1,
                n as int,
            ));
        }
        let entry = &fields[i];
        if str_eq(entry.0.as_str(), key) {
            return Some(&entry.1);
        }
        i += 1;
    }
    proof {
        assert(fields@.subrange(n as int, n as int).len() == 0);
    }
    None
}

/// Whether `fields` binds `key`.
pub fn has_field(fields: &Vec<(String, JsonValue)>, key: &str) -> (r: bool)
    ensures
        r == (spec_get(fields@, key@) is Some),
{
    get_field(fields, key).is_some()
}

/// Reads the field's number as binary64 bits, with `dflt` when the field is
/// absent or not a number.
pub fn field_float_or(fields: &Vec<(String, JsonValue)>, key: &str, dflt: u64) -> (r: u64)
    ensures
        r == spec_field_float_or(fields@, key@, dflt),
{
    match get_field(fields, key) {
        Some(JsonValue::Number(n)) => n.float_bits,
        _ => dflt,
    }
}

/// Reads the field's number as a signed integer, with `dflt` when the field
/// is absent or not an integer.
pub fn field_i64_or(fields: &Vec<(String, JsonValue)>, key: &str, dflt: i64) -> (r: i64)
    ensures
        r == spec_field_i64_or(fields@, key@, dflt),
{
    match get_field(fields, key) {
        Some(JsonValue::Number(n)) => match n.int_val {
            Some(v) => v,
            None => dflt,
        },
        _ => dflt,
    }
}

} // verus!
