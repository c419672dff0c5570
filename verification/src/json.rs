//! A JSON tree held as plain values. Remote payloads and cache files are
//! parsed into `JsonValue` through a trusted bridge to serde_json; everything
//! that reads or builds a tree afterwards is verified code.

use vstd::prelude::*;

use crate::text::str_eq;

verus! {

/// A JSON document as plain values. Numbers that do not fit `u64` (negative
/// or fractional ones) are kept only as `NumOther`: no decoder of this
/// library reads them.
#[derive(Debug)]
pub enum JsonValue {
    Null,
    Bool(bool),
    UInt(u64),
    NumOther,
    Text(String),
    Array(Vec<JsonValue>),
    Object(Vec<(String, JsonValue)>),
}

/// The first value bound to `key` in an object's field list, if any.
pub open spec fn spec_lookup(fields: Seq<(String, JsonValue)>, key: Seq<char>) -> Option<
    JsonValue,
>
    decreases fields.len(),
{
    if fields.len() == 0 {
        Option::None
    } else if fields[0].0@ == key {
        Option::Some(fields[0].1)
    } else {
        spec_lookup(fields.skip(1), key)
    }
}

/// The value of field `key` of `v`, when `v` is an object that has it.
pub open spec fn spec_field(v: JsonValue, key: Seq<char>) -> Option<JsonValue> {
    match v {
        JsonValue::Object(fields) => spec_lookup(fields@, key),
        _ => Option::None,
    }
}

/// Looks `key` up in an object's field list; first binding wins.
pub fn lookup<'a>(fields: &'a Vec<(String, JsonValue)>, key: &str) -> (r: Option<&'a JsonValue>)
    ensures
        match r {
            Option::Some(v) => spec_lookup(fields@, key@) == Option::Some(*v),
            Option::None => spec_lookup(fields@, key@) is None,
        },
{
    let n = fields.len();
    let mut i: usize = 0;
    proof {
        assert(fields@.skip(0) =~= fields@);
    }
    while i < n
        invariant
            n == fields@.len(),
            0 <= i <= n,
            spec_lookup(fields@, key@) == spec_lookup(fields@.skip(i as int), key@),
        decreases n - i,
    {
        proof {
            assert(fields@.skip(i as int)[0] == fields@[i as int]);
            assert(fields@.skip(i as int).skip(1) =~= fields@.skip(i + 1));
        }
        if str_eq(fields[i].0.as_str(), key) {
            return Option::Some(&fields[i].1);
        }
        i += 1;
    }
    proof {
        assert(fields@.skip(n as int) =~= Seq::<(String, JsonValue)>::empty());
    }
    Option::None
}

/// Field access on a whole value: `None` unless `v` is an object with the
/// field.
pub fn get_field<'a>(v: &'a JsonValue, key: &str) -> (r: Option<&'a JsonValue>)
    ensures
        match r {
            Option::Some(f) => spec_field(*v, key@) == Option::Some(*f),
            Option::None => spec_field(*v, key@) is None,
        },
{
    match v {
        JsonValue::Object(fields) => lookup(fields, key),
        _ => Option::None,
    }
}

/// What `parse_json` returns: the tree a JSON document parses to, or `None`
/// when the text is not valid JSON. A function of the text alone.
pub uninterp spec fn spec_parse_json(s: Seq<char>) -> Option<JsonValue>;

/// What `render_json` returns: the pretty-printed text of a tree, a function
/// of the tree alone.
pub uninterp spec fn spec_render_json(v: JsonValue) -> Seq<char>;

#[verifier::external_type_specification]
#[verifier::external_body]
pub struct ExSerdeValue(serde_json::Value);

/// Relies on serde_json::Value being a finite tree read variant by variant:
/// numbers representable as `u64` keep their value, every other number
/// becomes `NumOther`.
#[verifier::external_body]
fn from_serde_value(v: &serde_json::Value) -> JsonValue {
    match v {
        serde_json::Value::Null => JsonValue::Null,
        serde_json::Value::Bool(b) => JsonValue::Bool(*b),
        serde_json::Value::Number(n) => match n.as_u64() {
            Some(u) => JsonValue::UInt(u),
            None => JsonValue::NumOther,
        },
        serde_json::Value::String(s) => JsonValue::Text(s.clone()),
        serde_json::Value::Array(items) => JsonValue::Array(items.iter().map(from_serde_value).collect()),
        serde_json::Value::Object(fields) => JsonValue::Object(
            fields.iter().map(|(k, x)| (k.clone(), from_serde_value(x))).collect(),
        ),
    }
}

/// The variant-by-variant inverse of `from_serde_value`; `NumOther` (which no
/// encoder of this library produces) is written out as `null`.
#[verifier::external_body]
fn to_serde_value(v: &JsonValue) -> serde_json::Value {
    match v {
        JsonValue::Null => serde_json::Value::Null,
        JsonValue::Bool(b) => serde_json::Value::Bool(*b),
        JsonValue::UInt(u) => serde_json::Value::Number(serde_json::Number::from(*u)),
        JsonValue::NumOther => serde_json::Value::Null,
        JsonValue::Text(s) => serde_json::Value::String(s.clone()),
        JsonValue::Array(items) => serde_json::Value::Array(items.iter().map(to_serde_value).collect()),
        JsonValue::Object(fields) => serde_json::Value::Object(
            fields.iter().map(|(k, x)| (k.clone(), to_serde_value(x))).collect(),
        ),
    }
}

/// Relies on serde_json::from_str: whether a document parses, and the tree it
/// parses to, depend on the text alone.
#[verifier::external_body]
pub fn parse_json(s: &str) -> (r: Option<JsonValue>)
    ensures
        r == spec_parse_json(s@),
{
    match serde_json::from_str::<serde_json::Value>(s) {
        Ok(v) => Some(from_serde_value(&v)),
        Err(_) => None,
    }
}

/// Relies on serde_json::to_string_pretty: the pretty text of a tree depends
/// on the tree alone (object fields keep their order; string keys never make
/// it fail).
#[verifier::external_body]
pub fn render_json(v: &JsonValue) -> (r: String)
    ensures
        r@ == spec_render_json(*v),
{
    serde_json::to_string_pretty(&to_serde_value(v)).unwrap_or_default()
}

} // verus!
