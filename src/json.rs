//! A plain model of a parsed JSON document, and the parse itself.

use vstd::prelude::*;

verus! {

/// A JSON value as the decoder reads it.
///
/// A number keeps its value only when it is a non-negative integer that fits
/// in `u64`; any other number (negative, fractional, or too large) is
/// `Number(None)`. An object keeps its members in order.
#[derive(Debug, PartialEq)]
pub enum Json {
    Null,
    Bool(bool),
    Number(Option<u64>),
    Str(String),
    Array(Vec<Json>),
    Object(Vec<(String, Json)>),
}

/// The value of the last member of `fields` whose key is `key`.
pub open spec fn lookup(fields: Seq<(String, Json)>, key: Seq<char>) -> Option<Json>
    decreases fields.len(),
{
    if fields.len() == 0 {
        None
    } else if fields.last().0@ == key {
        Some(fields.last().1)
    } else {
        lookup(fields.drop_last(), key)
    }
}

/// Finds the member of an object called `key` (the last one, should a key repeat).
pub fn get_field<'a>(fields: &'a Vec<(String, Json)>, key: &str) -> (r: Option<&'a Json>)
    ensures
        match r {
            Some(v) => lookup(fields@, key@) == Some(*v),
            None => lookup(fields@, key@) is None,
        },
{
    let k = String::from_str(key);
    let mut i: usize = fields.len();
    assert(fields@.take(i as int) =~= fields@);
    while i > 0
        invariant
            i <= fields@.len(),
            k@ == key@,
            lookup(fields@, key@) == lookup(fields@.take(i as int), key@),
        decreases i,
    {
        assert(fields@.take(i as int).drop_last() =~= fields@.take(i - 1));
        if fields[i - 1].0 == k {
            return Some(&fields[i - 1].1);
        }
        i = i - 1;
    }
    None
}

#[verifier::external_type_specification]
#[verifier::external_body]
pub struct ExValue(serde_json::Value);

/// What serde_json makes of a body, in the terms of [`Json`]: `None` when the
/// bytes are not one well-formed JSON document.
pub uninterp spec fn parsed_json(body: Seq<u8>) -> Option<Json>;

/// Relies on serde_json's `Value` variants: copies a parsed value, member by
/// member and element by element, into a [`Json`].
#[verifier::external_body]
fn json_of_value(v: &serde_json::Value) -> Json {
    match v {
        serde_json::Value::Null => Json::Null,
        serde_json::Value::Bool(b) => Json::Bool(*b),
        serde_json::Value::Number(n) => Json::Number(n.as_u64()),
        serde_json::Value::String(s) => Json::Str(s.clone()),
        serde_json::Value::Array(a) => Json::Array(a.iter().map(json_of_value).collect()),
        serde_json::Value::Object(m) => Json::Object(
            m.iter().map(|(k, x)| (k.clone(), json_of_value(x))).collect(),
        ),
    }
}

/// Relies on serde_json::from_slice: parses the bytes as one JSON document,
/// a deterministic function of the bytes.
#[verifier::external_body]
pub(crate) fn parse_json(body: &[u8]) -> (r: Option<Json>)
    ensures
        r == parsed_json(body@),
{
    serde_json::from_slice::<serde_json::Value>(body).ok().map(|v| json_of_value(&v))
}

} // verus!
