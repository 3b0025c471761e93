//! The one place the library touches serde_json. Every venue payload
//! is navigated through these wrappers; all numeric text they hand out
//! is parsed by the verified decimal parser, never by float conversion.

use vstd::prelude::*;

verus! {

#[verifier::external_type_specification]
#[verifier::external_body]
pub struct ExValue(serde_json::Value);

/// Whether a byte string parses as a JSON document: a function of the
/// bytes alone, named so that callers can speak of success without the
/// opaque tree being stated.
pub uninterp spec fn json_parses(bytes: Seq<u8>) -> bool;

/// Relies on serde_json::from_slice: whether the bytes parse as JSON
/// depends on the bytes alone, but the resulting tree stays opaque
/// here, so nothing more is claimed of it.
#[verifier::external_body]
pub fn json_parse(slice: &[u8]) -> (r: Option<serde_json::Value>)
    ensures
        r is Some <==> json_parses(slice@),
{
    serde_json::from_slice(slice).ok()
}

/// Relies on serde_json::Value::get with a string key: Some on an
/// object that holds the key, None otherwise.
#[verifier::external_body]
pub fn json_get<'a>(v: &'a serde_json::Value, key: &str) -> (r: Option<&'a serde_json::Value>) {
    v.get(key)
}

/// Relies on serde_json::Value::get with an index: Some on an array
/// longer than `i`, None otherwise.
#[verifier::external_body]
pub fn json_get_index<'a>(v: &'a serde_json::Value, i: usize) -> (r: Option<
    &'a serde_json::Value,
>) {
    v.get(i)
}

/// Relies on serde_json::Value::as_str: Some exactly on a JSON string.
#[verifier::external_body]
pub fn json_as_str<'a>(v: &'a serde_json::Value) -> (r: Option<&'a str>) {
    v.as_str()
}

/// Relies on serde_json::Value::as_u64: Some exactly on an unsigned
/// integer number.
#[verifier::external_body]
pub fn json_as_u64(v: &serde_json::Value) -> (r: Option<u64>) {
    v.as_u64()
}

/// Relies on serde_json::Value::as_bool: Some exactly on a boolean.
#[verifier::external_body]
pub fn json_as_bool(v: &serde_json::Value) -> (r: Option<bool>) {
    v.as_bool()
}

/// Relies on serde_json::Value::as_array: Some exactly on an array.
#[verifier::external_body]
pub fn json_as_array<'a>(v: &'a serde_json::Value) -> (r: Option<&'a Vec<serde_json::Value>>) {
    v.as_array()
}

/// Relies on serde_json::Number's Display: a JSON number rendered back
/// as its decimal text, for the verified decimal parser to read.
#[verifier::external_body]
pub fn json_number_string(v: &serde_json::Value) -> (r: Option<String>) {
    match v {
        serde_json::Value::Number(n) => Some(format!("{}", n)),
        _ => None,
    }
}

/// Relies on serde_json::Map::keys: the keys of a JSON object, in the
/// sorted order the underlying ordered map yields them; None on any
/// other value.
#[verifier::external_body]
pub fn json_object_keys(v: &serde_json::Value) -> (r: Option<Vec<String>>) {
    match v {
        serde_json::Value::Object(m) => Some(m.keys().cloned().collect()),
        _ => None,
    }
}

/// The text of a JSON string, or a JSON number rendered as decimal
/// text: how venue payloads carry their prices and quantities.
pub fn json_text(v: &serde_json::Value) -> (r: Option<String>) {
    match json_as_str(v) {
        Some(s) => Some(s.to_owned()),
        None => json_number_string(v),
    }
}

} // verus!
