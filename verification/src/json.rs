//! Queries on JSON response text, answered by serde_json.
//!
//! Each query parses the text anew and returns plain values, so that every
//! result is a function of the arguments alone. The uninterpreted spec
//! functions name those results; the decoding functions' contracts are
//! stated over the names.

use vstd::prelude::*;

use crate::error::ApiError;

verus! {

/// The object field under `key`, re-serialized to JSON text; `None` where
/// the text is not a JSON object or has no such field.
pub uninterp spec fn json_field(text: Seq<char>, key: Seq<char>) -> Option<Seq<char>>;

/// The content of the string field under `key`; `None` where the text is
/// not a JSON object, the field is absent, or it is not a string.
pub uninterp spec fn json_str_field(text: Seq<char>, key: Seq<char>) -> Option<Seq<char>>;

/// The value of the numeric field under `key`, where it fits in a `u64`.
pub uninterp spec fn json_u64_field(text: Seq<char>, key: Seq<char>) -> Option<u64>;

/// The number of elements, where the text is a JSON array.
pub uninterp spec fn json_array_len(text: Seq<char>) -> Option<usize>;

/// Element `i` of the array, re-serialized to JSON text.
pub uninterp spec fn json_array_elem(text: Seq<char>, i: int) -> Option<Seq<char>>;

/// Relies on serde_json::from_str, Value::get and serde_json::to_string:
/// with the `preserve_order` feature off, a field's re-serialization is a
/// function of the input text alone.
#[verifier::external_body]
pub(crate) fn field_text(text: &str, key: &str) -> (r: Option<String>)
    ensures
        r.deep_view() == json_field(text@, key@),
{
    let value: serde_json::Value = match serde_json::from_str(text) {
        Ok(v) => v,
        Err(_) => return None,
    };
    match value.get(key) {
        Some(f) => serde_json::to_string(f).ok(),
        None => None,
    }
}

/// Relies on serde_json::from_str, Value::get and Value::as_str: the
/// borrowed field content is handed back as an owned string.
#[verifier::external_body]
pub(crate) fn str_field(text: &str, key: &str) -> (r: Option<String>)
    ensures
        r.deep_view() == json_str_field(text@, key@),
{
    let value: serde_json::Value = match serde_json::from_str(text) {
        Ok(v) => v,
        Err(_) => return None,
    };
    match value.get(key) {
        Some(f) => match f.as_str() {
            Some(s) => Some(s.to_owned()),
            None => None,
        },
        None => None,
    }
}

/// Relies on serde_json::from_str, Value::get and Value::as_u64: `as_u64`
/// answers only for numbers that fit in a `u64`.
#[verifier::external_body]
pub(crate) fn u64_field(text: &str, key: &str) -> (r: Option<u64>)
    ensures
        r == json_u64_field(text@, key@),
{
    let value: serde_json::Value = match serde_json::from_str(text) {
        Ok(v) => v,
        Err(_) => return None,
    };
    match value.get(key) {
        Some(f) => f.as_u64(),
        None => None,
    }
}

/// Relies on serde_json::from_str and Value::as_array: the element count
/// of a JSON array.
#[verifier::external_body]
pub(crate) fn array_len(text: &str) -> (r: Option<usize>)
    ensures
        r == json_array_len(text@),
{
    let value: serde_json::Value = match serde_json::from_str(text) {
        Ok(v) => v,
        Err(_) => return None,
    };
    match value.as_array() {
        Some(a) => Some(a.len()),
        None => None,
    }
}

/// Relies on serde_json::from_str, Value::as_array, Vec::get and
/// serde_json::to_string: `get` answers exactly for indices below the
/// array's length.
#[verifier::external_body]
pub(crate) fn array_elem(text: &str, i: usize) -> (r: Option<String>)
    ensures
        r.deep_view() == json_array_elem(text@, i as int),
        r is Some <==> (json_array_len(text@) matches Some(n) && i < n),
{
    let value: serde_json::Value = match serde_json::from_str(text) {
        Ok(v) => v,
        Err(_) => return None,
    };
    match value.as_array() {
        Some(a) => match a.get(i) {
            Some(e) => serde_json::to_string(e).ok(),
            None => None,
        },
        None => None,
    }
}

/// Extracts the payload of the `{"data": [...]}` envelope that every
/// list-returning endpoint wraps its response in.
pub fn unwrap_data_envelope(text: &str) -> (r: Result<String, ApiError>)
    ensures
        match r {
            Ok(d) => json_field(text@, "data"@) == Some(d@),
            Err(e) => e is MalformedResponse && json_field(text@, "data"@) is None,
        },
{
    match field_text(text, "data") {
        Some(d) => Ok(d),
        None => Err(ApiError::MalformedResponse),
    }
}

} // verus!
