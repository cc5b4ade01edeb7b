//! Access to JSON documents decoded by `serde_json`.
use vstd::prelude::*;

verus! {

#[verifier::external_type_specification]
#[verifier::external_body]
pub struct ExJsonValue(serde_json::Value);

#[verifier::external_type_specification]
#[verifier::external_body]
pub struct ExJsonError(serde_json::Error);

/// What `serde_json::from_slice::<serde_json::Value>` makes of `bytes`: the
/// document, or the text of the decoding error.
pub uninterp spec fn json_parse(bytes: Seq<u8>) -> Result<serde_json::Value, Seq<char>>;

/// What indexing `value` by `key` gives: the member `key` of an object, and
/// `null` for a missing member or for a value that is no object.
pub uninterp spec fn json_member(value: serde_json::Value, key: Seq<char>) -> serde_json::Value;

/// The elements of `value` when it is an array.
pub uninterp spec fn json_array_items(value: serde_json::Value) -> Option<Seq<serde_json::Value>>;

/// The text of `value` when it is a string.
pub uninterp spec fn json_string(value: serde_json::Value) -> Option<Seq<char>>;

/// The compact JSON text that `Display` writes for `value`.
pub uninterp spec fn json_text(value: serde_json::Value) -> Seq<char>;

/// Decodes `bytes` with `serde_json::from_slice` into a `serde_json::Value`;
/// on failure, gives the error's text. Claims that the outcome is a
/// function of the bytes alone.
#[verifier::external_body]
pub(crate) fn parse_json(bytes: &[u8]) -> (r: Result<serde_json::Value, String>)
    ensures
        match (r, json_parse(bytes@)) {
            (Ok(v), Ok(w)) => v == w,
            (Err(e), Err(m)) => e@ == m,
            _ => false,
        },
{
    match serde_json::from_slice::<serde_json::Value>(bytes) {
        Ok(value) => Ok(value),
        Err(err) => Err(err.to_string()),
    }
}

/// `&value[key]` of `serde_json::Value`, which yields the member `key` of an
/// object and `null` otherwise; claims only that the result is a function
/// of the value and the key.
#[verifier::external_body]
pub(crate) fn json_get<'a>(value: &'a serde_json::Value, key: &str) -> (r: &'a serde_json::Value)
    ensures
        *r == json_member(*value, key@),
{
    &value[key]
}

/// `serde_json::Value::as_array`: the elements of an array, `None` for any
/// other value.
#[verifier::external_body]
pub(crate) fn json_as_array(value: &serde_json::Value) -> (r: Option<&Vec<serde_json::Value>>)
    ensures
        match r {
            Some(items) => json_array_items(*value) == Some(items@),
            None => json_array_items(*value) is None,
        },
{
    value.as_array()
}

/// `serde_json::Value::as_str`: the text of a string, `None` for any other
/// value.
#[verifier::external_body]
pub(crate) fn json_as_str(value: &serde_json::Value) -> (r: Option<&str>)
    ensures
        match r {
            Some(s) => json_string(*value) == Some(s@),
            None => json_string(*value) is None,
        },
{
    value.as_str()
}

/// `value == text` through `PartialEq<&str> for serde_json::Value`, which
/// its source defines as `value.as_str() == Some(text)`.
#[verifier::external_body]
pub(crate) fn json_eq_str(value: &serde_json::Value, text: &str) -> (r: bool)
    ensures
        r == (json_string(*value) == Some(text@)),
{
    *value == text
}

/// `value.to_string()` through `Display for serde_json::Value`, the compact
/// JSON text of the value.
#[verifier::external_body]
pub(crate) fn json_to_text(value: &serde_json::Value) -> (r: String)
    ensures
        r@ == json_text(*value),
{
    value.to_string()
}

} // verus!
