//! The few operations on JSON documents (`serde_json::Value`) that the
//! supervisor's decisions read or build.
use vstd::prelude::*;

verus! {

/// The member `key` of a JSON object, as `Value::get` reads it; `None` for a
/// missing key and for a document that is not an object.
pub uninterp spec fn json_field(v: serde_json::Value, key: Seq<char>) -> Option<serde_json::Value>;

/// The text of a JSON string, as `Value::as_str` reads it; `None` for a
/// document that is not a string.
pub uninterp spec fn json_text(v: serde_json::Value) -> Option<Seq<char>>;

/// The JSON string holding `s`.
pub uninterp spec fn json_string(s: Seq<char>) -> serde_json::Value;

/// Whether a JSON document is `null`.
pub uninterp spec fn json_is_null(v: serde_json::Value) -> bool;

/// The JSON object whose single member `key` holds `value`.
pub uninterp spec fn json_singleton(key: Seq<char>, value: serde_json::Value) -> serde_json::Value;

/// What `serde_json::from_str` makes of `text` as a `Value`: the document,
/// or the message that the error displays.
pub uninterp spec fn parsed_json(text: Seq<char>) -> Result<serde_json::Value, Seq<char>>;

/// The text that `serde_json::to_string_pretty` writes for `v`, or `None`
/// when it fails.
pub uninterp spec fn pretty_json(v: serde_json::Value) -> Option<Seq<char>>;

/// Parses `text` with `serde_json::from_str` into a `Value`; an error is
/// given as the message it displays.
#[verifier::external_body]
pub(crate) fn json_parse(text: &str) -> (r: Result<serde_json::Value, String>)
    ensures
        match r {
            Ok(v) => parsed_json(text@) == Ok::<serde_json::Value, Seq<char>>(v),
            Err(e) => parsed_json(text@) == Err::<serde_json::Value, Seq<char>>(e@),
        },
{
    match serde_json::from_str::<serde_json::Value>(text) {
        Ok(v) => Ok(v),
        Err(e) => Err(e.to_string()),
    }
}

/// Writes `v` with `serde_json::to_string_pretty`.
#[verifier::external_body]
pub(crate) fn json_to_pretty(v: &serde_json::Value) -> (r: Option<String>)
    ensures
        match r {
            Some(t) => pretty_json(*v) == Some(t@),
            None => pretty_json(*v) is None,
        },
{
    serde_json::to_string_pretty(v).ok()
}

/// Reads the member `key` with `Value::get` and clones it.
#[verifier::external_body]
pub(crate) fn json_get(v: &serde_json::Value, key: &str) -> (r: Option<serde_json::Value>)
    ensures
        r == json_field(*v, key@),
{
    v.get(key).cloned()
}

/// Reads a JSON string with `Value::as_str`.
#[verifier::external_body]
pub(crate) fn json_as_str(v: &serde_json::Value) -> (r: Option<String>)
    ensures
        match r {
            Some(s) => json_text(*v) == Some(s@),
            None => json_text(*v) is None,
        },
{
    v.as_str().map(|s| s.to_string())
}

/// Builds `Value::String(s)`; `Value::as_str` reads the same text back.
#[verifier::external_body]
pub(crate) fn json_from_string(s: String) -> (r: serde_json::Value)
    ensures
        r == json_string(s@),
        json_text(r) == Some(s@),
{
    serde_json::Value::String(s)
}

/// Builds `Value::Null`, which is not a string.
#[verifier::external_body]
pub(crate) fn json_null_value() -> (r: serde_json::Value)
    ensures
        json_is_null(r),
        json_text(r) is None,
{
    serde_json::Value::Null
}

/// Builds a JSON object with the single member `key`; `Value::get` reads
/// `value` back under that key.
#[verifier::external_body]
pub(crate) fn json_object_with(key: String, value: serde_json::Value) -> (r: serde_json::Value)
    ensures
        r == json_singleton(key@, value),
        json_field(r, key@) == Some(value),
{
    let mut map = serde_json::Map::new();
    map.insert(key, value);
    serde_json::Value::Object(map)
}

} // verus!
