//! JSON documents as `serde_json` holds them.
//!
//! The documents are parsed and walked by `serde_json`; Verus sees its
//! values as opaque and knows of them only what the names below say. Each
//! accessor of `serde_json` that the configuration reads through is wrapped
//! here once, and what it returns is named, not stated.

use vstd::prelude::*;

verus! {

/// A JSON value of `serde_json`, opaque to the verifier.
#[verifier::external_type_specification]
#[verifier::external_body]
pub struct ExJsonValue(serde_json::Value);

/// A JSON object of `serde_json`, opaque to the verifier.
#[verifier::external_type_specification]
#[verifier::external_body]
#[verifier::reject_recursive_types(K)]
#[verifier::reject_recursive_types(V)]
pub struct ExJsonMap<K, V>(serde_json::Map<K, V>);

/// The error type of `serde_json`, opaque to the verifier.
#[verifier::external_type_specification]
#[verifier::external_body]
pub struct ExJsonError(serde_json::Error);

/// The object that `serde_json::from_str` reads from `text`; none where the
/// text is no JSON object.
pub uninterp spec fn json_document(text: Seq<char>) -> Option<
    serde_json::Map<String, serde_json::Value>,
>;

/// What `serde_json::Map::get` returns for `key`.
pub uninterp spec fn json_member(
    map: serde_json::Map<String, serde_json::Value>,
    key: Seq<char>,
) -> Option<serde_json::Value>;

/// What `serde_json::Value::as_u64` returns.
pub uninterp spec fn json_u64(v: serde_json::Value) -> Option<u64>;

/// What `serde_json::Value::as_bool` returns.
pub uninterp spec fn json_bool(v: serde_json::Value) -> Option<bool>;

/// What `serde_json::Value::as_str` returns.
pub uninterp spec fn json_text(v: serde_json::Value) -> Option<Seq<char>>;

/// What `serde_json::Value::as_array` returns.
pub uninterp spec fn json_items(v: serde_json::Value) -> Option<Seq<serde_json::Value>>;

/// What `serde_json::Value::as_object` returns.
pub uninterp spec fn json_fields(v: serde_json::Value) -> Option<
    serde_json::Map<String, serde_json::Value>,
>;

/// Reads a JSON object from text. Trusted: `serde_json::from_str`, whose
/// outcome depends on the text alone.
#[verifier::external_body]
pub(crate) fn parse_document(text: &str) -> (r: Result<
    serde_json::Map<String, serde_json::Value>,
    serde_json::Error,
>)
    ensures
        match r {
            Ok(doc) => json_document(text@) == Some(doc),
            Err(_) => json_document(text@) is None,
        },
{
    serde_json::from_str(text)
}

/// The member of an object under a key. Trusted: `serde_json::Map::get`.
#[verifier::external_body]
pub(crate) fn member<'a>(map: &'a serde_json::Map<String, serde_json::Value>, key: &str) -> (r:
    Option<&'a serde_json::Value>)
    ensures
        match r {
            Some(v) => json_member(*map, key@) == Some(*v),
            None => json_member(*map, key@) is None,
        },
{
    map.get(key)
}

/// The value as an unsigned number. Trusted: `serde_json::Value::as_u64`.
#[verifier::external_body]
pub(crate) fn as_u64(v: &serde_json::Value) -> (r: Option<u64>)
    ensures
        r == json_u64(*v),
{
    v.as_u64()
}

/// The value as a truth value. Trusted: `serde_json::Value::as_bool`.
#[verifier::external_body]
pub(crate) fn as_bool(v: &serde_json::Value) -> (r: Option<bool>)
    ensures
        r == json_bool(*v),
{
    v.as_bool()
}

/// The value as text. Trusted: `serde_json::Value::as_str`.
#[verifier::external_body]
pub(crate) fn as_text<'a>(v: &'a serde_json::Value) -> (r: Option<&'a str>)
    ensures
        match r {
            Some(s) => json_text(*v) == Some(s@),
            None => json_text(*v) is None,
        },
{
    v.as_str()
}

/// The value as a list. Trusted: `serde_json::Value::as_array`.
#[verifier::external_body]
pub(crate) fn as_items<'a>(v: &'a serde_json::Value) -> (r: Option<&'a Vec<serde_json::Value>>)
    ensures
        match r {
            Some(items) => json_items(*v) == Some(items@),
            None => json_items(*v) is None,
        },
{
    v.as_array()
}

/// The value as an object. Trusted: `serde_json::Value::as_object`.
#[verifier::external_body]
pub(crate) fn as_fields<'a>(v: &'a serde_json::Value) -> (r: Option<
    &'a serde_json::Map<String, serde_json::Value>,
>)
    ensures
        match r {
            Some(map) => json_fields(*v) == Some(*map),
            None => json_fields(*v) is None,
        },
{
    v.as_object()
}

/// The text of an error of `serde_json`, for logs. Trusted: the `Debug`
/// form of `serde_json::Error`; nothing is claimed of it.
#[verifier::external_body]
pub(crate) fn describe_json_error(e: &serde_json::Error) -> (s: String) {
    format!("{:?}", e)
}

} // verus!
