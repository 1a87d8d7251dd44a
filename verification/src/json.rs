//! A mathematical model of JSON documents, and trusted access to the JSON
//! parser that produces them.
//!
//! The parser itself is `serde_json`; this module declares its value type,
//! names what parsing yields, and wraps the few accessors the decoder needs.
//! Everything downstream is verified against the contracts stated here.

use vstd::prelude::*;

verus! {

/// A JSON document, as the contracts see it. An object is modeled as a map
/// from key to value; when a key occurs twice in the input text, the parser
/// keeps one binding for it.
pub enum Json {
    Null,
    Boolean(bool),
    Number,
    Text(Seq<char>),
    Array(Seq<Json>),
    Object(Map<Seq<char>, Json>),
}

#[verifier::external_type_specification]
#[verifier::external_body]
pub struct ExValue(serde_json::Value);

/// What parsing a line of text yields: `Some` exactly when the whole line is
/// one valid JSON document, and then the document itself.
pub uninterp spec fn json_of(s: Seq<char>) -> Option<Json>;

/// The document that a parsed `serde_json::Value` holds.
pub uninterp spec fn json_model(v: serde_json::Value) -> Json;

/// Relies on `serde_json::from_str::<Value>`: `Ok` exactly on a string that
/// is one valid JSON document, and then the parsed value. The `Err` case,
/// whose detail the caller never reads, is folded into `None` here.
#[verifier::external_body]
pub(crate) fn parse_json(line: &str) -> (r: Option<serde_json::Value>)
    ensures
        match r {
            Some(v) => json_of(line@) == Some(json_model(v)),
            None => json_of(line@) is None,
        },
{
    serde_json::from_str::<serde_json::Value>(line).ok()
}

/// Relies on `serde_json::Value::get` with a string index: on an object, the
/// binding of that key if there is one; `None` on anything else.
#[verifier::external_body]
pub(crate) fn json_get<'a>(v: &'a serde_json::Value, key: &str) -> (r: Option<
    &'a serde_json::Value,
>)
    ensures
        match r {
            Some(w) => json_model(*v) is Object && json_model(*v)->Object_0.contains_key(key@)
                && json_model(*w) == json_model(*v)->Object_0[key@],
            None => !(json_model(*v) is Object && json_model(*v)->Object_0.contains_key(key@)),
        },
{
    v.get(key)
}

/// Relies on `serde_json::Value::as_str`: `Some` exactly on a JSON string,
/// and then its characters.
#[verifier::external_body]
pub(crate) fn json_as_str(v: &serde_json::Value) -> (r: Option<String>)
    ensures
        match r {
            Some(s) => json_model(*v) == Json::Text(s@),
            None => !(json_model(*v) is Text),
        },
{
    v.as_str().map(|s| s.to_owned())
}

/// Relies on `serde_json::Value::is_null`.
#[verifier::external_body]
pub(crate) fn json_is_null(v: &serde_json::Value) -> (r: bool)
    ensures
        r == (json_model(*v) is Null),
{
    v.is_null()
}

/// Relies on `serde_json::Value::is_object`.
#[verifier::external_body]
pub(crate) fn json_is_object(v: &serde_json::Value) -> (r: bool)
    ensures
        r == (json_model(*v) is Object),
{
    v.is_object()
}

} // verus!
