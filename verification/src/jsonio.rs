//! Trusted boundary to the JSON parser and the dotted-path lookup used on
//! inbound notifications. Both notification channels carry loosely-typed
//! JSON; the logic only ever reads string values at fixed dotted paths, so
//! the document is modelled by the partial map from dotted path to the
//! string value found there.

use vstd::prelude::*;
use vstd::utf8::{decode_utf8, valid_utf8};

use json_dotpath::DotPaths;

verus! {

#[verifier::external_type_specification]
#[verifier::external_body]
pub struct ExJsonValue(serde_json::Value);

#[verifier::external_type_specification]
#[verifier::external_body]
pub struct ExJsonError(serde_json::Error);

#[verifier::external_type_specification]
#[verifier::external_body]
pub struct ExDotPathError(json_dotpath::Error);

/// The string values a parsed JSON document holds, keyed by dotted path:
/// the map holds `p -> s` exactly when looking up path `p` in the document
/// finds the JSON string `s`.
pub uninterp spec fn dot_strings(v: serde_json::Value) -> Map<Seq<char>, Seq<char>>;

/// What parsing a text as JSON yields: `None` when the text is not one
/// well-formed JSON value, otherwise the parsed document's string values
/// keyed by dotted path.
pub uninterp spec fn json_string_paths(text: Seq<char>) -> Option<Map<Seq<char>, Seq<char>>>;

/// Relies on `serde_json::from_str`: whether a text parses, and the
/// document it then yields, are functions of the text alone.
#[verifier::external_body]
pub(crate) fn json_from_str(s: &str) -> (r: Result<serde_json::Value, serde_json::Error>)
    ensures
        r is Ok <==> json_string_paths(s@) is Some,
        r matches Ok(v) ==> Some(dot_strings(v)) == json_string_paths(s@),
{
    serde_json::from_str(s)
}

/// Relies on `json_dotpath`'s `dot_get::<String>`: it returns `Ok(Some(_))`
/// exactly when the dotted path leads to a JSON string, and then returns
/// that string; a missing path gives `Ok(None)` and a path that cannot be
/// traversed or holds a non-string gives an error.
#[verifier::external_body]
pub(crate) fn dot_get_string(v: &serde_json::Value, path: &str) -> (r: Result<
    Option<String>,
    json_dotpath::Error,
>)
    ensures
        (r matches Ok(o) && o is Some) <==> dot_strings(*v).contains_key(path@),
        r matches Ok(o) && o matches Some(s) ==> s@ == dot_strings(*v)[path@],
{
    v.dot_get::<String>(path)
}

/// Relies on `String::from_utf8`: it succeeds exactly on valid UTF-8 and
/// returns the text those bytes encode.
#[verifier::external_body]
pub(crate) fn bytes_to_string(b: Vec<u8>) -> (r: Option<String>)
    ensures
        r is Some <==> valid_utf8(b@),
        r matches Some(s) ==> s@ == decode_utf8(b@),
{
    match String::from_utf8(b) {
        Ok(s) => Some(s),
        Err(_) => None,
    }
}

} // verus!
