//! Trusted access to JSON object fields, shared by the player protocol
//! parser and the directory client's URL-resolution fallback.

use vstd::prelude::*;

verus! {

/// The string held at `key` of the JSON object parsed from `text`, if `text`
/// is a JSON object holding a string there.
pub uninterp spec fn json_str_field_of(text: Seq<char>, key: Seq<char>) -> Option<Seq<char>>;

/// The boolean held at `key` of the JSON object parsed from `text`, if `text`
/// is a JSON object holding a boolean there.
pub uninterp spec fn json_bool_field_of(text: Seq<char>, key: Seq<char>) -> Option<bool>;

/// Relies on serde_json (`from_str`, `Value::get`, `Value::as_str`): the
/// string at `key` in the JSON object parsed from `text`; `None` when `text`
/// is not valid JSON, is not an object, lacks `key`, or holds a non-string
/// there. A function of the two strings alone.
#[verifier::external_body]
pub fn json_str_field(text: &str, key: &str) -> (r: Option<String>)
    ensures
        match r {
            Some(s) => json_str_field_of(text@, key@) == Some(s@),
            None => json_str_field_of(text@, key@) is None,
        },
{
    match serde_json::from_str::<serde_json::Value>(text) {
        Ok(v) => v.get(key).and_then(|f| f.as_str()).map(|s| s.to_owned()),
        Err(_) => None,
    }
}

/// Relies on serde_json (`from_str`, `Value::get`, `Value::as_bool`): the
/// boolean at `key` in the JSON object parsed from `text`; `None` when `text`
/// is not valid JSON, is not an object, lacks `key`, or holds a non-boolean
/// there. A function of the two strings alone.
#[verifier::external_body]
pub fn json_bool_field(text: &str, key: &str) -> (r: Option<bool>)
    ensures
        r == json_bool_field_of(text@, key@),
{
    match serde_json::from_str::<serde_json::Value>(text) {
        Ok(v) => v.get(key).and_then(|f| f.as_bool()),
        Err(_) => None,
    }
}

} // verus!
