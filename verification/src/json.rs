//! The JSON values that tool calls carry, as `serde_json` holds them.
//!
//! A `serde_json::Value` is opaque to the verifier. What the crate reads from
//! one is given a name here, and each function below states over those names
//! what the corresponding `serde_json` call returns. None of these statements
//! is proved.

use vstd::prelude::*;

verus! {

#[verifier::external_type_specification]
#[verifier::external_body]
pub struct ExJsonValue(serde_json::Value);

/// The value that `text` denotes as a JSON document, where it is one.
pub uninterp spec fn json_parsed(text: Seq<char>) -> Option<serde_json::Value>;

/// The members of a JSON object by key; empty for any other value.
pub uninterp spec fn json_members(v: serde_json::Value) -> Map<Seq<char>, serde_json::Value>;

/// The elements of a JSON array.
pub uninterp spec fn json_elements(v: serde_json::Value) -> Option<Seq<serde_json::Value>>;

/// The text of a JSON string.
pub uninterp spec fn json_text(v: serde_json::Value) -> Option<Seq<char>>;

/// The compact JSON text that a value is written as.
pub uninterp spec fn json_rendered(v: serde_json::Value) -> Seq<char>;

/// Equality of two values as `serde_json` compares them.
pub uninterp spec fn json_equal(a: serde_json::Value, b: serde_json::Value) -> bool;

/// The member `key` of `v`, where `v` is an object that has one.
pub open spec fn json_member(v: serde_json::Value, key: Seq<char>) -> Option<serde_json::Value> {
    if json_members(v).contains_key(key) {
        Some(json_members(v)[key])
    } else {
        None
    }
}

/// The text of the member `key` of `v`, where that member is a string.
pub open spec fn json_text_member(v: serde_json::Value, key: Seq<char>) -> Option<Seq<char>> {
    match json_member(v, key) {
        Some(m) => json_text(m),
        None => None,
    }
}

/// `serde_json::from_str` at type `Value`: parses a whole document, and fails
/// on anything else. Trusted: the result is the named `json_parsed`.
#[verifier::external_body]
pub(crate) fn parse_value(text: &str) -> (r: Option<serde_json::Value>)
    ensures
        r == json_parsed(text@),
{
    serde_json::from_str::<serde_json::Value>(text).ok()
}

/// `Value::get` with a string index: the member under `key` of an object,
/// `None` for a missing key and for a value that is no object. Trusted.
#[verifier::external_body]
pub(crate) fn member<'a>(v: &'a serde_json::Value, key: &str) -> (r: Option<&'a serde_json::Value>)
    ensures
        match r {
            Some(m) => json_members(*v).contains_key(key@) && json_members(*v)[key@] == *m,
            None => !json_members(*v).contains_key(key@),
        },
{
    v.get(key)
}

/// `Value::as_str`: the text of a string value, `None` for any other value.
/// Trusted.
#[verifier::external_body]
pub(crate) fn text_of<'a>(v: &'a serde_json::Value) -> (r: Option<&'a str>)
    ensures
        match r {
            Some(s) => json_text(*v) == Some(s@),
            None => json_text(*v) is None,
        },
{
    v.as_str()
}

/// `Value::as_array`: the elements of an array value, `None` for any other
/// value. Trusted.
#[verifier::external_body]
pub(crate) fn elements_of<'a>(v: &'a serde_json::Value) -> (r: Option<&'a Vec<serde_json::Value>>)
    ensures
        match r {
            Some(items) => json_elements(*v) == Some(items@),
            None => json_elements(*v) is None,
        },
{
    v.as_array()
}

/// The empty JSON object, made by `Map::new` and `Value::Object`. Trusted:
/// it has no members, it is no string and no array, and it is written `{}`.
#[verifier::external_body]
pub(crate) fn empty_object() -> (object: serde_json::Value)
    ensures
        forall|key: Seq<char>| !json_members(object).contains_key(key),
        json_text(object) is None,
        json_elements(object) is None,
        json_rendered(object) == "{}"@,
{
    serde_json::Value::Object(serde_json::Map::new())
}

/// `Value`'s `Display`, through `to_string`: the compact JSON text of the
/// value. Trusted: the result is the named `json_rendered`.
#[verifier::external_body]
pub(crate) fn render(v: &serde_json::Value) -> (r: String)
    ensures
        r@ == json_rendered(*v),
{
    v.to_string()
}

/// `Value`'s `PartialEq`. Trusted: the result is the named `json_equal`, and
/// a value equals itself (a `Value` holds no NaN).
#[verifier::external_body]
pub(crate) fn same_value(a: &serde_json::Value, b: &serde_json::Value) -> (r: bool)
    ensures
        r == json_equal(*a, *b),
        *a == *b ==> r,
{
    a == b
}

/// `Value`'s `Clone`. Trusted: the copy is the same value.
pub assume_specification[ <serde_json::Value as Clone>::clone ](v: &serde_json::Value) -> (r:
    serde_json::Value)
    ensures
        r == *v,
;

/// The text of the member `key` of `v`, where that member is a string.
pub fn text_member(v: &serde_json::Value, key: &str) -> (r: Option<String>)
    ensures
        match r {
            Some(s) => json_text_member(*v, key@) == Some(s@),
            None => json_text_member(*v, key@) is None,
        },
{
    match member(v, key) {
        Some(m) => match text_of(m) {
            Some(s) => Some(s.to_owned()),
            None => None,
        },
        None => None,
    }
}

} // verus!
