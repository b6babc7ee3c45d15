//! JSON values, as the `serde_json` crate parses and holds them.
//!
//! Verus cannot look inside a `serde_json::Value`, so this module gives what
//! a value holds a name, and states for each `serde_json` function that the
//! library calls what it returns. These statements are believed, not proved.

use vstd::prelude::*;

verus! {

/// `serde_json::Value`, a parsed JSON value.
#[verifier::external_type_specification]
#[verifier::external_body]
pub struct ExValue(serde_json::Value);

/// `serde_json::Error`, the diagnostic of a failed parse.
#[verifier::external_type_specification]
#[verifier::external_body]
pub struct ExJsonError(serde_json::Error);

/// A JSON value as a mathematical tree.
pub enum JsonView {
    /// `null`.
    Null,
    /// `true` or `false`.
    Bool(bool),
    /// A number: `Some(n)` where it is held as the unsigned integer `n` (it
    /// was written without fraction or exponent and fits `u64`), `None` for
    /// every other number.
    Number(Option<u64>),
    /// A string.
    String(Seq<char>),
    /// An array, with its items in order.
    Array(Seq<JsonView>),
    /// An object, with the value of each key.
    Object(Map<Seq<char>, JsonView>),
}

/// What a `serde_json::Value` holds.
pub uninterp spec fn json_view(value: serde_json::Value) -> JsonView;

/// What `serde_json::from_str` makes of a text: the value that the text
/// parses to, or the diagnostic where the text is not one JSON value.
pub uninterp spec fn parsed_json(text: Seq<char>) -> Result<JsonView, serde_json::Error>;

/// `serde_json::from_str` at the type `serde_json::Value`: the value that
/// the text parses to, or the diagnostic.
#[verifier::external_body]
pub(crate) fn parse_json(text: &str) -> (out: Result<serde_json::Value, serde_json::Error>)
    ensures
        match out {
            Ok(value) => parsed_json(text@) matches Ok(json) && json == json_view(value),
            Err(e) => parsed_json(text@) matches Err(diagnostic) && diagnostic == e,
        },
{
    serde_json::from_str::<serde_json::Value>(text)
}

/// `serde_json::Value::get` with a string index: the value under `key`
/// where `value` is an object that has the key, else `None`.
#[verifier::external_body]
pub(crate) fn member<'a>(value: &'a serde_json::Value, key: &str) -> (out: Option<
    &'a serde_json::Value,
>)
    ensures
        match json_view(*value) {
            JsonView::Object(members) => if members.dom().contains(key@) {
                out matches Some(found) && json_view(*found) == members[key@]
            } else {
                out is None
            },
            _ => out is None,
        },
{
    value.get(key)
}

/// `serde_json::Value::as_u64`: the number where `value` is a number held
/// as an unsigned integer, else `None`.
#[verifier::external_body]
pub(crate) fn as_u64(value: &serde_json::Value) -> (out: Option<u64>)
    ensures
        out == match json_view(*value) {
            JsonView::Number(n) => n,
            _ => None,
        },
{
    value.as_u64()
}

/// `serde_json::Value::as_str`, copied into a `String`: the text where
/// `value` is a string, else `None`.
#[verifier::external_body]
pub(crate) fn as_string(value: &serde_json::Value) -> (out: Option<String>)
    ensures
        match json_view(*value) {
            JsonView::String(s) => out matches Some(found) && found@ == s,
            _ => out is None,
        },
{
    value.as_str().map(|s| s.to_owned())
}

/// `serde_json::Value::as_array`: the items where `value` is an array, else
/// `None`.
#[verifier::external_body]
pub(crate) fn as_array<'a>(value: &'a serde_json::Value) -> (out: Option<
    &'a Vec<serde_json::Value>,
>)
    ensures
        match json_view(*value) {
            JsonView::Array(items) => out matches Some(found) && found@.len() == items.len()
                && forall|i: int| 0 <= i < items.len() ==> json_view(#[trigger] found@[i]) == items[i],
            _ => out is None,
        },
{
    value.as_array()
}

/// `serde_json::Value::is_null`: whether `value` is `null`.
#[verifier::external_body]
pub(crate) fn is_null(value: &serde_json::Value) -> (out: bool)
    ensures
        out == (json_view(*value) is Null),
{
    value.is_null()
}

/// `serde::de::Error::custom` at `serde_json::Error`: a diagnostic with the
/// given message, for a value that parses but has not the expected shape.
#[verifier::external_body]
pub(crate) fn shape_error(message: &str) -> serde_json::Error {
    <serde_json::Error as serde::de::Error>::custom(message)
}

} // verus!
