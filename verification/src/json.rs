//! What the library takes from `serde_json`: the JSON value that a script's
//! output is read as. Nothing in this file is proved; each item says what it
//! takes on trust.

use vstd::prelude::*;

verus! {

/// `serde_json::Value`, carried through without looking inside.
#[verifier::external_type_specification]
#[verifier::external_body]
pub struct ExValue(serde_json::Value);

/// `serde_json::Error`, carried through without looking inside.
#[verifier::external_type_specification]
#[verifier::external_body]
pub struct ExError(serde_json::Error);

/// What `serde_json::from_str` makes of a text when a `serde_json::Value` is
/// asked for: the value it stands for, or the reason why it is not JSON.
pub uninterp spec fn json_from_str(text: Seq<char>) -> Result<serde_json::Value, serde_json::Error>;

/// The text is JSON and stands for `value`.
pub open spec fn parses_as(text: Seq<char>, value: serde_json::Value) -> bool {
    json_from_str(text) == Ok::<serde_json::Value, serde_json::Error>(value)
}

/// Calls `serde_json::from_str`. The parser reads nothing but the text it is
/// given, so its answer is the one named by `json_from_str`.
#[verifier::external_body]
pub(crate) fn from_str(text: &str) -> (parsed: Result<serde_json::Value, serde_json::Error>)
    ensures
        parsed == json_from_str(text@),
{
    serde_json::from_str::<serde_json::Value>(text)
}

/// Builds `serde_json::Value::Null`, which is what the parser makes of the
/// text `null`.
#[verifier::external_body]
pub(crate) fn null() -> (value: serde_json::Value)
    ensures
        parses_as("null"@, value),
{
    serde_json::Value::Null
}

} // verus!
