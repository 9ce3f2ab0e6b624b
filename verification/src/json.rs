//! The JSON values that cross the bridge, and their text.

use vstd::prelude::*;

verus! {

/// A JSON document of `serde_json`. What is known of one is known of its
/// text.
#[verifier::external_type_specification]
#[verifier::external_body]
pub struct ExJsonValue(serde_json::Value);

/// What a document holds: its compact JSON text, as `serde_json` prints
/// it.
pub uninterp spec fn json_text(value: serde_json::Value) -> Seq<char>;

/// The JSON string literal for a piece of text, as `serde_json` writes it:
/// the text between double quotes, with what JSON reserves escaped.
pub uninterp spec fn json_string(text: Seq<char>) -> Seq<char>;

/// Calls `Value::to_string`, which goes through the `Display` of a document
/// in `serde_json`: the result is the compact text that `json_text` names.
#[verifier::external_body]
pub(crate) fn value_text(value: &serde_json::Value) -> (text: String)
    ensures
        text@ == json_text(*value),
{
    value.to_string()
}

/// Calls `serde_json::to_string` on a string slice. The result is the
/// literal that `json_string` names. It is always there: a string slice has
/// no way to refuse to be serialized and holds no map, and the text is
/// written into memory.
#[verifier::external_body]
pub(crate) fn quote(text: &str) -> (quoted: Option<String>)
    ensures
        quoted is Some,
        quoted->Some_0@ == json_string(text@),
{
    serde_json::to_string(text).ok()
}

/// The compact text of what a document holds under a key, the document
/// given by its own compact text: there is something where the document is
/// an object with that key, and only there.
pub uninterp spec fn json_member(document: Seq<char>, key: Seq<char>) -> Option<Seq<char>>;

/// The text that a document is, the document given by its compact text:
/// there is one where the document is a string, and only there.
pub uninterp spec fn json_str(document: Seq<char>) -> Option<Seq<char>>;

/// Calls `Value::get` with a key: the result is the document whose text
/// `json_member` names, where there is one.
#[verifier::external_body]
pub(crate) fn member<'a>(value: &'a serde_json::Value, key: &str) -> (found: Option<
    &'a serde_json::Value,
>)
    ensures
        found is Some == json_member(json_text(*value), key@) is Some,
        found is Some ==> json_text(*found->Some_0) == json_member(
            json_text(*value),
            key@,
        )->Some_0,
{
    value.get(key)
}

/// Calls `Value::as_str` and copies what it gives: the result is the text
/// that `json_str` names, where there is one.
#[verifier::external_body]
pub(crate) fn as_text(value: &serde_json::Value) -> (text: Option<String>)
    ensures
        text is Some == json_str(json_text(*value)) is Some,
        text is Some ==> text->Some_0@ == json_str(json_text(*value))->Some_0,
{
    value.as_str().map(|text| text.to_string())
}

} // verus!
