//! JSON documents, read and written by `serde_json`.
//!
//! The store keeps every document as text and never looks inside one. The
//! handlers need four things of a document: to parse it, to write it out,
//! to look a member up, and to read a string. `serde_json` does all four;
//! nothing in this file is proved, and each contract says no more than that
//! the result is the one `serde_json` computes from the same arguments.
use vstd::prelude::*;

verus! {

/// `serde_json::Value`: a parsed JSON document, opaque to the proofs.
#[verifier::external_type_specification]
#[verifier::external_body]
pub struct ExValue(serde_json::Value);

/// `serde_json::Error`: why a text is no JSON document, opaque to the proofs.
#[verifier::external_type_specification]
#[verifier::external_body]
pub struct ExJsonError(serde_json::Error);

/// The document that `serde_json::from_str` reads out of `text`, `None`
/// where it rejects the text.
pub uninterp spec fn json_parsed(text: Seq<char>) -> Option<serde_json::Value>;

/// The compact text that `serde_json::Value` writes for `value` through
/// `to_string`.
pub uninterp spec fn json_text(value: serde_json::Value) -> Seq<char>;

/// The member that `serde_json::Value::get` finds in `value` under the
/// string `key`, `None` where `value` is no object or has no such member.
pub uninterp spec fn json_member(value: serde_json::Value, key: Seq<char>) -> Option<
    serde_json::Value,
>;

/// The string that `serde_json::Value::as_str` reads from `value`, `None`
/// where `value` is no JSON string.
pub uninterp spec fn json_str(value: serde_json::Value) -> Option<Seq<char>>;

/// Calls `serde_json::from_str` for a `Value`. Claimed: the call succeeds
/// exactly on the texts that `json_parsed` names a document for, and then
/// returns that document.
#[verifier::external_body]
pub(crate) fn parse(text: &str) -> (r: Result<serde_json::Value, serde_json::Error>)
    ensures
        r is Ok <==> json_parsed(text@) is Some,
        r is Ok ==> json_parsed(text@) == Some(r->Ok_0),
{
    serde_json::from_str(text)
}

/// Calls `to_string` on a `serde_json::Value`. Claimed: the result is the
/// text that `json_text` names.
#[verifier::external_body]
pub(crate) fn to_text(value: &serde_json::Value) -> (r: String)
    ensures
        r@ == json_text(*value),
{
    value.to_string()
}

/// Calls `serde_json::Value::get` with a string key. Claimed: the result is
/// the member that `json_member` names.
#[verifier::external_body]
pub(crate) fn member<'a>(value: &'a serde_json::Value, key: &str) -> (r: Option<
    &'a serde_json::Value,
>)
    ensures
        r is Some <==> json_member(*value, key@) is Some,
        r is Some ==> json_member(*value, key@) == Some(*r->Some_0),
{
    value.get(key)
}

/// Calls `serde_json::Value::as_str`. Claimed: the result is the string
/// that `json_str` names.
#[verifier::external_body]
pub(crate) fn as_str<'a>(value: &'a serde_json::Value) -> (r: Option<&'a str>)
    ensures
        r is Some <==> json_str(*value) is Some,
        r is Some ==> json_str(*value) == Some(r->Some_0@),
{
    value.as_str()
}

} // verus!
