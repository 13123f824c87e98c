//! Reading members out of the JSON text of a response.
//!
//! The parsing is done by `serde_json`; nothing in this module is proved of
//! it. What a lookup returns is a function of the text and the pointer alone,
//! and the two names below stand for it in the contracts of this crate.

use vstd::prelude::*;

verus! {

/// The compact JSON text of the member that `pointer` addresses in the JSON
/// document `body`; `None` where `body` is no JSON document or holds no such
/// member. `pointer` is a JSON Pointer: reference tokens, each after a `/`.
pub uninterp spec fn json_member_text(body: Seq<char>, pointer: Seq<char>) -> Option<Seq<char>>;

/// The value of the member that `pointer` addresses in the JSON document
/// `body`, where that member is a JSON string; `None` where `body` is no JSON
/// document, holds no such member, or holds one that is not a string.
pub uninterp spec fn json_member_string(body: Seq<char>, pointer: Seq<char>) -> Option<
    Seq<char>,
>;

/// The characters of an optional text.
pub open spec fn text_of(text: Option<String>) -> Option<Seq<char>> {
    match text {
        Some(t) => Some(t@),
        None => None,
    }
}

/// Parses `body` with `serde_json::from_str`, looks `pointer` up with
/// `serde_json::Value::pointer` and renders the member that was found with the
/// `Display` of `serde_json::Value`, which writes compact JSON. The contract
/// only gives that result its name.
#[verifier::external_body]
pub(crate) fn member_text(body: &str, pointer: &str) -> (r: Option<String>)
    ensures
        text_of(r) == json_member_text(body@, pointer@),
{
    let document: Result<serde_json::Value, serde_json::Error> = serde_json::from_str(body);
    match document {
        Ok(value) => value.pointer(pointer).map(|member| member.to_string()),
        Err(_) => None,
    }
}

/// Parses `body` with `serde_json::from_str`, looks `pointer` up with
/// `serde_json::Value::pointer` and takes the member's text with
/// `serde_json::Value::as_str`, which is `None` for a member that is not a
/// string. The contract only gives that result its name.
#[verifier::external_body]
pub(crate) fn member_string(body: &str, pointer: &str) -> (r: Option<String>)
    ensures
        text_of(r) == json_member_string(body@, pointer@),
{
    let document: Result<serde_json::Value, serde_json::Error> = serde_json::from_str(body);
    match document {
        Ok(value) => value.pointer(pointer).and_then(|member| member.as_str()).map(
            |text| text.to_owned(),
        ),
        Err(_) => None,
    }
}

} // verus!
