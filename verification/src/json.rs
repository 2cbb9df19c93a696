//! JSON documents, read through `serde_json`.
//!
//! A document is opaque to the library: what a call reads from it is decided
//! by `serde_json`. Each such reading has a name here, and all that is
//! assumed is that a call hands back what its name says: the same document
//! always reads the same. The library fixes which members it asks for and
//! what it does with what it reads.

use vstd::prelude::*;

verus! {

/// `serde_json::Value`: an arbitrary JSON document.
#[verifier::external_type_specification]
#[verifier::external_body]
pub struct ExJsonValue(serde_json::Value);

/// `serde_json::Value::get` with a string key: the member of that name where
/// the document is an object that has one. The result is the member that the
/// document holds under the key.
#[verifier::external_body]
fn json_member<'a>(doc: &'a serde_json::Value, key: &str) -> (r: Option<&'a serde_json::Value>)
    ensures
        match r {
            Some(member) => json_member_of(*doc, key@) == Some(*member),
            None => json_member_of(*doc, key@) is None,
        },
{
    doc.get(key)
}

/// `serde_json::Value::as_str`: the text of a JSON string, and nothing for
/// any other value. The result is the text that the value holds.
pub assume_specification<'a>[ serde_json::Value::as_str ](v: &'a serde_json::Value) -> (r: Option<
    &'a str,
>)
    ensures
        match r {
            Some(text) => json_text_of(*v) == Some(text@),
            None => json_text_of(*v) is None,
        },
;

/// `serde_json::Value::as_u64`: the value of a JSON number that is a
/// non-negative integer in range, and nothing for any other value. The
/// result is the number that the value holds.
pub assume_specification[ serde_json::Value::as_u64 ](v: &serde_json::Value) -> (r: Option<u64>)
    ensures
        r == json_number_of(*v),
;

/// The member `key` of a document, where it is a string.
pub(crate) fn member_text<'a>(doc: &'a serde_json::Value, key: &str) -> (r: Option<&'a str>)
    ensures
        match r {
            Some(text) => text_member(*doc, key@) == Some(text@),
            None => text_member(*doc, key@) is None,
        },
{
    match json_member(doc, key) {
        Some(member) => member.as_str(),
        None => None,
    }
}

/// The member `key` of a document, where it is a non-negative integer.
pub(crate) fn member_number(doc: &serde_json::Value, key: &str) -> (r: Option<u64>)
    ensures
        r == number_member(*doc, key@),
{
    match json_member(doc, key) {
        Some(member) => member.as_u64(),
        None => None,
    }
}

/// The member that a document holds under `key`, as `serde_json::Value::get`
/// finds it: none where the document is no object or has no such member.
pub uninterp spec fn json_member_of(doc: serde_json::Value, key: Seq<char>) -> Option<
    serde_json::Value,
>;

/// The text that a value holds, as `serde_json::Value::as_str` reads it:
/// none where the value is no string.
pub uninterp spec fn json_text_of(value: serde_json::Value) -> Option<Seq<char>>;

/// The number that a value holds, as `serde_json::Value::as_u64` reads it:
/// none where the value is no non-negative integer in range.
pub uninterp spec fn json_number_of(value: serde_json::Value) -> Option<u64>;

/// The text of the member `key` of a document: none where the document has
/// no such member, or the member is no string.
pub open spec fn text_member(doc: serde_json::Value, key: Seq<char>) -> Option<Seq<char>> {
    match json_member_of(doc, key) {
        Some(member) => json_text_of(member),
        None => None,
    }
}

/// The number of the member `key` of a document: none where the document has
/// no such member, or the member is no non-negative integer in range.
pub open spec fn number_member(doc: serde_json::Value, key: Seq<char>) -> Option<u64> {
    match json_member_of(doc, key) {
        Some(member) => json_number_of(member),
        None => None,
    }
}

} // verus!
