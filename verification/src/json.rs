//! The JSON reader behind the resize codec.
//!
//! Parsing is done by `serde_json`. Nothing in this file is proved: the two
//! functions below state what the codec relies on, and the codec is verified
//! against those statements.

use vstd::prelude::*;

verus! {

/// A parsed JSON document. Its inside is not visible to the verifier.
#[verifier::external_type_specification]
#[verifier::external_body]
pub struct ExJsonValue(serde_json::Value);

/// The error that the JSON parser reports. It is only ever discarded.
#[verifier::external_type_specification]
#[verifier::external_body]
pub struct ExJsonError(serde_json::Error);

/// What a parsed document holds, as far as the codec reads it: for a JSON
/// object, its members whose value is a non-negative integer that fits in
/// 64 bits, by member name. Any other document holds no such member.
pub uninterp spec fn unsigned_members(doc: serde_json::Value) -> Map<Seq<char>, u64>;

/// The unsigned members of the document that a text parses to, or `None`
/// where the text is not one well-formed JSON document.
pub uninterp spec fn json_unsigned_fields(text: Seq<u8>) -> Option<Map<Seq<char>, u64>>;

/// The member stored under `key`, if there is one.
pub open spec fn member(fields: Map<Seq<char>, u64>, key: Seq<char>) -> Option<u64> {
    if fields.contains_key(key) {
        Some(fields[key])
    } else {
        None
    }
}

/// Calls `serde_json::from_slice` for a `serde_json::Value`.
///
/// Trusted: the outcome depends on the text alone. A text that parses yields
/// the document whose unsigned members `json_unsigned_fields` names; a text
/// that does not parse yields an error. The parser bounds its own recursion
/// and returns an error on every malformed input.
#[verifier::external_body]
pub(crate) fn parse_document(text: &[u8]) -> (r: Result<serde_json::Value, serde_json::Error>)
    ensures
        match r {
            Ok(doc) => json_unsigned_fields(text@) == Some(unsigned_members(doc)),
            Err(_) => json_unsigned_fields(text@) is None,
        },
{
    serde_json::from_slice::<serde_json::Value>(text)
}

/// Calls `serde_json::Value::get` with a member name and converts what it
/// finds with `serde_json::Value::as_u64`.
///
/// Trusted: the result is the unsigned member stored under `key`. `get`
/// returns nothing unless the document is an object that has the key, and
/// `as_u64` returns nothing unless the member is a non-negative integer.
#[verifier::external_body]
pub(crate) fn unsigned_member(doc: &serde_json::Value, key: &str) -> (r: Option<u64>)
    ensures
        r == member(unsigned_members(*doc), key@),
{
    match doc.get(key) {
        Some(found) => found.as_u64(),
        None => None,
    }
}

} // verus!
