//! The encodings a token is wrapped in: base64url around JSON. Both are
//! decoded by the crates that own the formats; what this module says of them
//! is taken on trust.

use base64::Engine;
use vstd::prelude::*;

verus! {

/// `base64::DecodeError`, carried through unread.
#[verifier::external_type_specification]
#[verifier::external_body]
pub struct ExBase64DecodeError(base64::DecodeError);

/// `serde_json::Value`: a parsed document. What it holds is read through
/// `json_text_members` and `json_integer_members`.
#[verifier::external_type_specification]
#[verifier::external_body]
pub struct ExJsonValue(serde_json::Value);

/// `serde_json::Error`, carried through unread.
#[verifier::external_type_specification]
#[verifier::external_body]
pub struct ExJsonError(serde_json::Error);

/// The bytes that `text` stands for in unpadded URL-safe base64, or `None`
/// where `text` is not such an encoding.
pub uninterp spec fn base64url_decoded(text: Seq<char>) -> Option<Seq<u8>>;

/// What `bytes` holds when read as JSON, or `None` where it is not JSON: the
/// top-level members that are strings, and those that are integers within
/// the range of `i64`, each by name.
pub uninterp spec fn json_parsed(bytes: Seq<u8>) -> Option<
    (Map<Seq<char>, Seq<char>>, Map<Seq<char>, int>),
>;

/// The members of a JSON object that are strings, by name. Empty for a
/// document that is not an object.
pub uninterp spec fn json_text_members(document: serde_json::Value) -> Map<Seq<char>, Seq<char>>;

/// The members of a JSON object that are integers within the range of `i64`,
/// by name. Empty for a document that is not an object.
pub uninterp spec fn json_integer_members(document: serde_json::Value) -> Map<Seq<char>, int>;

/// Calls `decode` of the `base64` crate's `URL_SAFE_NO_PAD` engine.
///
/// Trusted: the call succeeds exactly on the texts that have a decoding, and
/// then returns it; the outcome depends on `text` alone.
#[verifier::external_body]
pub(crate) fn base64url_decode(text: &str) -> (decoded: Result<Vec<u8>, base64::DecodeError>)
    ensures
        decoded.is_ok() == base64url_decoded(text@).is_some(),
        decoded matches Ok(bytes) ==> base64url_decoded(text@) == Some(bytes@),
{
    base64::engine::general_purpose::URL_SAFE_NO_PAD.decode(text)
}

/// Calls `serde_json::from_slice` for a `serde_json::Value`.
///
/// Trusted: the call succeeds exactly on the inputs that are JSON, and the
/// members of the document it returns are those that the input holds; the
/// outcome depends on `bytes` alone.
#[verifier::external_body]
pub(crate) fn parse_json(bytes: &[u8]) -> (parsed: Result<serde_json::Value, serde_json::Error>)
    ensures
        parsed.is_ok() == json_parsed(bytes@).is_some(),
        parsed matches Ok(document) ==> json_parsed(bytes@) == Some(
            (json_text_members(document), json_integer_members(document)),
        ),
{
    serde_json::from_slice::<serde_json::Value>(bytes)
}

/// Calls `serde_json::Value::get` with a member's name and hands out the
/// member where it is a string.
///
/// Trusted: the result is the entry of `json_text_members` under `name`.
#[verifier::external_body]
pub(crate) fn text_member(document: &serde_json::Value, name: &str) -> (found: Option<String>)
    ensures
        found.is_some() == json_text_members(*document).contains_key(name@),
        found matches Some(text) ==> json_text_members(*document)[name@] == text@,
{
    match document.get(name) {
        Some(serde_json::Value::String(text)) => Some(text.clone()),
        _ => None,
    }
}

/// Calls `serde_json::Value::get` with a member's name and, where the member
/// is a number, `serde_json::Number::as_i64` on it.
///
/// Trusted: the result is the entry of `json_integer_members` under `name`.
#[verifier::external_body]
pub(crate) fn integer_member(document: &serde_json::Value, name: &str) -> (found: Option<i64>)
    ensures
        found.is_some() == json_integer_members(*document).contains_key(name@),
        found matches Some(value) ==> json_integer_members(*document)[name@] == value as int,
{
    match document.get(name) {
        Some(serde_json::Value::Number(number)) => number.as_i64(),
        _ => None,
    }
}

} // verus!
