//! The one cryptographic step: an RS256 signature checked against a public
//! key given by its two components.

use vstd::prelude::*;

verus! {

/// `jsonwebtoken::errors::Error`, carried through unread.
#[verifier::external_type_specification]
#[verifier::external_body]
pub struct ExSignatureError(jsonwebtoken::errors::Error);

/// Whether `jsonwebtoken` accepts `signature` (base64url) as an RS256
/// signature of the bytes of `message` under the RSA public key with the
/// given modulus and exponent (both base64url, big-endian). It accepts no
/// signature under a key that it cannot read, nor under one shorter than
/// 2048 bits or longer than 8192.
pub uninterp spec fn rs256_accepts(
    signature: Seq<char>,
    message: Seq<char>,
    modulus: Seq<char>,
    exponent: Seq<char>,
) -> bool;

/// Builds the key with `jsonwebtoken::DecodingKey::from_rsa_components` and
/// calls `jsonwebtoken::crypto::verify` with `Algorithm::RS256`.
///
/// Trusted: the call answers `Ok(true)` exactly where the signature is
/// accepted, and the outcome depends on the four texts alone. An error (a
/// component or the signature is not base64url) and `Ok(false)` both mean
/// that it is not accepted.
#[verifier::external_body]
pub(crate) fn rs256_verify(signature: &str, message: &str, modulus: &str, exponent: &str) -> (outcome:
    Result<bool, jsonwebtoken::errors::Error>)
    ensures
        (outcome matches Ok(accepted) && accepted) == rs256_accepts(
            signature@,
            message@,
            modulus@,
            exponent@,
        ),
{
    let key = jsonwebtoken::DecodingKey::from_rsa_components(modulus, exponent)?;
    jsonwebtoken::crypto::verify(
        signature,
        message.as_bytes(),
        &key,
        jsonwebtoken::Algorithm::RS256,
    )
}

} // verus!
