//! The reasons a request can be turned away, and what the caller gets to see.

use vstd::prelude::*;
use vstd::string::StringExecFns;

verus! {

/// Why authentication did not admit a request.
#[derive(Clone, Copy, Debug, PartialEq, Eq, Structural)]
pub enum AuthError {
    /// The token is not three dot-separated segments of base64url-encoded JSON.
    MalformedToken,
    /// The header names a signing algorithm other than the pinned one.
    UnsupportedAlgorithm,
    /// The header's key id is not in the cached key set.
    UnknownSigningKey,
    /// The signature does not match the header and payload.
    InvalidSignature,
    /// The expiry claim is not later than the current time.
    TokenExpired,
    /// The issuer claim is not the configured issuer.
    IssuerMismatch,
    /// The audience claim is not the configured project.
    AudienceMismatch,
    /// The subject claim is absent or empty.
    MissingSubject,
    /// No internal user belongs to the verified subject.
    UnknownUser,
    /// The key endpoint or the user store could not be reached.
    UpstreamUnavailable,
    /// The request carries no bearer token.
    MissingCredentials,
}

/// The status codes this service answers with.
#[derive(Clone, Copy, Debug, PartialEq, Eq, Structural)]
pub enum Code {
    InvalidArgument,
    NotFound,
    Unauthenticated,
    Unavailable,
    Internal,
}

/// A status as the caller sees it: a code and a short message.
#[derive(Clone, Debug)]
pub struct Status {
    pub code: Code,
    pub message: String,
}

impl AuthError {
    /// The caller-visible code: connectivity failures are `Unavailable`,
    /// everything else is `Unauthenticated`.
    pub open spec fn spec_code(self) -> Code {
        if self == AuthError::UpstreamUnavailable {
            Code::Unavailable
        } else {
            Code::Unauthenticated
        }
    }

    /// The caller-visible message. It depends on the code alone, so that
    /// nothing about the token, the keys or the claims reaches the caller.
    pub open spec fn spec_message(self) -> Seq<char> {
        if self == AuthError::UpstreamUnavailable {
            "authentication is temporarily unavailable"@
        } else {
            "unauthenticated"@
        }
    }

    #[verifier::when_used_as_spec(spec_code)]
    pub fn code(self) -> (code: Code)
        ensures
            code == self.spec_code(),
    {
        match self {
            AuthError::UpstreamUnavailable => Code::Unavailable,
            _ => Code::Unauthenticated,
        }
    }

    /// The status a rejected request is answered with.
    pub fn status(self) -> (status: Status)
        ensures
            status.code == self.spec_code(),
            status.message@ == self.spec_message(),
    {
        match self {
            AuthError::UpstreamUnavailable => Status {
                code: Code::Unavailable,
                message: String::from_str("authentication is temporarily unavailable"),
            },
            _ => Status { code: Code::Unauthenticated, message: String::from_str("unauthenticated") },
        }
    }
}

/// Two errors get the same message whenever they get the same code: the
/// message tells the caller nothing the code does not.
pub proof fn message_follows_code(a: AuthError, b: AuthError)
    requires
        a.spec_code() == b.spec_code(),
    ensures
        a.spec_message() == b.spec_message(),
{
}

} // verus!
