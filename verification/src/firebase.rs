//! Verification of identity tokens: the signature against the cached keys,
//! then the claims against the configured issuer and project.

use crate::codec::{
    base64url_decode, base64url_decoded, integer_member, json_integer_members, json_parsed,
    json_text_members, parse_json, text_member,
};
use crate::error::AuthError;
use crate::keys::{KeyMaterial, KeySetCache, SigningKey, SigningKeySet};
use crate::signature::{rs256_accepts, rs256_verify};
use crate::text::same_text;
use crate::token::{segments, split_token, well_shaped};
use vstd::prelude::*;
use vstd::string::StringExecFns;

verus! {

/// A JSON document as far as verification reads it: the top-level members
/// that are strings and those that are integers.
pub ghost struct Document {
    pub texts: Map<Seq<char>, Seq<char>>,
    pub integers: Map<Seq<char>, int>,
}

/// What a parsed document holds.
pub open spec fn document_of(value: serde_json::Value) -> Document {
    Document { texts: json_text_members(value), integers: json_integer_members(value) }
}

/// The document that a segment of a token carries: the segment is base64url,
/// the bytes it stands for are JSON. `None` where either fails.
pub open spec fn segment_document(segment: Seq<char>) -> Option<Document> {
    match base64url_decoded(segment) {
        None => None,
        Some(bytes) => match json_parsed(bytes) {
            None => None,
            Some(members) => Some(Document { texts: members.0, integers: members.1 }),
        },
    }
}

/// The view of an optional text.
pub open spec fn text_of(text: Option<String>) -> Option<Seq<char>> {
    match text {
        Some(text) => Some(text@),
        None => None,
    }
}

/// The two header fields that verification reads.
#[derive(Clone, Debug, PartialEq, Eq)]
pub struct TokenHeader {
    /// `alg`: the name of the signing algorithm.
    pub algorithm: Option<String>,
    /// `kid`: the id of the signing key.
    pub key_id: Option<String>,
}

pub ghost struct HeaderView {
    pub algorithm: Option<Seq<char>>,
    pub key_id: Option<Seq<char>>,
}

impl View for TokenHeader {
    type V = HeaderView;

    open spec fn view(&self) -> HeaderView {
        HeaderView { algorithm: text_of(self.algorithm), key_id: text_of(self.key_id) }
    }
}

/// The header fields of a header document.
pub open spec fn header_of(document: Document) -> HeaderView {
    HeaderView { algorithm: document.texts.get("alg"@), key_id: document.texts.get("kid"@) }
}

/// The claims that verification reads, each present or not. A claim of the
/// wrong JSON type counts as absent.
#[derive(Clone, Debug, PartialEq, Eq)]
pub struct TokenClaims {
    /// `exp`: seconds since the epoch.
    pub expiry: Option<i64>,
    /// `iss`
    pub issuer: Option<String>,
    /// `aud`
    pub audience: Option<String>,
    /// `sub`
    pub subject: Option<String>,
    /// `email`
    pub email: Option<String>,
}

pub ghost struct ClaimsView {
    pub expiry: Option<int>,
    pub issuer: Option<Seq<char>>,
    pub audience: Option<Seq<char>>,
    pub subject: Option<Seq<char>>,
    pub email: Option<Seq<char>>,
}

impl View for TokenClaims {
    type V = ClaimsView;

    open spec fn view(&self) -> ClaimsView {
        ClaimsView {
            expiry: match self.expiry {
                Some(expiry) => Some(expiry as int),
                None => None,
            },
            issuer: text_of(self.issuer),
            audience: text_of(self.audience),
            subject: text_of(self.subject),
            email: text_of(self.email),
        }
    }
}

/// The claims of a payload document.
pub open spec fn claims_of(document: Document) -> ClaimsView {
    ClaimsView {
        expiry: document.integers.get("exp"@),
        issuer: document.texts.get("iss"@),
        audience: document.texts.get("aud"@),
        subject: document.texts.get("sub"@),
        email: document.texts.get("email"@),
    }
}

/// Which key a header asks for. Only RS256 is trusted: a header without
/// `alg`, or with any other, is refused before a key is looked at. A header
/// without `kid` names no key.
pub open spec fn key_choice(header: HeaderView, keys: Map<Seq<char>, KeyMaterial>) -> Result<
    KeyMaterial,
    AuthError,
> {
    if header.algorithm != Some("RS256"@) {
        Err(AuthError::UnsupportedAlgorithm)
    } else {
        match header.key_id {
            None => Err(AuthError::UnknownSigningKey),
            Some(key_id) => if keys.contains_key(key_id) {
                Ok(keys[key_id])
            } else {
                Err(AuthError::UnknownSigningKey)
            },
        }
    }
}

/// Whether a set of claims passes, and if not, the first check it fails:
/// expiry, issuer, audience, subject, in that order. An absent claim fails
/// its check.
pub open spec fn claims_verdict(
    claims: ClaimsView,
    issuer: Seq<char>,
    project: Seq<char>,
    now: int,
) -> Result<(), AuthError> {
    if !(claims.expiry matches Some(expiry) && expiry > now) {
        Err(AuthError::TokenExpired)
    } else if claims.issuer != Some(issuer) {
        Err(AuthError::IssuerMismatch)
    } else if claims.audience != Some(project) {
        Err(AuthError::AudienceMismatch)
    } else if !(claims.subject matches Some(subject) && subject.len() > 0) {
        Err(AuthError::MissingSubject)
    } else {
        Ok(())
    }
}

/// What a verified token says of its bearer.
pub ghost struct Identity {
    pub subject: Seq<char>,
    pub email: Option<Seq<char>>,
    pub expiry: int,
    pub issuer: Seq<char>,
    pub audience: Seq<char>,
}

/// The identity that claims which passed every check assert.
pub open spec fn identity_of(claims: ClaimsView) -> Identity {
    Identity {
        subject: claims.subject.unwrap(),
        email: claims.email,
        expiry: claims.expiry.unwrap(),
        issuer: claims.issuer.unwrap(),
        audience: claims.audience.unwrap(),
    }
}

/// The outcome of verifying `token` against `keys` at time `now`: the first
/// step that fails decides the error.
pub open spec fn verification(
    token: Seq<char>,
    keys: Map<Seq<char>, KeyMaterial>,
    issuer: Seq<char>,
    project: Seq<char>,
    now: int,
) -> Result<Identity, AuthError> {
    if !well_shaped(token) {
        Err(AuthError::MalformedToken)
    } else {
        let parts = segments(token);
        match segment_document(parts.header) {
            None => Err(AuthError::MalformedToken),
            Some(header) => match key_choice(header_of(header), keys) {
                Err(error) => Err(error),
                Ok(key) => if !rs256_accepts(
                    parts.signature,
                    parts.signed,
                    key.modulus,
                    key.exponent,
                ) {
                    Err(AuthError::InvalidSignature)
                } else {
                    match segment_document(parts.payload) {
                        None => Err(AuthError::MalformedToken),
                        Some(payload) => match claims_verdict(
                            claims_of(payload),
                            issuer,
                            project,
                            now,
                        ) {
                            Err(error) => Err(error),
                            Ok(_) => Ok(identity_of(claims_of(payload))),
                        },
                    }
                },
            },
        }
    }
}

/// The header of a well-shaped token names RS256 and a key of `keys`, and
/// that key accepts the token's signature.
pub open spec fn signed_by_known_key(token: Seq<char>, keys: Map<Seq<char>, KeyMaterial>) -> bool {
    &&& well_shaped(token)
    &&& segment_document(segments(token).header) matches Some(header) && {
        &&& header_of(header).algorithm == Some("RS256"@)
        &&& header_of(header).key_id matches Some(key_id) && keys.contains_key(key_id)
            && rs256_accepts(
            segments(token).signature,
            segments(token).signed,
            keys[key_id].modulus,
            keys[key_id].exponent,
        )
    }
}

/// A token signed by a cached key, whose claims are unexpired, name the
/// configured issuer and project and hold a subject, is accepted, and the
/// subject handed out is the token's subject claim.
pub proof fn valid_token_is_accepted(
    token: Seq<char>,
    keys: Map<Seq<char>, KeyMaterial>,
    issuer: Seq<char>,
    project: Seq<char>,
    now: int,
)
    requires
        signed_by_known_key(token, keys),
        segment_document(segments(token).payload) matches Some(payload) && {
            &&& claims_of(payload).expiry matches Some(expiry) && expiry > now
            &&& claims_of(payload).issuer == Some(issuer)
            &&& claims_of(payload).audience == Some(project)
            &&& claims_of(payload).subject matches Some(subject) && subject.len() > 0
        },
    ensures
        verification(token, keys, issuer, project, now) matches Ok(identity) && Some(
            identity.subject,
        ) == claims_of(segment_document(segments(token).payload).unwrap()).subject,
{
}

/// A token whose header names a key that the set does not hold fails with
/// `UnknownSigningKey`: the signature is never looked at.
pub proof fn unknown_key_is_reported_as_such(
    token: Seq<char>,
    keys: Map<Seq<char>, KeyMaterial>,
    issuer: Seq<char>,
    project: Seq<char>,
    now: int,
)
    requires
        well_shaped(token),
        segment_document(segments(token).header) matches Some(header) && {
            &&& header_of(header).algorithm == Some("RS256"@)
            &&& header_of(header).key_id matches Some(key_id) ==> !keys.contains_key(key_id)
        },
    ensures
        verification(token, keys, issuer, project, now) == Err::<Identity, AuthError>(
            AuthError::UnknownSigningKey,
        ),
{
}

/// Where the key that the header names does not accept the signature over
/// the header and payload as they stand, the token fails with
/// `InvalidSignature`, whatever the payload claims.
pub proof fn rejected_signature_is_invalid(
    token: Seq<char>,
    keys: Map<Seq<char>, KeyMaterial>,
    issuer: Seq<char>,
    project: Seq<char>,
    now: int,
)
    requires
        well_shaped(token),
        segment_document(segments(token).header) matches Some(header) && {
            &&& header_of(header).algorithm == Some("RS256"@)
            &&& header_of(header).key_id matches Some(key_id) && keys.contains_key(key_id)
                && !rs256_accepts(
                segments(token).signature,
                segments(token).signed,
                keys[key_id].modulus,
                keys[key_id].exponent,
            )
        },
    ensures
        verification(token, keys, issuer, project, now) == Err::<Identity, AuthError>(
            AuthError::InvalidSignature,
        ),
{
}

/// A token whose expiry is not later than `now` fails with `TokenExpired`,
/// however good its signature and its other claims are.
pub proof fn expired_token_is_refused(
    token: Seq<char>,
    keys: Map<Seq<char>, KeyMaterial>,
    issuer: Seq<char>,
    project: Seq<char>,
    now: int,
)
    requires
        signed_by_known_key(token, keys),
        segment_document(segments(token).payload) matches Some(payload) && (claims_of(
            payload,
        ).expiry matches Some(expiry) ==> expiry <= now),
    ensures
        verification(token, keys, issuer, project, now) == Err::<Identity, AuthError>(
            AuthError::TokenExpired,
        ),
{
}

/// An unexpired token of the configured issuer whose audience is not the
/// configured project fails with `AudienceMismatch`.
pub proof fn foreign_audience_is_refused(
    token: Seq<char>,
    keys: Map<Seq<char>, KeyMaterial>,
    issuer: Seq<char>,
    project: Seq<char>,
    now: int,
)
    requires
        signed_by_known_key(token, keys),
        segment_document(segments(token).payload) matches Some(payload) && {
            &&& claims_of(payload).expiry matches Some(expiry) && expiry > now
            &&& claims_of(payload).issuer == Some(issuer)
            &&& claims_of(payload).audience != Some(project)
        },
    ensures
        verification(token, keys, issuer, project, now) == Err::<Identity, AuthError>(
            AuthError::AudienceMismatch,
        ),
{
}

/// Verification fails only for what is wrong with the token: never with an
/// error that speaks of the request, the user or the store.
pub proof fn verification_fails_for_the_token_alone(
    token: Seq<char>,
    keys: Map<Seq<char>, KeyMaterial>,
    issuer: Seq<char>,
    project: Seq<char>,
    now: int,
)
    ensures
        verification(token, keys, issuer, project, now) matches Err(error) ==> error
            != AuthError::MissingCredentials && error != AuthError::UnknownUser && error
            != AuthError::UpstreamUnavailable,
        verification(token, keys, issuer, project, now) matches Ok(identity) ==> {
            &&& identity.subject.len() > 0
            &&& identity.expiry > now
            &&& identity.issuer == issuer
            &&& identity.audience == project
        },
{
}

/// The claims of a token that passed verification. A value of this type
/// comes out of a successful verification and of nothing else.
#[derive(Clone, Debug, PartialEq, Eq)]
pub struct VerifiedClaims {
    subject: String,
    email: Option<String>,
    expiry: i64,
    issuer: String,
    audience: String,
}

impl View for VerifiedClaims {
    type V = Identity;

    closed spec fn view(&self) -> Identity {
        Identity {
            subject: self.subject@,
            email: text_of(self.email),
            expiry: self.expiry as int,
            issuer: self.issuer@,
            audience: self.audience@,
        }
    }
}

impl VerifiedClaims {
    /// The provider's stable id of the account.
    pub fn subject(&self) -> (subject: &str)
        ensures
            subject@ == self@.subject,
    {
        self.subject.as_str()
    }

    /// The account's email address, where the token carries one.
    pub fn email(&self) -> (email: Option<&str>)
        ensures
            email.is_some() == self@.email.is_some(),
            email matches Some(address) ==> self@.email == Some(address@),
    {
        match &self.email {
            Some(address) => Some(address.as_str()),
            None => None,
        }
    }

    /// The time the token expires, in seconds since the epoch.
    pub fn expiry(&self) -> (expiry: i64)
        ensures
            expiry == self@.expiry,
    {
        self.expiry
    }

    /// The issuer the token names.
    pub fn issuer(&self) -> (issuer: &str)
        ensures
            issuer@ == self@.issuer,
    {
        self.issuer.as_str()
    }

    /// The audience the token names.
    pub fn audience(&self) -> (audience: &str)
        ensures
            audience@ == self@.audience,
    {
        self.audience.as_str()
    }

    /// A copy of the claims.
    pub fn duplicate(&self) -> (copy: VerifiedClaims)
        ensures
            copy@ == self@,
    {
        VerifiedClaims {
            subject: self.subject.clone(),
            email: match &self.email {
                Some(address) => Some(address.clone()),
                None => None,
            },
            expiry: self.expiry,
            issuer: self.issuer.clone(),
            audience: self.audience.clone(),
        }
    }

    /// Seals claims that passed every check.
    fn seal(claims: TokenClaims) -> (sealed: VerifiedClaims)
        requires
            claims@.expiry.is_some(),
            claims@.issuer.is_some(),
            claims@.audience.is_some(),
            claims@.subject.is_some(),
        ensures
            sealed@ == identity_of(claims@),
    {
        VerifiedClaims {
            subject: claims.subject.unwrap(),
            email: claims.email,
            expiry: claims.expiry.unwrap(),
            issuer: claims.issuer.unwrap(),
            audience: claims.audience.unwrap(),
        }
    }
}

/// Decodes one segment of a token into the document it carries.
pub(crate) fn decode_segment(segment: &str) -> (decoded: Result<serde_json::Value, AuthError>)
    ensures
        decoded.is_ok() == segment_document(segment@).is_some(),
        decoded matches Ok(document) ==> segment_document(segment@) == Some(document_of(document)),
        decoded matches Err(error) ==> error == AuthError::MalformedToken,
{
    match base64url_decode(segment) {
        Err(_) => Err(AuthError::MalformedToken),
        Ok(bytes) => match parse_json(bytes.as_slice()) {
            Err(_) => Err(AuthError::MalformedToken),
            Ok(document) => Ok(document),
        },
    }
}

/// Reads the header segment of a token: `MalformedToken` where the segment
/// is not base64url or what it encodes is not JSON.
pub fn decode_header(segment: &str) -> (decoded: Result<TokenHeader, AuthError>)
    ensures
        decoded.is_ok() == segment_document(segment@).is_some(),
        decoded matches Ok(header) ==> header@ == header_of(segment_document(segment@).unwrap()),
        decoded matches Err(error) ==> error == AuthError::MalformedToken,
{
    match decode_segment(segment) {
        Err(error) => Err(error),
        Ok(document) => Ok(
            TokenHeader {
                algorithm: text_member(&document, "alg"),
                key_id: text_member(&document, "kid"),
            },
        ),
    }
}

/// Reads the payload segment of a token: `MalformedToken` where the segment
/// is not base64url or what it encodes is not JSON.
pub fn decode_claims(segment: &str) -> (decoded: Result<TokenClaims, AuthError>)
    ensures
        decoded.is_ok() == segment_document(segment@).is_some(),
        decoded matches Ok(claims) ==> claims@ == claims_of(segment_document(segment@).unwrap()),
        decoded matches Err(error) ==> error == AuthError::MalformedToken,
{
    match decode_segment(segment) {
        Err(error) => Err(error),
        Ok(document) => Ok(
            TokenClaims {
                expiry: integer_member(&document, "exp"),
                issuer: text_member(&document, "iss"),
                audience: text_member(&document, "aud"),
                subject: text_member(&document, "sub"),
                email: text_member(&document, "email"),
            },
        ),
    }
}

/// Picks the key that a header asks for from a key set.
pub fn select_key<'a>(header: &TokenHeader, keys: &'a SigningKeySet) -> (chosen: Result<
    &'a SigningKey,
    AuthError,
>)
    ensures
        match chosen {
            Ok(key) => key_choice(header@, keys@) == Ok::<KeyMaterial, AuthError>(key.material()),
            Err(error) => key_choice(header@, keys@) == Err::<KeyMaterial, AuthError>(error),
        },
{
    let pinned = match &header.algorithm {
        Some(algorithm) => same_text(algorithm.as_str(), "RS256"),
        None => false,
    };
    if !pinned {
        return Err(AuthError::UnsupportedAlgorithm);
    }
    match &header.key_id {
        None => Err(AuthError::UnknownSigningKey),
        Some(key_id) => match keys.get_key(key_id.as_str()) {
            Some(key) => Ok(key),
            None => Err(AuthError::UnknownSigningKey),
        },
    }
}

impl TokenClaims {
    /// Checks the claims against the configured issuer and project at time
    /// `now` (seconds since the epoch).
    pub fn check(&self, issuer: &str, project: &str, now: i64) -> (verdict: Result<(), AuthError>)
        ensures
            verdict == claims_verdict(self@, issuer@, project@, now as int),
    {
        let unexpired = match self.expiry {
            Some(expiry) => expiry > now,
            None => false,
        };
        if !unexpired {
            return Err(AuthError::TokenExpired);
        }
        let issued_here = match &self.issuer {
            Some(named) => same_text(named.as_str(), issuer),
            None => false,
        };
        if !issued_here {
            return Err(AuthError::IssuerMismatch);
        }
        let meant_for_us = match &self.audience {
            Some(named) => same_text(named.as_str(), project),
            None => false,
        };
        if !meant_for_us {
            return Err(AuthError::AudienceMismatch);
        }
        let has_subject = match &self.subject {
            Some(subject) => !subject.as_str().is_empty(),
            None => false,
        };
        if !has_subject {
            return Err(AuthError::MissingSubject);
        }
        Ok(())
    }
}

/// The issuer that the identity provider puts into the tokens of a project.
pub open spec fn issuer_for(project_id: Seq<char>) -> Seq<char> {
    "https://securetoken.google.com/"@ + project_id
}

/// The issuer that the identity provider puts into the tokens of a project.
pub fn issuer_of(project_id: &str) -> (issuer: String)
    ensures
        issuer@ == issuer_for(project_id@),
{
    String::from_str("https://securetoken.google.com/").concat(project_id)
}

/// Whether the outcome of a verification is the one expected.
pub open spec fn agrees(
    outcome: Result<VerifiedClaims, AuthError>,
    expected: Result<Identity, AuthError>,
) -> bool {
    match outcome {
        Ok(claims) => expected == Ok::<Identity, AuthError>(claims@),
        Err(error) => expected == Err::<Identity, AuthError>(error),
    }
}

/// Two verifications of one token against the same keys and configuration
/// end alike. At one and the same time they end in the same error or in
/// claims that say the same. At two times they do so where the first
/// accepts the token and the token is still unexpired at the second.
pub proof fn verification_is_repeatable(
    first: Result<VerifiedClaims, AuthError>,
    second: Result<VerifiedClaims, AuthError>,
    token: Seq<char>,
    keys: Map<Seq<char>, KeyMaterial>,
    issuer: Seq<char>,
    project: Seq<char>,
    at_first: int,
    at_second: int,
)
    requires
        agrees(first, verification(token, keys, issuer, project, at_first)),
        agrees(second, verification(token, keys, issuer, project, at_second)),
        at_first == at_second || (first matches Ok(claims) && claims@.expiry > at_second),
    ensures
        match (first, second) {
            (Ok(one), Ok(other)) => one@ == other@,
            (Err(one), Err(other)) => one == other,
            _ => false,
        },
{
}

/// The token verifier: the cached keys of the identity provider, and the
/// issuer and project that tokens must name. All three are fixed when the
/// verifier is built.
pub struct FirebaseAuth {
    cache: KeySetCache,
    issuer: String,
    project_id: String,
}

impl FirebaseAuth {
    /// The keys tokens are checked against.
    pub closed spec fn keys(&self) -> Map<Seq<char>, KeyMaterial> {
        self.cache@
    }

    /// The issuer tokens must name.
    pub closed spec fn issuer(&self) -> Seq<char> {
        self.issuer@
    }

    /// The project tokens must be meant for.
    pub closed spec fn project_id(&self) -> Seq<char> {
        self.project_id@
    }

    /// The time until which the provider vouches for the keys, in seconds
    /// since the epoch.
    pub closed spec fn spec_fresh_until(&self) -> int {
        self.cache.current().spec_fresh_until()
    }

    /// A verifier over the given keys.
    pub fn new(cache: KeySetCache, issuer: String, project_id: String) -> (auth: FirebaseAuth)
        ensures
            auth.keys() == cache@,
            auth.spec_fresh_until() == cache.current().spec_fresh_until(),
            auth.issuer() == issuer@,
            auth.project_id() == project_id@,
    {
        FirebaseAuth { cache, issuer, project_id }
    }

    /// The time until which the provider vouches for the keys, in seconds
    /// since the epoch.
    pub fn fresh_until(&self) -> (until: i64)
        ensures
            until == self.spec_fresh_until(),
    {
        self.cache.key_set().fresh_until()
    }

    /// Builds the verifier from the keys fetched at start-up. Without keys
    /// there is no verifier.
    pub fn load(
        entries: Vec<SigningKey>,
        fresh_until: i64,
        issuer: String,
        project_id: String,
    ) -> (loaded: Result<FirebaseAuth, AuthError>)
        ensures
            entries@.len() == 0 ==> loaded == Err::<FirebaseAuth, AuthError>(
                AuthError::UpstreamUnavailable,
            ),
            entries@.len() > 0 ==> loaded.is_ok(),
            loaded matches Ok(auth) ==> auth.keys() == crate::keys::key_map(entries@)
                && auth.spec_fresh_until() == fresh_until && auth.issuer() == issuer@
                && auth.project_id() == project_id@,
    {
        match KeySetCache::load(entries, fresh_until) {
            Ok(cache) => Ok(FirebaseAuth { cache, issuer, project_id }),
            Err(error) => Err(error),
        }
    }

    /// Verifies a token as of the time `now`, in seconds since the epoch.
    /// The outcome depends on the token, the cached keys, the configuration
    /// and `now`, and on nothing else.
    pub fn verify_id_token_at(&self, token: &str, now: i64) -> (outcome: Result<
        VerifiedClaims,
        AuthError,
    >)
        ensures
            agrees(
                outcome,
                verification(token@, self.keys(), self.issuer(), self.project_id(), now as int),
            ),
    {
        let parts = match split_token(token) {
            Some(parts) => parts,
            None => {
                return Err(AuthError::MalformedToken);
            },
        };
        let header = match decode_header(parts.header) {
            Ok(header) => header,
            Err(error) => {
                return Err(error);
            },
        };
        proof {
            self.cache.view_is_current();
        }
        let key = match select_key(&header, self.cache.key_set()) {
            Ok(key) => key,
            Err(error) => {
                return Err(error);
            },
        };
        let accepted = match rs256_verify(
            parts.signature,
            parts.signed,
            key.modulus.as_str(),
            key.exponent.as_str(),
        ) {
            Ok(accepted) => accepted,
            Err(_) => false,
        };
        if !accepted {
            return Err(AuthError::InvalidSignature);
        }
        let claims = match decode_claims(parts.payload) {
            Ok(claims) => claims,
            Err(error) => {
                return Err(error);
            },
        };
        match claims.check(self.issuer.as_str(), self.project_id.as_str(), now) {
            Err(error) => Err(error),
            Ok(_) => Ok(VerifiedClaims::seal(claims)),
        }
    }

    /// Verifies a token as of now, by the system clock.
    pub fn verify_id_token(&self, token: String) -> (outcome: Result<VerifiedClaims, AuthError>)
        ensures
            exists|now: int|
                agrees(
                    outcome,
                    #[trigger] verification(
                        token@,
                        self.keys(),
                        self.issuer(),
                        self.project_id(),
                        now,
                    ),
                ),
    {
        let now = crate::clock::now();
        let outcome = self.verify_id_token_at(token.as_str(), now.seconds);
        assert(agrees(
            outcome,
            verification(
                token@,
                self.keys(),
                self.issuer(),
                self.project_id(),
                now.seconds as int,
            ),
        ));
        outcome
    }
}

} // verus!
