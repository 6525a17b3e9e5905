//! Authentication: a request is admitted when it carries a bearer token that
//! verifies and whose subject is a user of this service.

use crate::async_interceptor::{AsyncInterceptor, InterceptorOutcome};
use crate::error::AuthError;
use crate::firebase::{agrees, verification, FirebaseAuth, Identity, VerifiedClaims};
use crate::keys::KeyMaterial;
use crate::request::{value_of, AuthenticatedIdentity, Metadata, MetadataEntry};
use crate::stores::user::{StoreError, UserRow, UserStore};
use crate::text::same_text;
use std::sync::Arc;
use vstd::prelude::*;
use vstd::string::StrSliceExecFns;
use vstd::string::StringExecFns;

verus! {

/// The token that a metadata value carries: what follows `Bearer` and a
/// single space, where the value begins so.
pub open spec fn bearer_in(value: Seq<char>) -> Option<Seq<char>> {
    let scheme = "Bearer "@;
    if value.len() >= scheme.len() && value.subrange(0, scheme.len() as int) == scheme {
        Some(value.subrange(scheme.len() as int, value.len() as int))
    } else {
        None
    }
}

/// The bearer token of a request: the one in its first `authorization`
/// field, if there is such a field and it carries one.
pub open spec fn bearer_of(entries: Seq<MetadataEntry>) -> Option<Seq<char>> {
    match value_of(entries, "authorization"@) {
        None => None,
        Some(value) => bearer_in(value),
    }
}

/// The bearer token of a request.
pub fn bearer_token(metadata: &Metadata) -> (token: Option<&str>)
    ensures
        token.is_some() == bearer_of(metadata.entries@).is_some(),
        token matches Some(text) ==> bearer_of(metadata.entries@) == Some(text@),
{
    match metadata.get("authorization") {
        None => None,
        Some(value) => {
            proof {
                reveal_strlit("Bearer ");
            }
            let length = value.unicode_len();
            if length >= 7 && same_text(value.substring_char(0, 7), "Bearer ") {
                Some(value.substring_char(7, length))
            } else {
                None
            }
        },
    }
}

/// The outcome of authenticating a request with the given metadata, up to
/// the look-up of the user: no token is `MissingCredentials`, and a token is
/// verified.
pub open spec fn authentication(
    entries: Seq<MetadataEntry>,
    keys: Map<Seq<char>, KeyMaterial>,
    issuer: Seq<char>,
    project: Seq<char>,
    now: int,
) -> Result<Identity, AuthError> {
    match bearer_of(entries) {
        None => Err(AuthError::MissingCredentials),
        Some(token) => verification(token, keys, issuer, project, now),
    }
}

/// What the look-up of the user makes of verified claims: no user is
/// `UnknownUser`, a store that failed is `UpstreamUnavailable`, and a user
/// found is admitted together with the claims.
pub open spec fn resolution(
    claims: VerifiedClaims,
    lookup: Result<Option<UserRow>, StoreError>,
) -> InterceptorOutcome {
    match lookup {
        Err(_) => InterceptorOutcome::Reject(AuthError::UpstreamUnavailable),
        Ok(None) => InterceptorOutcome::Reject(AuthError::UnknownUser),
        Ok(Some(user)) => InterceptorOutcome::Admit(AuthenticatedIdentity { claims, user }),
    }
}

/// `outcome` is a possible end of authenticating a request against `store`,
/// where authentication up to the look-up is `verified`: a failure there is
/// the rejection, unchanged, and the store is not needed to explain it; past
/// it the outcome is what an answer that the store can give, when asked for
/// the user with the token's subject, makes of the claims.
pub open spec fn concludes<S: UserStore + ?Sized>(
    store: &S,
    outcome: InterceptorOutcome,
    verified: Result<Identity, AuthError>,
) -> bool {
    match verified {
        Err(reason) => outcome == InterceptorOutcome::Reject(reason),
        Ok(identity) => exists|claims: VerifiedClaims, lookup: Result<Option<UserRow>, StoreError>|
            claims@ == identity && store.may_find_by_firebase_uid(identity.subject, lookup)
                && outcome == #[trigger] resolution(claims, lookup),
    }
}

/// The first half of authentication: finds the bearer token of a request
/// and verifies it as of `now`. No store is involved.
pub fn authenticate(auth: &FirebaseAuth, metadata: &Metadata, now: i64) -> (outcome: Result<
    VerifiedClaims,
    AuthError,
>)
    ensures
        agrees(
            outcome,
            authentication(
                metadata.entries@,
                auth.keys(),
                auth.issuer(),
                auth.project_id(),
                now as int,
            ),
        ),
{
    match bearer_token(metadata) {
        None => Err(AuthError::MissingCredentials),
        Some(token) => auth.verify_id_token_at(token, now),
    }
}

/// The subject to ask the store for: the one the claims name.
pub fn lookup_key(claims: &VerifiedClaims) -> (subject: String)
    ensures
        subject@ == claims@.subject,
{
    String::from_str(claims.subject())
}

/// The second half of authentication: what the store's answer makes of
/// verified claims.
pub fn conclude(claims: VerifiedClaims, lookup: Result<Option<UserRow>, StoreError>) -> (outcome:
    InterceptorOutcome)
    ensures
        outcome == resolution(claims, lookup),
{
    match lookup {
        Err(_) => InterceptorOutcome::Reject(AuthError::UpstreamUnavailable),
        Ok(None) => InterceptorOutcome::Reject(AuthError::UnknownUser),
        Ok(Some(user)) => InterceptorOutcome::Admit(AuthenticatedIdentity { claims, user }),
    }
}

/// The authentication interceptor: a token verifier and the store that
/// knows the users, both handed in when it is built.
pub struct AuthnInterceptor<S: UserStore + ?Sized> {
    firebase_auth: Arc<FirebaseAuth>,
    user_store: Arc<S>,
}

impl<S: UserStore + ?Sized> AuthnInterceptor<S> {
    /// The verifier that tokens are checked with.
    pub closed spec fn auth(&self) -> FirebaseAuth {
        *self.firebase_auth
    }

    /// The store that users are looked up in.
    pub closed spec fn store(&self) -> &S {
        &*self.user_store
    }

    pub fn new(firebase_auth: Arc<FirebaseAuth>, user_store: Arc<S>) -> (interceptor:
        AuthnInterceptor<S>)
        ensures
            interceptor.auth() == *firebase_auth,
            interceptor.store() == &*user_store,
    {
        AuthnInterceptor { firebase_auth, user_store }
    }

    /// Authenticates a request as of `now`. A request that fails before the
    /// look-up is rejected without the store being asked; otherwise the
    /// store is asked once, for the user with the token's subject, and
    /// nothing is written.
    pub fn intercept_at(&self, metadata: &Metadata, now: i64) -> (outcome: InterceptorOutcome)
        ensures
            concludes(
                self.store(),
                outcome,
                authentication(
                    metadata.entries@,
                    self.auth().keys(),
                    self.auth().issuer(),
                    self.auth().project_id(),
                    now as int,
                ),
            ),
    {
        match authenticate(&self.firebase_auth, metadata, now) {
            Err(reason) => InterceptorOutcome::Reject(reason),
            Ok(claims) => {
                let lookup = self.user_store.find_user_by_firebase_uid(lookup_key(&claims));
                let outcome = conclude(claims, lookup);
                assert(self.store().may_find_by_firebase_uid(claims@.subject, lookup) && outcome
                    == resolution(claims, lookup));
                outcome
            },
        }
    }
}

impl<S: UserStore + ?Sized> AsyncInterceptor for AuthnInterceptor<S> {
    /// What authentication can decide: for some reading of the clock, a
    /// possible end of authenticating the request at that time.
    open spec fn may_decide(&self, metadata: Metadata, outcome: InterceptorOutcome) -> bool {
        exists|now: int|
            concludes(
                self.store(),
                outcome,
                #[trigger] authentication(
                    metadata.entries@,
                    self.auth().keys(),
                    self.auth().issuer(),
                    self.auth().project_id(),
                    now,
                ),
            )
    }

    /// Authenticates a request as of now, by the system clock.
    fn intercept(&self, metadata: &Metadata) -> (outcome: InterceptorOutcome) {
        let now = crate::clock::now();
        let outcome = self.intercept_at(metadata, now.seconds);
        assert(concludes(
            self.store(),
            outcome,
            authentication(
                metadata.entries@,
                self.auth().keys(),
                self.auth().issuer(),
                self.auth().project_id(),
                now.seconds as int,
            ),
        ));
        outcome
    }
}

/// A request without a bearer token is rejected with `MissingCredentials`,
/// whatever the keys, the clock and the store are.
pub proof fn no_credentials_no_verification<S: UserStore + ?Sized>(
    store: &S,
    outcome: InterceptorOutcome,
    entries: Seq<MetadataEntry>,
    keys: Map<Seq<char>, KeyMaterial>,
    issuer: Seq<char>,
    project: Seq<char>,
    now: int,
)
    requires
        bearer_of(entries).is_none(),
        concludes(store, outcome, authentication(entries, keys, issuer, project, now)),
    ensures
        outcome == InterceptorOutcome::Reject(AuthError::MissingCredentials),
{
}

/// Every failure of verification comes out as the rejection's reason,
/// unchanged, and a request is admitted only with claims that verification
/// produced for its token and with a user that the store can give for the
/// token's subject.
pub proof fn failures_pass_through_unchanged<S: UserStore + ?Sized>(
    store: &S,
    outcome: InterceptorOutcome,
    entries: Seq<MetadataEntry>,
    keys: Map<Seq<char>, KeyMaterial>,
    issuer: Seq<char>,
    project: Seq<char>,
    now: int,
)
    requires
        concludes(store, outcome, authentication(entries, keys, issuer, project, now)),
    ensures
        authentication(entries, keys, issuer, project, now) matches Err(reason) ==> outcome
            == InterceptorOutcome::Reject(reason),
        outcome matches InterceptorOutcome::Admit(identity) ==> authentication(
            entries,
            keys,
            issuer,
            project,
            now,
        ) == Ok::<Identity, AuthError>(identity.claims@) && store.may_find_by_firebase_uid(
            identity.claims@.subject,
            Ok(Some(identity.user)),
        ),
        outcome matches InterceptorOutcome::Reject(reason) ==> (authentication(
            entries,
            keys,
            issuer,
            project,
            now,
        ) is Ok ==> reason == AuthError::UnknownUser || reason == AuthError::UpstreamUnavailable),
{
}

} // verus!
