//! The user service: accounts are made for the bearers of identity tokens
//! and looked up by the identity provider's id.

use crate::api::{into_proto, user_of, CreateUserRequest, GetUserRequest, Identifier, User};
use crate::clock::Timestamp;
use crate::error::{AuthError, Code, Status};
use crate::firebase::{text_of, verification, FirebaseAuth, Identity, VerifiedClaims};
use crate::request::Request;
use crate::stores::user::{NewUserRow, StoreError, UserRow, UserStore};
use std::sync::Arc;
use vstd::prelude::*;
use vstd::string::StringExecFns;

verus! {

/// A status has the given code and the given message.
pub open spec fn status_is(status: Status, code: Code, message: Seq<char>) -> bool {
    status.code == code && status.message@ == message
}

/// The code that a failure of the store is answered with.
pub open spec fn store_code(error: StoreError) -> Code {
    match error {
        StoreError::Unavailable => Code::Unavailable,
        StoreError::Failed => Code::Internal,
    }
}

/// The message that a failure of the store is answered with. It names the
/// kind of failure and nothing of what the store said.
pub open spec fn store_message(error: StoreError) -> Seq<char> {
    match error {
        StoreError::Unavailable => "storage is unavailable"@,
        StoreError::Failed => "storage failed"@,
    }
}

/// The status that a failure of the store is answered with.
pub fn store_status(error: StoreError) -> (status: Status)
    ensures
        status_is(status, store_code(error), store_message(error)),
{
    match error {
        StoreError::Unavailable => Status {
            code: Code::Unavailable,
            message: String::from_str("storage is unavailable"),
        },
        StoreError::Failed => Status {
            code: Code::Internal,
            message: String::from_str("storage failed"),
        },
    }
}

/// The row for a new user that the claims of a token ask for at `now`: both
/// times are `now`, the id and the address are the token's.
pub open spec fn is_row_for(row: NewUserRow, identity: Identity, now: Timestamp) -> bool {
    &&& row.create_time == now
    &&& row.update_time == now
    &&& row.firebase_uid@ == identity.subject
    &&& text_of(row.firebase_email) == identity.email
}

/// The row to store for the bearer of verified claims.
pub fn new_user_row(claims: &VerifiedClaims, now: Timestamp) -> (row: NewUserRow)
    ensures
        is_row_for(row, claims@, now),
{
    NewUserRow {
        create_time: now,
        update_time: now,
        firebase_uid: String::from_str(claims.subject()),
        firebase_email: match claims.email() {
            Some(address) => Some(String::from_str(address)),
            None => None,
        },
    }
}

/// `asked` is what a request for an account leads to, given how its token
/// verified: a token that does not verify is an invalid argument, whatever
/// the reason; one that verifies asks for the row of its bearer.
pub open spec fn asks_for_row(
    asked: Result<NewUserRow, Status>,
    verified: Result<Identity, AuthError>,
    now: Timestamp,
) -> bool {
    match verified {
        Err(_) => asked matches Err(status) && status_is(
            status,
            Code::InvalidArgument,
            "firebase id token verification failed"@,
        ),
        Ok(identity) => asked matches Ok(row) && is_row_for(row, identity, now),
    }
}

/// The first half of creating a user: verifies the token of the request as
/// of `now` and makes the row to store. No store is involved.
pub fn create_user_row(auth: &FirebaseAuth, message: &CreateUserRequest, now: Timestamp) -> (asked:
    Result<NewUserRow, Status>)
    ensures
        asks_for_row(
            asked,
            verification(
                message.firebase_id_token@,
                auth.keys(),
                auth.issuer(),
                auth.project_id(),
                now.seconds as int,
            ),
            now,
        ),
{
    match auth.verify_id_token_at(message.firebase_id_token.as_str(), now.seconds) {
        Ok(claims) => Ok(new_user_row(&claims, now)),
        Err(_) => Err(
            Status {
                code: Code::InvalidArgument,
                message: String::from_str("firebase id token verification failed"),
            },
        ),
    }
}

/// `answer` is what the service says once the store has answered the
/// request to add a user: the stored user, or the status of the failure.
pub open spec fn answers_added(added: Result<UserRow, StoreError>, answer: Result<User, Status>) -> bool {
    match added {
        Ok(row) => answer matches Ok(user) && user == user_of(row),
        Err(error) => answer matches Err(status) && status_is(
            status,
            store_code(error),
            store_message(error),
        ),
    }
}

/// What the service says once the store has answered the request to add a
/// user.
pub fn created(added: Result<UserRow, StoreError>) -> (answer: Result<User, Status>)
    ensures
        answers_added(added, answer),
{
    match added {
        Ok(row) => Ok(into_proto(row)),
        Err(error) => Err(store_status(error)),
    }
}

/// `answer` is what the service says once the store has answered the
/// look-up of a user: the user, `NotFound` where there is none, or the
/// status of the failure.
pub open spec fn answers_found(
    lookup: Result<Option<UserRow>, StoreError>,
    answer: Result<User, Status>,
) -> bool {
    match lookup {
        Ok(Some(row)) => answer matches Ok(user) && user == user_of(row),
        Ok(None) => answer matches Err(status) && status_is(
            status,
            Code::NotFound,
            "user not found"@,
        ),
        Err(error) => answer matches Err(status) && status_is(
            status,
            store_code(error),
            store_message(error),
        ),
    }
}

/// What the service says once the store has answered the look-up of a user.
pub fn found(lookup: Result<Option<UserRow>, StoreError>) -> (answer: Result<User, Status>)
    ensures
        answers_found(lookup, answer),
{
    match lookup {
        Ok(Some(row)) => Ok(into_proto(row)),
        Ok(None) => Err(
            Status { code: Code::NotFound, message: String::from_str("user not found") },
        ),
        Err(error) => Err(store_status(error)),
    }
}

/// The first half of looking a user up: the id to ask the store for. A
/// request that names no user is an invalid argument.
pub fn requested_user(message: GetUserRequest) -> (asked: Result<String, Status>)
    requires
        !(message.identifier matches Some(Identifier::UserId(_))),
    ensures
        match message.identifier {
            Some(Identifier::FirebaseUserId(firebase_user_id)) => asked == Ok::<String, Status>(
                firebase_user_id,
            ),
            _ => asked matches Err(status) && status_is(
                status,
                Code::InvalidArgument,
                "must specify identifier"@,
            ),
        },
{
    match message.identifier {
        Some(Identifier::FirebaseUserId(firebase_user_id)) => Ok(firebase_user_id),
        Some(Identifier::UserId(_)) => unreached(),
        None => Err(
            Status {
                code: Code::InvalidArgument,
                message: String::from_str("must specify identifier"),
            },
        ),
    }
}

/// `answer` is a possible end of a request for an account against `store`,
/// given how the request's token verified at `now`. A token that does not
/// verify is an invalid argument, whatever the reason, and the store is not
/// needed to explain it. Otherwise the answer is what the service says of an
/// answer that the store can give when asked to add the row of the token's
/// bearer.
pub open spec fn creates<S: UserStore + ?Sized>(
    store: &S,
    answer: Result<User, Status>,
    verified: Result<Identity, AuthError>,
    now: Timestamp,
) -> bool {
    match verified {
        Err(_) => answer matches Err(status) && status_is(
            status,
            Code::InvalidArgument,
            "firebase id token verification failed"@,
        ),
        Ok(identity) => exists|row: NewUserRow, added: Result<UserRow, StoreError>|
            is_row_for(row, identity, now) && #[trigger] store.may_add(row, added) && answers_added(
                added,
                answer,
            ),
    }
}

/// `answer` is a possible end of a look-up against `store`. A request that
/// names no user is an invalid argument, and the store is not needed to
/// explain it. Otherwise the answer is what the service says of an answer
/// that the store can give when asked for the user with the id named.
pub open spec fn looks_up<S: UserStore + ?Sized>(
    store: &S,
    answer: Result<User, Status>,
    identifier: Option<Identifier>,
) -> bool {
    match identifier {
        Some(Identifier::FirebaseUserId(firebase_user_id)) => exists|
            lookup: Result<Option<UserRow>, StoreError>,
        |
            store.may_find_by_firebase_uid(firebase_user_id@, lookup) && #[trigger] answers_found(
                lookup,
                answer,
            ),
        _ => answer matches Err(status) && status_is(
            status,
            Code::InvalidArgument,
            "must specify identifier"@,
        ),
    }
}

/// The user service, over the store that holds the users and the verifier
/// of the tokens they come with.
pub struct UserServiceImpl<S: UserStore + ?Sized> {
    user_store: Arc<S>,
    firebase_auth: Arc<FirebaseAuth>,
}

impl<S: UserStore + ?Sized> UserServiceImpl<S> {
    /// The verifier that tokens are checked with.
    pub closed spec fn auth(&self) -> FirebaseAuth {
        *self.firebase_auth
    }

    /// The store that holds the users.
    pub closed spec fn store(&self) -> &S {
        &*self.user_store
    }

    pub fn new(user_store: Arc<S>, firebase_auth: Arc<FirebaseAuth>) -> (service: Self)
        ensures
            service.auth() == *firebase_auth,
            service.store() == &*user_store,
    {
        Self { user_store, firebase_auth }
    }

    /// Makes an account for the bearer of the token in the request, as of
    /// `now`. A token that does not verify is an invalid argument, and the
    /// store is not asked; otherwise the store is asked once to add the
    /// user, and its answer decides.
    pub fn create_user_at(&self, req: Request<CreateUserRequest>, now: Timestamp) -> (answer: Result<
        User,
        Status,
    >)
        ensures
            creates(
                self.store(),
                answer,
                verification(
                    req.message.firebase_id_token@,
                    self.auth().keys(),
                    self.auth().issuer(),
                    self.auth().project_id(),
                    now.seconds as int,
                ),
                now,
            ),
    {
        let message = req.into_inner();
        match create_user_row(&self.firebase_auth, &message, now) {
            Err(status) => Err(status),
            Ok(row) => {
                let added = self.user_store.add_user(row);
                let answer = created(added);
                assert(self.store().may_add(row, added) && answers_added(added, answer));
                answer
            },
        }
    }

    /// Makes an account for the bearer of the token in the request, as of
    /// now by the system clock: what `create_user_at` does, at the time
    /// that the clock reads.
    pub fn create_user(&self, req: Request<CreateUserRequest>) -> (answer: Result<User, Status>)
        ensures
            exists|now: Timestamp|
                creates(
                    self.store(),
                    answer,
                    #[trigger] verification(
                        req.message.firebase_id_token@,
                        self.auth().keys(),
                        self.auth().issuer(),
                        self.auth().project_id(),
                        now.seconds as int,
                    ),
                    now,
                ),
    {
        let now = crate::clock::now();
        let answer = self.create_user_at(req, now);
        assert(creates(
            self.store(),
            answer,
            verification(
                req.message.firebase_id_token@,
                self.auth().keys(),
                self.auth().issuer(),
                self.auth().project_id(),
                now.seconds as int,
            ),
            now,
        ));
        answer
    }

    /// Looks a user up by the identity provider's id. A request that names
    /// no user is an invalid argument, and the store is not asked; otherwise
    /// the store is asked once, and its answer decides.
    pub fn get_user(&self, req: Request<GetUserRequest>) -> (answer: Result<User, Status>)
        requires
            !(req.message.identifier matches Some(Identifier::UserId(_))),
        ensures
            looks_up(self.store(), answer, req.message.identifier),
    {
        match requested_user(req.into_inner()) {
            Err(status) => Err(status),
            Ok(firebase_user_id) => {
                let lookup = self.user_store.find_user_by_firebase_uid(firebase_user_id);
                let answer = found(lookup);
                assert(self.store().may_find_by_firebase_uid(firebase_user_id@, lookup)
                    && answers_found(lookup, answer));
                answer
            },
        }
    }
}

} // verus!
