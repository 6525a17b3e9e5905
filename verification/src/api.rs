//! The messages of the user service.

use crate::clock::Timestamp;
use crate::stores::user::UserRow;
use vstd::prelude::*;

verus! {

/// A user as the service shows it.
#[derive(Clone, Debug, PartialEq, Eq)]
pub struct User {
    pub user_id: u128,
    pub create_time: Timestamp,
    pub update_time: Timestamp,
    pub firebase_user_id: String,
    pub firebase_email: Option<String>,
}

/// Asks for an account for the bearer of an identity token.
#[derive(Clone, Debug, PartialEq, Eq)]
pub struct CreateUserRequest {
    pub firebase_id_token: String,
}

/// How a request names the user it asks for.
#[derive(Clone, Debug, PartialEq, Eq)]
pub enum Identifier {
    /// By the identity provider's id of the account.
    FirebaseUserId(String),
    /// By the service's own id.
    UserId(String),
}

/// Asks for one user.
#[derive(Clone, Debug, PartialEq, Eq)]
pub struct GetUserRequest {
    pub identifier: Option<Identifier>,
}

/// The message that shows a stored user.
pub open spec fn user_of(row: UserRow) -> User {
    User {
        user_id: row.user_id,
        create_time: row.create_time,
        update_time: row.update_time,
        firebase_user_id: row.firebase_uid,
        firebase_email: row.firebase_email,
    }
}

/// Turns a stored user into the message that shows it.
pub fn into_proto(row: UserRow) -> (user: User)
    ensures
        user == user_of(row),
{
    User {
        user_id: row.user_id,
        create_time: row.create_time,
        update_time: row.update_time,
        firebase_user_id: row.firebase_uid,
        firebase_email: row.firebase_email,
    }
}

} // verus!
