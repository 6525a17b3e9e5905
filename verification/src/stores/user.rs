//! Users as the store holds them.

use crate::clock::Timestamp;
use vstd::prelude::*;

verus! {

/// Why the store did not answer.
#[derive(Clone, Copy, Debug, PartialEq, Eq, Structural)]
pub enum StoreError {
    /// The store could not be reached, or did not answer in time.
    Unavailable,
    /// The store was reached and refused or failed the statement.
    Failed,
}

/// How the database driver says a statement failed.
#[derive(Clone, Copy, Debug, PartialEq, Eq, Structural)]
pub enum StoreFault {
    /// Reading from or writing to the connection failed.
    Io,
    /// The secured connection could not be set up.
    Tls,
    /// No connection of the pool came free in time.
    PoolTimedOut,
    /// The pool was closed while the statement waited.
    PoolClosed,
    /// The driver's background worker is gone.
    WorkerCrashed,
    /// Anything else: the database was reached and the statement failed.
    Other,
}

/// What a fault of the driver means for the caller: the database was not
/// reached, unless the fault is one of the statement itself.
pub open spec fn error_of(fault: StoreFault) -> StoreError {
    match fault {
        StoreFault::Other => StoreError::Failed,
        _ => StoreError::Unavailable,
    }
}

/// Tells failures to reach the database from statements that failed.
pub fn store_error(fault: StoreFault) -> (error: StoreError)
    ensures
        error == error_of(fault),
{
    match fault {
        StoreFault::Other => StoreError::Failed,
        _ => StoreError::Unavailable,
    }
}

/// A user as stored.
#[derive(Clone, Debug, PartialEq, Eq)]
pub struct UserRow {
    pub user_id: u128,
    pub create_time: Timestamp,
    pub update_time: Timestamp,
    pub firebase_uid: String,
    pub firebase_email: Option<String>,
}

/// A user about to be stored: the store assigns the id.
#[derive(Clone, Debug, PartialEq, Eq)]
pub struct NewUserRow {
    pub create_time: Timestamp,
    pub update_time: Timestamp,
    pub firebase_uid: String,
    pub firebase_email: Option<String>,
}

/// Where a page of users starts: after the user created at `create_time`
/// with id `user_id`.
#[derive(Clone, Copy, Debug, PartialEq, Eq, Structural)]
pub struct UserPageToken {
    pub create_time: Timestamp,
    pub user_id: u128,
}

/// A page of users together with the number of users in all. Where both
/// queries fail, the failure of the listing is the one reported.
pub open spec fn page_and_count(
    listed: Result<Vec<UserRow>, StoreError>,
    counted: Result<i64, StoreError>,
) -> Result<(Vec<UserRow>, i64), StoreError> {
    match listed {
        Err(error) => Err(error),
        Ok(rows) => match counted {
            Err(error) => Err(error),
            Ok(count) => Ok((rows, count)),
        },
    }
}

/// Joins the answers to the two queries behind `list_and_count_users`.
pub fn join_list_and_count(
    listed: Result<Vec<UserRow>, StoreError>,
    counted: Result<i64, StoreError>,
) -> (joined: Result<(Vec<UserRow>, i64), StoreError>)
    ensures
        joined == page_and_count(listed, counted),
{
    match listed {
        Err(error) => Err(error),
        Ok(rows) => match counted {
            Err(error) => Err(error),
            Ok(count) => Ok((rows, count)),
        },
    }
}

/// The store of users. Implementations talk to a database, so what they
/// answer is theirs to say: the `may_` relations name the answers that a
/// store can give to each question. A store that says nothing of itself can
/// give any.
pub trait UserStore: Sync + Send {
    /// Whether the store can answer `add_user(new_user)` with `answer`.
    open spec fn may_add(&self, new_user: NewUserRow, answer: Result<UserRow, StoreError>) -> bool {
        true
    }

    /// Whether the store can answer `find_user_by_id(user_id)` with `answer`.
    open spec fn may_find_by_id(
        &self,
        user_id: u128,
        answer: Result<Option<UserRow>, StoreError>,
    ) -> bool {
        true
    }

    /// Whether the store can answer `find_user_by_firebase_uid` for the
    /// given id with `answer`.
    open spec fn may_find_by_firebase_uid(
        &self,
        firebase_uid: Seq<char>,
        answer: Result<Option<UserRow>, StoreError>,
    ) -> bool {
        true
    }

    /// Whether the store can answer `list_users(page_size, page_token)` with
    /// `answer`.
    open spec fn may_list(
        &self,
        page_size: i64,
        page_token: Option<UserPageToken>,
        answer: Result<Vec<UserRow>, StoreError>,
    ) -> bool {
        true
    }

    /// Whether the store can answer `count_users()` with `answer`.
    open spec fn may_count(&self, answer: Result<i64, StoreError>) -> bool {
        true
    }

    fn add_user(&self, new_user: NewUserRow) -> (answer: Result<UserRow, StoreError>)
        ensures
            self.may_add(new_user, answer),
    ;

    fn find_user_by_id(&self, user_id: u128) -> (answer: Result<Option<UserRow>, StoreError>)
        ensures
            self.may_find_by_id(user_id, answer),
    ;

    fn find_user_by_firebase_uid(&self, firebase_uid: String) -> (answer: Result<
        Option<UserRow>,
        StoreError,
    >)
        ensures
            self.may_find_by_firebase_uid(firebase_uid@, answer),
    ;

    fn list_users(&self, page_size: i64, page_token: Option<UserPageToken>) -> (answer: Result<
        Vec<UserRow>,
        StoreError,
    >)
        ensures
            self.may_list(page_size, page_token, answer),
    ;

    fn count_users(&self) -> (answer: Result<i64, StoreError>)
        ensures
            self.may_count(answer),
    ;

    /// A page of users and the number of users in all: the store is asked
    /// for the page, with the size and the token as given, and for the
    /// count, and the two answers are joined.
    fn list_and_count_users(&self, page_size: i64, page_token: Option<UserPageToken>) -> (joined:
        Result<(Vec<UserRow>, i64), StoreError>)
        ensures
            exists|listed: Result<Vec<UserRow>, StoreError>, counted: Result<i64, StoreError>|
                self.may_list(page_size, page_token, listed) && self.may_count(counted) && joined
                    == #[trigger] page_and_count(listed, counted),
    {
        let listed = self.list_users(page_size, page_token);
        let counted = self.count_users();
        let joined = join_list_and_count(listed, counted);
        assert(self.may_list(page_size, page_token, listed) && self.may_count(counted) && joined
            == page_and_count(listed, counted));
        joined
    }
}

} // verus!
