use affect_server::clock::Timestamp;
use affect_server::stores::user::{
    join_list_and_count, store_error, NewUserRow, StoreError, StoreFault, UserPageToken, UserRow,
    UserStore,
};
use std::sync::Mutex;

fn user(id: u128) -> UserRow {
    UserRow {
        user_id: id,
        create_time: Timestamp { seconds: 500, nanos: 0 },
        update_time: Timestamp { seconds: 1000, nanos: 0 },
        firebase_uid: format!("uid-{id}"),
        firebase_email: None,
    }
}

#[test]
fn page_and_count_come_together() {
    assert_eq!(join_list_and_count(Ok(vec![user(1), user(2)]), Ok(7)), Ok((vec![user(1), user(2)], 7)));
    assert_eq!(join_list_and_count(Ok(Vec::new()), Ok(0)), Ok((Vec::new(), 0)));
}

#[test]
fn either_failure_fails_the_pair() {
    assert_eq!(
        join_list_and_count(Err(StoreError::Failed), Ok(7)),
        Err(StoreError::Failed)
    );
    assert_eq!(
        join_list_and_count(Ok(vec![user(1)]), Err(StoreError::Unavailable)),
        Err(StoreError::Unavailable)
    );
    assert_eq!(
        join_list_and_count(Err(StoreError::Failed), Err(StoreError::Unavailable)),
        Err(StoreError::Failed)
    );
}

struct Counting {
    lists: Mutex<usize>,
    counts: Mutex<usize>,
    count: Result<i64, StoreError>,
}

impl UserStore for Counting {
    fn add_user(&self, _: NewUserRow) -> Result<UserRow, StoreError> {
        Err(StoreError::Failed)
    }

    fn find_user_by_id(&self, _: u128) -> Result<Option<UserRow>, StoreError> {
        Ok(None)
    }

    fn find_user_by_firebase_uid(&self, _: String) -> Result<Option<UserRow>, StoreError> {
        Ok(None)
    }

    fn list_users(
        &self,
        page_size: i64,
        page_token: Option<UserPageToken>,
    ) -> Result<Vec<UserRow>, StoreError> {
        *self.lists.lock().unwrap() += 1;
        let first = match page_token {
            Some(token) => token.user_id + 1,
            None => 1,
        };
        Ok((0..u128::try_from(page_size).unwrap()).map(|k| user(first + k)).collect())
    }

    fn count_users(&self) -> Result<i64, StoreError> {
        *self.counts.lock().unwrap() += 1;
        self.count
    }
}

#[test]
fn listing_and_counting_ask_the_store_once_each() {
    let store = Counting { lists: Mutex::new(0), counts: Mutex::new(0), count: Ok(9) };
    let token = UserPageToken { create_time: Timestamp { seconds: 500, nanos: 0 }, user_id: 4 };
    assert_eq!(store.list_and_count_users(2, Some(token)), Ok((vec![user(5), user(6)], 9)));
    assert_eq!(*store.lists.lock().unwrap(), 1);
    assert_eq!(*store.counts.lock().unwrap(), 1);
    assert_eq!(store.list_and_count_users(1, None), Ok((vec![user(1)], 9)));
}

#[test]
fn failed_count_fails_the_pair() {
    let store = Counting {
        lists: Mutex::new(0),
        counts: Mutex::new(0),
        count: Err(StoreError::Unavailable),
    };
    assert_eq!(store.list_and_count_users(2, None), Err(StoreError::Unavailable));
}

#[test]
fn only_a_failed_statement_means_the_database_was_reached() {
    for fault in [
        StoreFault::Io,
        StoreFault::Tls,
        StoreFault::PoolTimedOut,
        StoreFault::PoolClosed,
        StoreFault::WorkerCrashed,
    ] {
        assert_eq!(store_error(fault), StoreError::Unavailable);
    }
    assert_eq!(store_error(StoreFault::Other), StoreError::Failed);
}
