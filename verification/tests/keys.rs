use affect_server::error::AuthError;
use affect_server::keys::{KeySetCache, SigningKey, SigningKeySet};

fn key(id: &str, modulus: &str) -> SigningKey {
    SigningKey { key_id: id.to_string(), modulus: modulus.to_string(), exponent: "AQAB".to_string() }
}

#[test]
fn empty_fetch_is_a_failed_fetch() {
    assert!(matches!(
        SigningKeySet::from_entries(Vec::new(), 10),
        Err(AuthError::UpstreamUnavailable)
    ));
    assert!(matches!(KeySetCache::load(Vec::new(), 10), Err(AuthError::UpstreamUnavailable)));
}

#[test]
fn loaded_set_holds_what_was_fetched() {
    let set = SigningKeySet::from_entries(vec![key("a", "m-a"), key("b", "m-b")], 10).unwrap();
    assert_eq!(set.len(), 2);
    assert_eq!(set.fresh_until(), 10);
    assert_eq!(set.get_key("a").unwrap().modulus, "m-a");
    assert_eq!(set.get_key("b").unwrap().modulus, "m-b");
    assert_eq!(set.get_key("b").unwrap().key_id, "b");
    assert_eq!(set.get_key("b").unwrap().exponent, "AQAB");
    assert!(set.get_key("c").is_none());
    assert!(set.get_key("").is_none());
    assert!(set.get_key("A").is_none());
}

#[test]
fn earliest_entry_of_an_id_counts() {
    let set =
        SigningKeySet::from_entries(vec![key("a", "first"), key("b", "m-b"), key("a", "second")], 0)
            .unwrap();
    assert_eq!(set.len(), 3);
    assert_eq!(set.get_key("a").unwrap().modulus, "first");
}

#[test]
fn set_is_fresh_before_its_limit() {
    let set = SigningKeySet::from_entries(vec![key("a", "m-a")], 10).unwrap();
    assert!(set.is_fresh(9));
    assert!(!set.is_fresh(10));
    assert!(!set.is_fresh(11));
    assert!(set.is_fresh(i64::MIN));
}

#[test]
fn cache_answers_from_the_set_it_holds() {
    let cache = KeySetCache::load(vec![key("a", "m-a")], 10).unwrap();
    assert_eq!(cache.get_key("a").unwrap().modulus, "m-a");
    assert!(cache.get_key("b").is_none());
    assert_eq!(cache.key_set().len(), 1);
    assert_eq!(cache.key_set().fresh_until(), 10);
}

#[test]
fn refresh_replaces_the_whole_set() {
    let mut cache = KeySetCache::load(vec![key("a", "m-a"), key("b", "m-b")], 10).unwrap();
    assert_eq!(cache.refresh(vec![key("b", "m-b2"), key("c", "m-c")], 20), Ok(()));
    assert!(cache.get_key("a").is_none());
    assert_eq!(cache.get_key("b").unwrap().modulus, "m-b2");
    assert_eq!(cache.get_key("c").unwrap().modulus, "m-c");
    assert_eq!(cache.key_set().len(), 2);
    assert_eq!(cache.key_set().fresh_until(), 20);
}

#[test]
fn failed_refresh_leaves_the_cache_as_it_was() {
    let mut cache = KeySetCache::load(vec![key("a", "m-a")], 10).unwrap();
    assert_eq!(cache.refresh(Vec::new(), 20), Err(AuthError::UpstreamUnavailable));
    assert_eq!(cache.get_key("a").unwrap().modulus, "m-a");
    assert_eq!(cache.key_set().len(), 1);
    assert_eq!(cache.key_set().fresh_until(), 10);
}
