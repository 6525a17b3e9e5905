//! The identity provider's signing keys, as last fetched.

use crate::error::AuthError;
use crate::text::same_text;
use vstd::prelude::*;

verus! {

/// One published signing key: its id and the two components of an RSA
/// public key, each in unpadded URL-safe base64 as the provider publishes
/// them.
#[derive(Clone, Debug)]
pub struct SigningKey {
    pub key_id: String,
    pub modulus: String,
    pub exponent: String,
}

/// The public-key material of a signing key.
pub ghost struct KeyMaterial {
    pub modulus: Seq<char>,
    pub exponent: Seq<char>,
}

impl SigningKey {
    pub open spec fn material(self) -> KeyMaterial {
        KeyMaterial { modulus: self.modulus@, exponent: self.exponent@ }
    }
}

/// The material of the first of `entries` whose id is `key_id`.
pub open spec fn first_with_id(entries: Seq<SigningKey>, key_id: Seq<char>) -> Option<KeyMaterial>
    decreases entries.len(),
{
    if entries.len() == 0 {
        None
    } else if entries[0].key_id@ == key_id {
        Some(entries[0].material())
    } else {
        first_with_id(entries.drop_first(), key_id)
    }
}

/// The mapping from key id to key material that a list of keys stands for.
/// Where an id occurs more than once, the earliest entry counts.
pub open spec fn key_map(entries: Seq<SigningKey>) -> Map<Seq<char>, KeyMaterial> {
    Map::new(
        |key_id: Seq<char>| first_with_id(entries, key_id).is_some(),
        |key_id: Seq<char>| first_with_id(entries, key_id).unwrap(),
    )
}

/// A list of keys stands for a mapping that holds exactly the ids that occur
/// in the list.
pub proof fn key_map_holds_the_ids_listed(entries: Seq<SigningKey>, key_id: Seq<char>)
    ensures
        key_map(entries).contains_key(key_id) <==> exists|at: int|
            0 <= at < entries.len() && #[trigger] entries[at].key_id@ == key_id,
    decreases entries.len(),
{
    if entries.len() > 0 {
        let rest = entries.drop_first();
        key_map_holds_the_ids_listed(rest, key_id);
        if entries[0].key_id@ != key_id {
            if key_map(rest).contains_key(key_id) {
                let at = choose|at: int| 0 <= at < rest.len() && #[trigger] rest[at].key_id@ == key_id;
                assert(entries[at + 1].key_id@ == key_id);
            }
            if exists|at: int| 0 <= at < entries.len() && #[trigger] entries[at].key_id@ == key_id {
                let at = choose|at: int|
                    0 <= at < entries.len() && #[trigger] entries[at].key_id@ == key_id;
                assert(rest[at - 1].key_id@ == key_id);
            }
        }
    }
}

/// A key set as fetched at one moment: the keys in the order published, and
/// the time until which the provider vouches for them.
pub struct SigningKeySet {
    entries: Vec<SigningKey>,
    fresh_until: i64,
}

impl View for SigningKeySet {
    type V = Map<Seq<char>, KeyMaterial>;

    closed spec fn view(&self) -> Map<Seq<char>, KeyMaterial> {
        key_map(self.entries@)
    }
}

impl SigningKeySet {
    /// The keys in the order published.
    pub closed spec fn entries(&self) -> Seq<SigningKey> {
        self.entries@
    }

    /// The end of the set's freshness, in seconds since the epoch.
    pub closed spec fn spec_fresh_until(&self) -> int {
        self.fresh_until as int
    }

    /// A loaded key set is never empty.
    pub closed spec fn well_formed(&self) -> bool {
        self.entries@.len() > 0
    }

    /// The view is the mapping that the entries stand for.
    pub proof fn view_is_key_map(&self)
        ensures
            self@ == key_map(self.entries()),
    {
    }

    /// A well-formed set holds at least one key.
    pub proof fn never_empty(&self)
        requires
            self.well_formed(),
        ensures
            self.entries().len() > 0,
            self@.contains_key(self.entries()[0].key_id@),
    {
    }

    /// Takes a fetched list of keys as the key set. A fetch that yielded no
    /// key counts as a failed fetch.
    pub fn from_entries(entries: Vec<SigningKey>, fresh_until: i64) -> (loaded: Result<
        SigningKeySet,
        AuthError,
    >)
        ensures
            entries@.len() == 0 ==> loaded == Err::<SigningKeySet, AuthError>(
                AuthError::UpstreamUnavailable,
            ),
            entries@.len() > 0 ==> loaded.is_ok(),
            loaded matches Ok(set) ==> set.well_formed() && set.entries() == entries@
                && set.spec_fresh_until() == fresh_until && set@ == key_map(entries@),
    {
        if entries.len() == 0 {
            Err(AuthError::UpstreamUnavailable)
        } else {
            Ok(SigningKeySet { entries, fresh_until })
        }
    }

    /// The key with the given id, if the set holds one.
    pub fn get_key(&self, key_id: &str) -> (found: Option<&SigningKey>)
        ensures
            found.is_some() == self@.contains_key(key_id@),
            found matches Some(key) ==> key.key_id@ == key_id@ && key.material()
                == self@[key_id@],
    {
        let mut at: usize = 0;
        assert(self.entries@.skip(0) == self.entries@);
        while at < self.entries.len()
            invariant
                at <= self.entries@.len(),
                first_with_id(self.entries@, key_id@) == first_with_id(
                    self.entries@.skip(at as int),
                    key_id@,
                ),
            decreases self.entries@.len() - at,
        {
            let entry = &self.entries[at];
            assert(self.entries@.skip(at as int)[0] == self.entries@[at as int]);
            if same_text(entry.key_id.as_str(), key_id) {
                return Some(entry);
            }
            assert(self.entries@.skip(at as int).drop_first() == self.entries@.skip(at + 1));
            at += 1;
        }
        None
    }

    /// The number of keys held.
    pub fn len(&self) -> (count: usize)
        ensures
            count == self.entries().len(),
    {
        self.entries.len()
    }

    /// The end of the set's freshness, in seconds since the epoch.
    pub fn fresh_until(&self) -> (until: i64)
        ensures
            until == self.spec_fresh_until(),
    {
        self.fresh_until
    }

    /// Whether the provider still vouches for the set at `now`.
    pub fn is_fresh(&self, now: i64) -> (fresh: bool)
        ensures
            fresh == (now < self.spec_fresh_until()),
    {
        now < self.fresh_until
    }
}

/// The process-wide holder of the current key set. Readers see one whole
/// set or another, never a mixture: a refresh swaps the set in one step.
pub struct KeySetCache {
    current: SigningKeySet,
}

impl View for KeySetCache {
    type V = Map<Seq<char>, KeyMaterial>;

    closed spec fn view(&self) -> Map<Seq<char>, KeyMaterial> {
        self.current@
    }
}

impl KeySetCache {
    /// The key set currently held.
    pub closed spec fn current(&self) -> SigningKeySet {
        self.current
    }

    pub closed spec fn well_formed(&self) -> bool {
        self.current.well_formed()
    }

    /// The view of the cache is the view of the set it holds.
    pub proof fn view_is_current(&self)
        ensures
            self@ == self.current()@,
            self.well_formed() == self.current().well_formed(),
    {
    }

    /// Builds the cache from the keys fetched at start-up. There is no
    /// degraded mode: without keys there is no cache.
    pub fn load(entries: Vec<SigningKey>, fresh_until: i64) -> (loaded: Result<
        KeySetCache,
        AuthError,
    >)
        ensures
            entries@.len() == 0 ==> loaded == Err::<KeySetCache, AuthError>(
                AuthError::UpstreamUnavailable,
            ),
            entries@.len() > 0 ==> loaded.is_ok(),
            loaded matches Ok(cache) ==> cache.well_formed() && cache@ == key_map(entries@)
                && cache.current().entries() == entries@ && cache.current().spec_fresh_until()
                == fresh_until,
    {
        match SigningKeySet::from_entries(entries, fresh_until) {
            Ok(current) => Ok(KeySetCache { current }),
            Err(error) => Err(error),
        }
    }

    /// The key with the given id from the set held now. The provider is not
    /// asked again.
    pub fn get_key(&self, key_id: &str) -> (found: Option<&SigningKey>)
        ensures
            found.is_some() == self@.contains_key(key_id@),
            found matches Some(key) ==> key.key_id@ == key_id@ && key.material()
                == self@[key_id@],
    {
        self.current.get_key(key_id)
    }

    /// The set held now.
    pub fn key_set(&self) -> (set: &SigningKeySet)
        ensures
            *set == self.current(),
    {
        &self.current
    }

    /// Replaces the set held by a newly fetched one, whole. A fetch that
    /// yielded no key is a failed fetch and leaves the cache as it was.
    pub fn refresh(&mut self, entries: Vec<SigningKey>, fresh_until: i64) -> (refreshed: Result<
        (),
        AuthError,
    >)
        requires
            old(self).well_formed(),
        ensures
            final(self).well_formed(),
            entries@.len() == 0 ==> refreshed == Err::<(), AuthError>(
                AuthError::UpstreamUnavailable,
            ) && *final(self) == *old(self),
            entries@.len() > 0 ==> refreshed.is_ok() && final(self)@ == key_map(entries@),
            entries@.len() > 0 ==> final(self).current().entries() == entries@,
            entries@.len() > 0 ==> final(self).current().spec_fresh_until() == fresh_until,
    {
        match SigningKeySet::from_entries(entries, fresh_until) {
            Ok(fetched) => {
                self.current = fetched;
                Ok(())
            },
            Err(error) => Err(error),
        }
    }
}

} // verus!
