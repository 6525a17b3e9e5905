//! A request as the middleware sees it: its metadata, what authentication
//! attached to it, and the message it carries.

use crate::firebase::VerifiedClaims;
use crate::stores::user::UserRow;
use crate::text::same_text;
use vstd::prelude::*;

verus! {

/// One metadata field of a request.
#[derive(Clone, Debug, PartialEq, Eq)]
pub struct MetadataEntry {
    pub name: String,
    pub value: String,
}

/// The metadata of a request, in the order received.
#[derive(Clone, Debug, PartialEq, Eq)]
pub struct Metadata {
    pub entries: Vec<MetadataEntry>,
}

/// The value of the first of `entries` with the given name.
pub open spec fn value_of(entries: Seq<MetadataEntry>, name: Seq<char>) -> Option<Seq<char>>
    decreases entries.len(),
{
    if entries.len() == 0 {
        None
    } else if entries[0].name@ == name {
        Some(entries[0].value@)
    } else {
        value_of(entries.drop_first(), name)
    }
}

impl Metadata {
    /// Metadata without a field.
    pub fn new() -> (metadata: Metadata)
        ensures
            metadata.entries@.len() == 0,
    {
        Metadata { entries: Vec::new() }
    }

    /// Adds a field after those already there.
    pub fn insert(&mut self, name: String, value: String)
        ensures
            final(self).entries@ == old(self).entries@.push(MetadataEntry { name, value }),
    {
        self.entries.push(MetadataEntry { name, value });
    }

    /// The value of the first field with the given name.
    pub fn get(&self, name: &str) -> (found: Option<&str>)
        ensures
            found.is_some() == value_of(self.entries@, name@).is_some(),
            found matches Some(value) ==> value_of(self.entries@, name@) == Some(value@),
    {
        let mut at: usize = 0;
        assert(self.entries@.skip(0) == self.entries@);
        while at < self.entries.len()
            invariant
                at <= self.entries@.len(),
                value_of(self.entries@, name@) == value_of(self.entries@.skip(at as int), name@),
            decreases self.entries@.len() - at,
        {
            let entry = &self.entries[at];
            assert(self.entries@.skip(at as int)[0] == self.entries@[at as int]);
            if same_text(entry.name.as_str(), name) {
                return Some(entry.value.as_str());
            }
            assert(self.entries@.skip(at as int).drop_first() == self.entries@.skip(at + 1));
            at += 1;
        }
        None
    }
}

/// Who a request was found to come from: the verified claims of its token
/// and the internal user that the claims' subject belongs to. It lives as
/// long as the one request it is attached to.
#[derive(Clone, Debug, PartialEq, Eq)]
pub struct AuthenticatedIdentity {
    pub claims: VerifiedClaims,
    pub user: UserRow,
}

/// A request on its way to a handler.
#[derive(Debug)]
pub struct Request<B> {
    pub metadata: Metadata,
    /// Who the request comes from, once authentication has admitted it.
    pub identity: Option<AuthenticatedIdentity>,
    pub message: B,
}

impl<B> Request<B> {
    /// A request as it arrives: nothing attached yet.
    pub fn new(metadata: Metadata, message: B) -> (request: Request<B>)
        ensures
            request.metadata == metadata,
            request.identity.is_none(),
            request.message == message,
    {
        Request { metadata, identity: None, message }
    }

    /// The message the request carries.
    pub fn into_inner(self) -> (message: B)
        ensures
            message == self.message,
    {
        self.message
    }
}

} // verus!
