//! Seeding of the nonprofit table from the giving platform's catalogue. The
//! decisions are here; whoever drives them does the listing, the search and
//! the insertions, one at a time, and reports back.

use crate::clock::Timestamp;
use crate::stores::user::StoreError;
use vstd::prelude::*;

verus! {

/// A nonprofit as the giving platform's search returns it.
#[derive(Clone, Debug, PartialEq, Eq)]
pub struct ChangeNonprofit {
    pub id: String,
    pub icon_url: String,
    pub name: String,
    pub ein: String,
    pub mission: String,
    pub category: String,
}

/// A nonprofit about to be stored: the store assigns the id.
#[derive(Clone, Debug, PartialEq, Eq)]
pub struct NewNonprofitRow {
    pub create_time: Timestamp,
    pub update_time: Timestamp,
    pub change_nonprofit_id: Option<String>,
    pub icon_url: String,
    pub name: String,
    pub ein: String,
    pub mission: String,
    pub category: String,
    pub affiliate_id: Option<u128>,
}

/// Why seeding stopped short.
#[derive(Clone, Copy, Debug, PartialEq, Eq, Structural)]
pub enum SeedError {
    /// The store failed.
    Store(StoreError),
    /// The search request could not be built or was not answered.
    Search,
}

/// Where seeding stands.
#[derive(Clone, Debug, PartialEq, Eq)]
pub enum SeedState {
    /// Nothing has been asked yet.
    Start,
    /// The store has been asked how many nonprofits it holds.
    Listing,
    /// The platform has been asked for its nonprofits.
    Searching,
    /// A nonprofit has been handed to the store; these are still to follow.
    Adding(Vec<ChangeNonprofit>),
    /// Seeding is over.
    Done,
}

/// What the driver reports.
#[derive(Debug, PartialEq, Eq)]
pub enum SeedEvent {
    /// Seeding is to begin.
    Begin,
    /// The store listed this many nonprofits, or failed.
    Listed(Result<usize, StoreError>),
    /// The platform returned these nonprofits, or the search failed.
    Found(Option<Vec<ChangeNonprofit>>),
    /// The store took the nonprofit, or failed.
    Added(Result<(), StoreError>),
}

/// What the driver is to do next.
#[derive(Debug, PartialEq, Eq)]
pub enum SeedAction {
    /// Ask the store for its first nonprofits, at most this many.
    ListNonprofits(i64),
    /// Ask the platform for its nonprofits, with the default search.
    SearchNonprofits,
    /// Hand this row to the store.
    AddNonprofit(NewNonprofitRow),
    /// Stop: seeding ended so.
    Finish(Result<(), SeedError>),
    /// The event does not fit the state; nothing is to be done.
    Ignore,
}

/// A state and what to do on entering it.
#[derive(Debug, PartialEq, Eq)]
pub struct SeedStep {
    pub state: SeedState,
    pub action: SeedAction,
}

/// How many nonprofits the store is asked to list.
pub const LIST_LIMIT: i64 = 20;

/// With this many nonprofits in the store, it counts as seeded.
pub const SEEDED_COUNT: usize = 10;

/// The row that stores a nonprofit of the platform, stamped `now`.
pub open spec fn row_for(nonprofit: ChangeNonprofit, now: Timestamp) -> NewNonprofitRow {
    NewNonprofitRow {
        create_time: now,
        update_time: now,
        change_nonprofit_id: Some(nonprofit.id),
        icon_url: nonprofit.icon_url,
        name: nonprofit.name,
        ein: nonprofit.ein,
        mission: nonprofit.mission,
        category: nonprofit.category,
        affiliate_id: None,
    }
}

/// `step` is what follows from `state` on `event` at time `now`.
///
/// The store is asked for its nonprofits first. If it holds enough, nothing
/// is added. Otherwise the platform is searched, and what it returns is
/// stored one by one in the order returned; each row is stamped with the
/// time at which it is handed over. The first failure ends the seeding.
pub open spec fn follows(state: SeedState, event: SeedEvent, now: Timestamp, step: SeedStep) -> bool {
    match (state, event) {
        (SeedState::Start, SeedEvent::Begin) => step.state == SeedState::Listing && step.action
            == SeedAction::ListNonprofits(LIST_LIMIT),
        (SeedState::Listing, SeedEvent::Listed(Ok(count))) => if count >= SEEDED_COUNT {
            step.state == SeedState::Done && step.action == SeedAction::Finish(Ok(()))
        } else {
            step.state == SeedState::Searching && step.action == SeedAction::SearchNonprofits
        },
        (SeedState::Listing, SeedEvent::Listed(Err(error))) => step.state == SeedState::Done
            && step.action == SeedAction::Finish(Err(SeedError::Store(error))),
        (SeedState::Searching, SeedEvent::Found(None)) => step.state == SeedState::Done
            && step.action == SeedAction::Finish(Err(SeedError::Search)),
        (SeedState::Searching, SeedEvent::Found(Some(nonprofits))) => inserts_next(
            nonprofits@,
            now,
            step,
        ),
        (SeedState::Adding(remaining), SeedEvent::Added(Ok(_))) => inserts_next(
            remaining@,
            now,
            step,
        ),
        (SeedState::Adding(_), SeedEvent::Added(Err(error))) => step.state == SeedState::Done
            && step.action == SeedAction::Finish(Err(SeedError::Store(error))),
        _ => step.state == state && step.action == SeedAction::Ignore,
    }
}

/// `step` hands the first of `remaining` to the store and keeps the rest,
/// or ends the seeding where none is left.
pub open spec fn inserts_next(remaining: Seq<ChangeNonprofit>, now: Timestamp, step: SeedStep) -> bool {
    if remaining.len() == 0 {
        step.state == SeedState::Done && step.action == SeedAction::Finish(Ok(()))
    } else {
        &&& step.state matches SeedState::Adding(kept) && kept@ == remaining.drop_first()
        &&& step.action == SeedAction::AddNonprofit(row_for(remaining[0], now))
    }
}

/// Hands the first of `remaining` to the store, or ends the seeding.
fn insert_next(remaining: Vec<ChangeNonprofit>, now: Timestamp) -> (step: SeedStep)
    ensures
        inserts_next(remaining@, now, step),
{
    let mut remaining = remaining;
    if remaining.len() == 0 {
        SeedStep { state: SeedState::Done, action: SeedAction::Finish(Ok(())) }
    } else {
        let nonprofit = remaining.remove(0);
        let row = NewNonprofitRow {
            create_time: now,
            update_time: now,
            change_nonprofit_id: Some(nonprofit.id),
            icon_url: nonprofit.icon_url,
            name: nonprofit.name,
            ein: nonprofit.ein,
            mission: nonprofit.mission,
            category: nonprofit.category,
            affiliate_id: None,
        };
        SeedStep { state: SeedState::Adding(remaining), action: SeedAction::AddNonprofit(row) }
    }
}

/// One step of seeding, at time `now`.
pub fn seed_step(state: SeedState, event: SeedEvent, now: Timestamp) -> (step: SeedStep)
    ensures
        follows(state, event, now, step),
{
    match (state, event) {
        (SeedState::Start, SeedEvent::Begin) => SeedStep {
            state: SeedState::Listing,
            action: SeedAction::ListNonprofits(LIST_LIMIT),
        },
        (SeedState::Listing, SeedEvent::Listed(Ok(count))) => if count >= SEEDED_COUNT {
            SeedStep { state: SeedState::Done, action: SeedAction::Finish(Ok(())) }
        } else {
            SeedStep { state: SeedState::Searching, action: SeedAction::SearchNonprofits }
        },
        (SeedState::Listing, SeedEvent::Listed(Err(error))) => SeedStep {
            state: SeedState::Done,
            action: SeedAction::Finish(Err(SeedError::Store(error))),
        },
        (SeedState::Searching, SeedEvent::Found(None)) => SeedStep {
            state: SeedState::Done,
            action: SeedAction::Finish(Err(SeedError::Search)),
        },
        (SeedState::Searching, SeedEvent::Found(Some(nonprofits))) => insert_next(nonprofits, now),
        (SeedState::Adding(remaining), SeedEvent::Added(Ok(_))) => insert_next(remaining, now),
        (SeedState::Adding(_), SeedEvent::Added(Err(error))) => SeedStep {
            state: SeedState::Done,
            action: SeedAction::Finish(Err(SeedError::Store(error))),
        },
        (state, _) => SeedStep { state, action: SeedAction::Ignore },
    }
}

/// One step of seeding, as of now by the system clock.
pub fn insert_nonprofits(state: SeedState, event: SeedEvent) -> (step: SeedStep)
    ensures
        exists|now: Timestamp| #[trigger] follows(state, event, now, step),
{
    let now = crate::clock::now();
    let step = seed_step(state, event, now);
    assert(follows(state, event, now, step));
    step
}

} // verus!
