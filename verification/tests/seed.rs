use affect_server::clock::Timestamp;
use affect_server::seed::{
    insert_nonprofits, seed_step, ChangeNonprofit, NewNonprofitRow, SeedAction, SeedError,
    SeedEvent, SeedState, SeedStep, LIST_LIMIT, SEEDED_COUNT,
};
use affect_server::stores::user::StoreError;

const NOW: Timestamp = Timestamp { seconds: 500, nanos: 7 };

fn nonprofit(tag: &str) -> ChangeNonprofit {
    ChangeNonprofit {
        id: format!("id-{tag}"),
        icon_url: format!("icon-{tag}"),
        name: format!("name-{tag}"),
        ein: format!("ein-{tag}"),
        mission: format!("mission-{tag}"),
        category: format!("category-{tag}"),
    }
}

fn row(tag: &str, now: Timestamp) -> NewNonprofitRow {
    NewNonprofitRow {
        create_time: now,
        update_time: now,
        change_nonprofit_id: Some(format!("id-{tag}")),
        icon_url: format!("icon-{tag}"),
        name: format!("name-{tag}"),
        ein: format!("ein-{tag}"),
        mission: format!("mission-{tag}"),
        category: format!("category-{tag}"),
        affiliate_id: None,
    }
}

fn finished(result: Result<(), SeedError>) -> SeedStep {
    SeedStep { state: SeedState::Done, action: SeedAction::Finish(result) }
}

#[test]
fn seeding_begins_by_listing_twenty() {
    assert_eq!(LIST_LIMIT, 20);
    assert_eq!(
        seed_step(SeedState::Start, SeedEvent::Begin, NOW),
        SeedStep { state: SeedState::Listing, action: SeedAction::ListNonprofits(20) }
    );
}

#[test]
fn store_with_ten_nonprofits_is_seeded() {
    assert_eq!(SEEDED_COUNT, 10);
    for count in [10, 11, 20, usize::MAX] {
        assert_eq!(
            seed_step(SeedState::Listing, SeedEvent::Listed(Ok(count)), NOW),
            finished(Ok(()))
        );
    }
}

#[test]
fn store_with_fewer_nonprofits_is_searched_for() {
    for count in [0, 1, 9] {
        assert_eq!(
            seed_step(SeedState::Listing, SeedEvent::Listed(Ok(count)), NOW),
            SeedStep { state: SeedState::Searching, action: SeedAction::SearchNonprofits }
        );
    }
}

#[test]
fn found_nonprofits_are_added_in_order() {
    let found = vec![nonprofit("a"), nonprofit("b"), nonprofit("c")];
    let step = seed_step(SeedState::Searching, SeedEvent::Found(Some(found)), NOW);
    assert_eq!(step.action, SeedAction::AddNonprofit(row("a", NOW)));
    assert_eq!(step.state, SeedState::Adding(vec![nonprofit("b"), nonprofit("c")]));

    let later = Timestamp { seconds: 501, nanos: 0 };
    let step = seed_step(step.state, SeedEvent::Added(Ok(())), later);
    assert_eq!(step.action, SeedAction::AddNonprofit(row("b", later)));
    assert_eq!(step.state, SeedState::Adding(vec![nonprofit("c")]));

    let step = seed_step(step.state, SeedEvent::Added(Ok(())), later);
    assert_eq!(step.action, SeedAction::AddNonprofit(row("c", later)));
    assert_eq!(step.state, SeedState::Adding(Vec::new()));

    assert_eq!(seed_step(step.state, SeedEvent::Added(Ok(())), later), finished(Ok(())));
}

#[test]
fn empty_search_ends_the_seeding() {
    assert_eq!(
        seed_step(SeedState::Searching, SeedEvent::Found(Some(Vec::new())), NOW),
        finished(Ok(()))
    );
}

#[test]
fn first_failure_ends_the_seeding() {
    assert_eq!(
        seed_step(SeedState::Listing, SeedEvent::Listed(Err(StoreError::Unavailable)), NOW),
        finished(Err(SeedError::Store(StoreError::Unavailable)))
    );
    assert_eq!(
        seed_step(SeedState::Searching, SeedEvent::Found(None), NOW),
        finished(Err(SeedError::Search))
    );
    assert_eq!(
        seed_step(
            SeedState::Adding(vec![nonprofit("b")]),
            SeedEvent::Added(Err(StoreError::Failed)),
            NOW
        ),
        finished(Err(SeedError::Store(StoreError::Failed)))
    );
}

#[test]
fn event_that_does_not_fit_changes_nothing() {
    let ignored = |state: SeedState| SeedStep { state, action: SeedAction::Ignore };
    assert_eq!(
        seed_step(SeedState::Start, SeedEvent::Listed(Ok(0)), NOW),
        ignored(SeedState::Start)
    );
    assert_eq!(
        seed_step(SeedState::Listing, SeedEvent::Begin, NOW),
        ignored(SeedState::Listing)
    );
    assert_eq!(
        seed_step(SeedState::Searching, SeedEvent::Added(Ok(())), NOW),
        ignored(SeedState::Searching)
    );
    assert_eq!(
        seed_step(SeedState::Adding(vec![nonprofit("b")]), SeedEvent::Found(None), NOW),
        ignored(SeedState::Adding(vec![nonprofit("b")]))
    );
    assert_eq!(seed_step(SeedState::Done, SeedEvent::Begin, NOW), ignored(SeedState::Done));
    assert_eq!(
        seed_step(SeedState::Done, SeedEvent::Added(Ok(())), NOW),
        ignored(SeedState::Done)
    );
}

#[test]
fn rows_are_stamped_by_the_clock() {
    let step = insert_nonprofits(SeedState::Searching, SeedEvent::Found(Some(vec![nonprofit("a")])));
    assert_eq!(step.state, SeedState::Adding(Vec::new()));
    match step.action {
        SeedAction::AddNonprofit(added) => {
            // Later than 2020-01-01, and both stamps are the one reading.
            assert!(added.create_time.seconds > 1_577_836_800);
            assert_eq!(added.create_time, added.update_time);
            assert_eq!(added, row("a", added.create_time));
        },
        other => panic!("{:?}", other),
    }
}

#[test]
fn steps_without_a_row_do_not_depend_on_the_clock() {
    assert_eq!(
        insert_nonprofits(SeedState::Start, SeedEvent::Begin),
        SeedStep { state: SeedState::Listing, action: SeedAction::ListNonprofits(20) }
    );
    assert_eq!(insert_nonprofits(SeedState::Listing, SeedEvent::Listed(Ok(10))), finished(Ok(())));
}
