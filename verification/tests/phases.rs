use affect_server::async_interceptor::{step, Action, Event, Phase, Transition};

const PHASES: [Phase; 6] = [
    Phase::Received,
    Phase::Intercepting,
    Phase::Admitted,
    Phase::Rejected,
    Phase::Dispatched,
    Phase::Completed,
];

const EVENTS: [Event; 6] =
    [Event::Start, Event::Admit, Event::Reject, Event::Dispatch, Event::Finish, Event::Cancel];

fn run(mut phase: Phase, events: &[Event]) -> (Phase, Vec<Action>) {
    let mut actions = Vec::new();
    for event in events {
        let next = step(phase, *event);
        phase = next.phase;
        actions.push(next.action);
    }
    (phase, actions)
}

fn rank(phase: Phase) -> u8 {
    match phase {
        Phase::Received => 0,
        Phase::Intercepting => 1,
        Phase::Admitted | Phase::Rejected => 2,
        Phase::Dispatched => 3,
        Phase::Completed => 4,
    }
}

#[test]
fn admitted_request_runs_through_the_handler() {
    assert_eq!(
        run(Phase::Received, &[Event::Start, Event::Admit, Event::Dispatch, Event::Finish]),
        (
            Phase::Completed,
            vec![Action::RunInterceptor, Action::AttachIdentity, Action::CallHandler, Action::Respond]
        )
    );
}

#[test]
fn rejected_request_skips_the_handler() {
    assert_eq!(
        run(Phase::Received, &[Event::Start, Event::Reject, Event::Finish]),
        (Phase::Completed, vec![Action::RunInterceptor, Action::ShortCircuit, Action::Respond])
    );
    assert_eq!(
        step(Phase::Rejected, Event::Dispatch),
        Transition { phase: Phase::Rejected, action: Action::Ignore }
    );
}

#[test]
fn each_transition_is_the_one_laid_down() {
    assert_eq!(step(Phase::Received, Event::Start), Transition { phase: Phase::Intercepting, action: Action::RunInterceptor });
    assert_eq!(step(Phase::Intercepting, Event::Admit), Transition { phase: Phase::Admitted, action: Action::AttachIdentity });
    assert_eq!(step(Phase::Intercepting, Event::Reject), Transition { phase: Phase::Rejected, action: Action::ShortCircuit });
    assert_eq!(step(Phase::Admitted, Event::Dispatch), Transition { phase: Phase::Dispatched, action: Action::CallHandler });
    assert_eq!(step(Phase::Dispatched, Event::Finish), Transition { phase: Phase::Completed, action: Action::Respond });
    assert_eq!(step(Phase::Rejected, Event::Finish), Transition { phase: Phase::Completed, action: Action::Respond });
}

#[test]
fn cancellation_ends_a_request_from_any_phase() {
    for phase in PHASES {
        let expected = if phase == Phase::Completed { Action::Ignore } else { Action::Abandon };
        assert_eq!(step(phase, Event::Cancel), Transition { phase: Phase::Completed, action: expected });
    }
}

#[test]
fn cancelled_lookup_never_admits() {
    let (phase, actions) = run(
        Phase::Received,
        &[Event::Start, Event::Cancel, Event::Admit, Event::Dispatch, Event::Finish],
    );
    assert_eq!(phase, Phase::Completed);
    assert_eq!(
        actions,
        vec![Action::RunInterceptor, Action::Abandon, Action::Ignore, Action::Ignore, Action::Ignore]
    );
}

#[test]
fn events_that_do_not_fit_change_nothing() {
    let fitting = [
        (Phase::Received, Event::Start),
        (Phase::Intercepting, Event::Admit),
        (Phase::Intercepting, Event::Reject),
        (Phase::Admitted, Event::Dispatch),
        (Phase::Dispatched, Event::Finish),
        (Phase::Rejected, Event::Finish),
    ];
    for phase in PHASES {
        for event in EVENTS {
            if event != Event::Cancel && !fitting.contains(&(phase, event)) {
                assert_eq!(step(phase, event), Transition { phase, action: Action::Ignore });
            }
        }
    }
}

#[test]
fn no_transition_goes_back() {
    for phase in PHASES {
        for event in EVENTS {
            let next = step(phase, event);
            assert!(rank(next.phase) >= rank(phase));
            if next.phase == Phase::Intercepting {
                assert!(phase == Phase::Received || phase == Phase::Intercepting);
            }
            if next.action == Action::RunInterceptor {
                assert_eq!(phase, Phase::Received);
            }
        }
    }
}

#[test]
fn every_run_of_four_events_decides_at_most_once() {
    for first in EVENTS {
        for second in EVENTS {
            for third in EVENTS {
                for fourth in EVENTS {
                    let (_, actions) = run(Phase::Received, &[first, second, third, fourth]);
                    let count = |wanted: Action| actions.iter().filter(|a| **a == wanted).count();
                    assert!(count(Action::RunInterceptor) <= 1);
                    assert!(count(Action::AttachIdentity) + count(Action::ShortCircuit) <= 1);
                    assert!(count(Action::CallHandler) <= count(Action::AttachIdentity));
                }
            }
        }
    }
}
