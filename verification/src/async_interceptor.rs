//! The shim between an interceptor, which takes its time, and a pipeline of
//! handlers: it runs the interceptor ahead of the handler and either sends
//! the request on or answers it on the spot.

use crate::error::{AuthError, Status};
use crate::request::{AuthenticatedIdentity, Metadata, Request};
use vstd::prelude::*;

verus! {

/// What an interceptor decides about a request.
#[derive(Clone, Debug, PartialEq, Eq)]
pub enum InterceptorOutcome {
    Admit(AuthenticatedIdentity),
    Reject(AuthError),
}

/// Anything that can decide about a request from its metadata. The decision
/// may take a look-up elsewhere; the request is complete before it starts.
/// What an interceptor can decide is its own to say, through `may_decide`;
/// one that says nothing of itself can decide anything.
pub trait AsyncInterceptor {
    /// Whether the interceptor can decide `outcome` for a request with the
    /// given metadata.
    open spec fn may_decide(&self, metadata: Metadata, outcome: InterceptorOutcome) -> bool {
        true
    }

    fn intercept(&self, metadata: &Metadata) -> (outcome: InterceptorOutcome)
        ensures
            self.may_decide(*metadata, outcome),
    ;
}

/// What becomes of a request after the interceptor has decided.
#[derive(Debug)]
pub enum Dispatch<B> {
    /// The request goes on to the handler, with the identity attached.
    Forward(Request<B>),
    /// The request is answered with a status; the handler never sees it.
    ShortCircuit(Status),
}

/// `result` is what becomes of `request` under `outcome`: admitted, it goes
/// on unchanged but for the identity attached to it; rejected, it is
/// answered with the status of the reason and with nothing else.
pub open spec fn dispatches<B>(
    request: Request<B>,
    outcome: InterceptorOutcome,
    result: Dispatch<B>,
) -> bool {
    match outcome {
        InterceptorOutcome::Admit(identity) => result matches Dispatch::Forward(forwarded) && {
            &&& forwarded.metadata == request.metadata
            &&& forwarded.message == request.message
            &&& forwarded.identity == Some(identity)
        },
        InterceptorOutcome::Reject(reason) => result matches Dispatch::ShortCircuit(status) && {
            &&& status.code == reason.spec_code()
            &&& status.message@ == reason.spec_message()
        },
    }
}

/// Carries out an interceptor's decision on a request.
pub fn dispatch<B>(request: Request<B>, outcome: InterceptorOutcome) -> (result: Dispatch<B>)
    ensures
        dispatches(request, outcome, result),
{
    match outcome {
        InterceptorOutcome::Admit(identity) => Dispatch::Forward(
            Request { metadata: request.metadata, identity: Some(identity), message: request.message },
        ),
        InterceptorOutcome::Reject(reason) => Dispatch::ShortCircuit(reason.status()),
    }
}

/// The layer that puts an interceptor in front of a handler. It decides
/// nothing itself: whatever the interceptor says is carried out.
pub struct AsyncInterceptorLayer<I: AsyncInterceptor> {
    interceptor: I,
}

impl<I: AsyncInterceptor> AsyncInterceptorLayer<I> {
    /// The interceptor that the layer runs.
    pub closed spec fn interceptor(&self) -> I {
        self.interceptor
    }

    pub fn new(interceptor: I) -> (layer: AsyncInterceptorLayer<I>)
        ensures
            layer.interceptor() == interceptor,
    {
        AsyncInterceptorLayer { interceptor }
    }

    /// Runs the interceptor on a request and carries out what it decides:
    /// the result is what becomes of the request under an outcome that the
    /// layer's interceptor can decide for the request's metadata.
    pub fn call<B>(&self, request: Request<B>) -> (result: Dispatch<B>)
        ensures
            exists|outcome: InterceptorOutcome|
                self.interceptor().may_decide(request.metadata, outcome) && #[trigger] dispatches(
                    request,
                    outcome,
                    result,
                ),
    {
        let outcome = self.interceptor.intercept(&request.metadata);
        let result = dispatch(request, outcome);
        assert(self.interceptor().may_decide(request.metadata, outcome) && dispatches(
            request,
            outcome,
            result,
        ));
        result
    }
}

/// Where a request stands in the layer.
#[derive(Clone, Copy, Debug, PartialEq, Eq, Structural)]
pub enum Phase {
    /// Arrived whole; the interceptor has not been started.
    Received,
    /// The interceptor is at work.
    Intercepting,
    /// The interceptor admitted the request; the handler has not been called.
    Admitted,
    /// The interceptor rejected the request; the answer has not been sent.
    Rejected,
    /// The handler is at work on the request.
    Dispatched,
    /// Nothing more happens to the request.
    Completed,
}

/// What can happen to a request in the layer.
#[derive(Clone, Copy, Debug, PartialEq, Eq, Structural)]
pub enum Event {
    /// The layer takes the request up.
    Start,
    /// The interceptor answers: admit.
    Admit,
    /// The interceptor answers: reject.
    Reject,
    /// The identity is attached and the handler is free to take the request.
    Dispatch,
    /// The handler has answered, or the rejection has been sent.
    Finish,
    /// The caller went away or the deadline passed.
    Cancel,
}

/// What the layer does on a transition.
#[derive(Clone, Copy, Debug, PartialEq, Eq, Structural)]
pub enum Action {
    /// Start the interceptor on the request.
    RunInterceptor,
    /// Attach the identity to the request.
    AttachIdentity,
    /// Answer the request with the status of the rejection.
    ShortCircuit,
    /// Hand the request to the handler.
    CallHandler,
    /// Pass the answer back to the caller.
    Respond,
    /// Drop what is in flight; nothing is attached and nothing is answered.
    Abandon,
    /// The event does not fit the phase and changes nothing.
    Ignore,
}

/// A phase and what is done on entering it.
#[derive(Clone, Copy, Debug, PartialEq, Eq, Structural)]
pub struct Transition {
    pub phase: Phase,
    pub action: Action,
}

/// The layer's transitions. An event that does not fit the phase leaves the
/// phase as it is; a cancellation ends the request from any phase but the
/// last.
pub open spec fn transition(phase: Phase, event: Event) -> Transition {
    match (phase, event) {
        (Phase::Completed, _) => Transition { phase: Phase::Completed, action: Action::Ignore },
        (_, Event::Cancel) => Transition { phase: Phase::Completed, action: Action::Abandon },
        (Phase::Received, Event::Start) => Transition {
            phase: Phase::Intercepting,
            action: Action::RunInterceptor,
        },
        (Phase::Intercepting, Event::Admit) => Transition {
            phase: Phase::Admitted,
            action: Action::AttachIdentity,
        },
        (Phase::Intercepting, Event::Reject) => Transition {
            phase: Phase::Rejected,
            action: Action::ShortCircuit,
        },
        (Phase::Admitted, Event::Dispatch) => Transition {
            phase: Phase::Dispatched,
            action: Action::CallHandler,
        },
        (Phase::Dispatched, Event::Finish) => Transition {
            phase: Phase::Completed,
            action: Action::Respond,
        },
        (Phase::Rejected, Event::Finish) => Transition {
            phase: Phase::Completed,
            action: Action::Respond,
        },
        _ => Transition { phase, action: Action::Ignore },
    }
}

/// Takes a request from one phase to the next on an event.
pub fn step(phase: Phase, event: Event) -> (next: Transition)
    ensures
        next == transition(phase, event),
{
    match (phase, event) {
        (Phase::Completed, _) => Transition { phase: Phase::Completed, action: Action::Ignore },
        (_, Event::Cancel) => Transition { phase: Phase::Completed, action: Action::Abandon },
        (Phase::Received, Event::Start) => Transition {
            phase: Phase::Intercepting,
            action: Action::RunInterceptor,
        },
        (Phase::Intercepting, Event::Admit) => Transition {
            phase: Phase::Admitted,
            action: Action::AttachIdentity,
        },
        (Phase::Intercepting, Event::Reject) => Transition {
            phase: Phase::Rejected,
            action: Action::ShortCircuit,
        },
        (Phase::Admitted, Event::Dispatch) => Transition {
            phase: Phase::Dispatched,
            action: Action::CallHandler,
        },
        (Phase::Dispatched, Event::Finish) => Transition {
            phase: Phase::Completed,
            action: Action::Respond,
        },
        (Phase::Rejected, Event::Finish) => Transition {
            phase: Phase::Completed,
            action: Action::Respond,
        },
        _ => Transition { phase, action: Action::Ignore },
    }
}

/// The phase a request is in after a run of events.
pub open spec fn phase_after(phase: Phase, events: Seq<Event>) -> Phase
    decreases events.len(),
{
    if events.len() == 0 {
        phase
    } else {
        phase_after(transition(phase, events[0]).phase, events.drop_first())
    }
}

/// What the layer does during a run of events, one action for each event.
pub open spec fn actions_of(phase: Phase, events: Seq<Event>) -> Seq<Action>
    decreases events.len(),
{
    if events.len() == 0 {
        Seq::empty()
    } else {
        seq![transition(phase, events[0]).action] + actions_of(
            transition(phase, events[0]).phase,
            events.drop_first(),
        )
    }
}

/// How far along a phase is. No transition leads to a phase that is less
/// far along.
pub open spec fn progress(phase: Phase) -> nat {
    match phase {
        Phase::Received => 0,
        Phase::Intercepting => 1,
        Phase::Admitted => 2,
        Phase::Rejected => 2,
        Phase::Dispatched => 3,
        Phase::Completed => 4,
    }
}

/// A transition leaves the phase as it is or leads further along, and only
/// `Start` on a received request leads to `Intercepting`: the interceptor
/// is never started a second time.
pub proof fn no_transition_goes_back(phase: Phase, event: Event)
    ensures
        transition(phase, event).phase == phase || progress(transition(phase, event).phase)
            > progress(phase),
        transition(phase, event).phase == Phase::Intercepting && phase != Phase::Intercepting
            ==> phase == Phase::Received && event == Event::Start,
        transition(phase, event).action == Action::RunInterceptor ==> phase == Phase::Received,
{
}

/// The handler is called only on a request that was admitted, and a request
/// is admitted only by the interceptor's answer.
pub proof fn handler_follows_admission(phase: Phase, event: Event)
    ensures
        transition(phase, event).action == Action::CallHandler ==> phase == Phase::Admitted,
        transition(phase, event).phase == Phase::Admitted && phase != Phase::Admitted ==> phase
            == Phase::Intercepting && event == Event::Admit,
        transition(phase, event).action == Action::AttachIdentity ==> phase
            == Phase::Intercepting && event == Event::Admit,
{
}

/// How often `action` occurs in `actions`.
pub open spec fn occurrences(actions: Seq<Action>, action: Action) -> nat
    decreases actions.len(),
{
    if actions.len() == 0 {
        0
    } else {
        (if actions[0] == action {
            1nat
        } else {
            0nat
        }) + occurrences(actions.drop_first(), action)
    }
}

/// Whatever events arrive, and in whatever order, a request is decided at
/// most once: the interceptor is started at most once, and at most one of
/// "attach the identity" and "answer with the rejection" ever happens.
pub proof fn one_decision_per_request(phase: Phase, events: Seq<Event>)
    ensures
        occurrences(actions_of(phase, events), Action::RunInterceptor) <= 1,
        occurrences(actions_of(phase, events), Action::AttachIdentity) + occurrences(
            actions_of(phase, events),
            Action::ShortCircuit,
        ) <= 1,
        progress(phase) >= 1 ==> occurrences(actions_of(phase, events), Action::RunInterceptor)
            == 0,
        progress(phase) >= 2 ==> occurrences(actions_of(phase, events), Action::AttachIdentity)
            + occurrences(actions_of(phase, events), Action::ShortCircuit) == 0,
    decreases events.len(),
{
    if events.len() > 0 {
        let next = transition(phase, events[0]);
        no_transition_goes_back(phase, events[0]);
        one_decision_per_request(next.phase, events.drop_first());
        let rest = actions_of(next.phase, events.drop_first());
        assert(actions_of(phase, events).drop_first() == rest);
    }
}

/// A request that was rejected never reaches the handler.
pub proof fn rejected_request_is_never_handled(events: Seq<Event>)
    ensures
        occurrences(actions_of(Phase::Rejected, events), Action::CallHandler) == 0,
        occurrences(actions_of(Phase::Completed, events), Action::CallHandler) == 0,
        occurrences(actions_of(Phase::Rejected, events), Action::AttachIdentity) == 0,
        occurrences(actions_of(Phase::Completed, events), Action::AttachIdentity) == 0,
    decreases events.len(),
{
    if events.len() > 0 {
        rejected_request_is_never_handled(events.drop_first());
        let after_rejected = transition(Phase::Rejected, events[0]);
        let after_completed = transition(Phase::Completed, events[0]);
        assert(actions_of(Phase::Rejected, events).drop_first() == actions_of(
            after_rejected.phase,
            events.drop_first(),
        ));
        assert(actions_of(Phase::Completed, events).drop_first() == actions_of(
            after_completed.phase,
            events.drop_first(),
        ));
    }
}

/// A request that is cancelled before the interceptor has answered is never
/// admitted: from then on no identity is attached and no handler is called,
/// whatever arrives afterwards, the interceptor's late answer included.
pub proof fn cancelled_request_is_never_admitted(phase: Phase, later: Seq<Event>)
    requires
        phase == Phase::Received || phase == Phase::Intercepting,
    ensures
        transition(phase, Event::Cancel) == (Transition {
            phase: Phase::Completed,
            action: Action::Abandon,
        }),
        occurrences(actions_of(phase, seq![Event::Cancel] + later), Action::AttachIdentity) == 0,
        occurrences(actions_of(phase, seq![Event::Cancel] + later), Action::CallHandler) == 0,
        phase_after(phase, seq![Event::Cancel] + later) == Phase::Completed,
{
    let events = seq![Event::Cancel] + later;
    assert(events[0] == Event::Cancel);
    assert(events.drop_first() == later);
    rejected_request_is_never_handled(later);
    completed_is_final(later);
    assert(actions_of(phase, events).drop_first() == actions_of(Phase::Completed, later));
}

/// Nothing leads out of `Completed`.
pub proof fn completed_is_final(events: Seq<Event>)
    ensures
        phase_after(Phase::Completed, events) == Phase::Completed,
    decreases events.len(),
{
    if events.len() > 0 {
        completed_is_final(events.drop_first());
    }
}

} // verus!
