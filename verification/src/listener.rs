//! A notification listener task as a state machine.
//!
//! A listener watches one broadcast subscription and re-evaluates a
//! condition about bus state until the condition is proved or a hard error
//! occurs. The caller owns the subscription and the RPC calls; it feeds
//! every observation to [`listener_step`] and performs whatever the
//! resulting state asks for: run a check when the state is `CheckPending`,
//! await the next broadcast event when it is `EventPending`, and stop when
//! it is `Finished`.

use vstd::prelude::*;

use crate::outcome::{ConditionResult, RemoteFailure};

verus! {

/// The terminal value a listener produces. A hard error carries the
/// original remote cause; everything else, including an exhausted
/// subscription stream, ends in `DoneOk`.
pub enum ListenerOutcome {
    DoneOk,
    DoneErr(RemoteFailure),
}

/// Where a listener stands between observations.
pub enum ListenerState {
    /// A condition check is due (or in flight); the next observation is its
    /// result.
    CheckPending,
    /// Waiting for the next broadcast event on the subscription.
    EventPending,
    /// The listener has terminated; its outcome will not change.
    Finished(ListenerOutcome),
}

/// One observation the driving loop hands to the listener.
pub enum ListenerEvent {
    /// The condition checker finished with this classification.
    CheckResult(ConditionResult),
    /// A broadcast notification arrived on the subscription.
    Notification,
    /// The subscription stream ended: the remote side closed it.
    StreamEnded,
}

/// The transition relation of a listener.
///
/// From `CheckPending`, a satisfied check terminates `DoneOk`, an
/// unsatisfied one goes back to waiting for a broadcast event, and a hard
/// error terminates `DoneErr` with that cause. From `EventPending`, a
/// notification schedules a fresh check, and an exhausted stream terminates
/// `DoneOk` by explicit policy: a bus that stops emitting signals is not a
/// failure. A finished listener never changes, and an observation that does
/// not apply to the current state leaves it unchanged.
pub open spec fn listener_step_spec(state: ListenerState, event: ListenerEvent) -> ListenerState {
    match state {
        ListenerState::CheckPending => match event {
            ListenerEvent::CheckResult(c) => match c {
                ConditionResult::Satisfied => ListenerState::Finished(ListenerOutcome::DoneOk),
                ConditionResult::NotYetSatisfied => ListenerState::EventPending,
                ConditionResult::HardError(cause) => ListenerState::Finished(
                    ListenerOutcome::DoneErr(cause),
                ),
            },
            _ => state,
        },
        ListenerState::EventPending => match event {
            ListenerEvent::Notification => ListenerState::CheckPending,
            ListenerEvent::StreamEnded => ListenerState::Finished(ListenerOutcome::DoneOk),
            _ => state,
        },
        ListenerState::Finished(_) => state,
    }
}

/// Advance a listener by one observation.
pub fn listener_step(state: ListenerState, event: ListenerEvent) -> (next: ListenerState)
    ensures
        next == listener_step_spec(state, event),
{
    match state {
        ListenerState::CheckPending => match event {
            ListenerEvent::CheckResult(c) => match c {
                ConditionResult::Satisfied => ListenerState::Finished(ListenerOutcome::DoneOk),
                ConditionResult::NotYetSatisfied => ListenerState::EventPending,
                ConditionResult::HardError(cause) => ListenerState::Finished(
                    ListenerOutcome::DoneErr(cause),
                ),
            },
            ListenerEvent::Notification => ListenerState::CheckPending,
            ListenerEvent::StreamEnded => ListenerState::CheckPending,
        },
        ListenerState::EventPending => match event {
            ListenerEvent::Notification => ListenerState::CheckPending,
            ListenerEvent::StreamEnded => ListenerState::Finished(ListenerOutcome::DoneOk),
            ListenerEvent::CheckResult(_) => ListenerState::EventPending,
        },
        ListenerState::Finished(outcome) => ListenerState::Finished(outcome),
    }
}

/// The state a listener reaches after observing a whole sequence of events.
pub open spec fn listener_run_spec(state: ListenerState, events: Seq<ListenerEvent>)
    -> ListenerState
    decreases events.len(),
{
    if events.len() == 0 {
        state
    } else {
        listener_run_spec(listener_step_spec(state, events[0]), events.subrange(
            1,
            events.len() as int,
        ))
    }
}

/// Replay a sequence of observations through a listener, starting from a
/// pending check (the immediate evaluation every listener begins with).
pub fn listener_replay(events: Vec<ListenerEvent>) -> (r: ListenerState)
    ensures
        r == listener_run_spec(ListenerState::CheckPending, events@),
{
    let mut state = ListenerState::CheckPending;
    let mut i: usize = 0;
    proof {
        assert(events@.subrange(0, events@.len() as int) =~= events@);
    }
    while i < events.len()
        invariant
            i <= events@.len(),
            listener_run_spec(state, events@.subrange(i as int, events@.len() as int))
                == listener_run_spec(ListenerState::CheckPending, events@),
        decreases events@.len() - i,
    {
        proof {
            assert(events@.subrange(i as int, events@.len() as int)[0] == events@[i as int]);
            assert(events@.subrange(i as int, events@.len() as int).subrange(
                1,
                events@.len() - i,
            ) =~= events@.subrange(i + 1, events@.len() as int));
        }
        state = listener_step(state, events[i].clone_event());
        i = i + 1;
    }
    proof {
        assert(events@.subrange(events@.len() as int, events@.len() as int)
            =~= Seq::<ListenerEvent>::empty());
    }
    state
}

impl ListenerEvent {
    /// An identical copy of this observation.
    pub fn clone_event(&self) -> (r: ListenerEvent)
        ensures
            r == *self,
    {
        match self {
            ListenerEvent::CheckResult(c) => ListenerEvent::CheckResult(c.clone_result()),
            ListenerEvent::Notification => ListenerEvent::Notification,
            ListenerEvent::StreamEnded => ListenerEvent::StreamEnded,
        }
    }
}

/// Hard causes propagate unchanged: a listener that was still running and
/// terminated with `DoneErr(cause)` observed a check result carrying
/// exactly that cause. Nothing else — notifications, an exhausted stream,
/// or any satisfied or unsatisfied check — is ever reported as a hard
/// error, and the cause is never re-wrapped on the way out.
pub proof fn lemma_hard_error_propagates_unchanged(
    state: ListenerState,
    events: Seq<ListenerEvent>,
    cause: RemoteFailure,
)
    requires
        state !is Finished,
        listener_run_spec(state, events) == ListenerState::Finished(
            ListenerOutcome::DoneErr(cause),
        ),
    ensures
        exists|k: int|
            0 <= k < events.len() && events[k] == ListenerEvent::CheckResult(
                ConditionResult::HardError(cause),
            ),
    decreases events.len(),
{
    let next = listener_step_spec(state, events[0]);
    let rest = events.subrange(1, events.len() as int);
    match next {
        ListenerState::Finished(outcome) => {
            lemma_finished_is_terminal(outcome, rest);
            assert(events[0] == ListenerEvent::CheckResult(ConditionResult::HardError(cause)));
        },
        _ => {
            lemma_hard_error_propagates_unchanged(next, rest, cause);
            let k0 = choose|k: int|
                0 <= k < rest.len() && rest[k] == ListenerEvent::CheckResult(
                    ConditionResult::HardError(cause),
                );
            assert(events[k0 + 1] == ListenerEvent::CheckResult(
                ConditionResult::HardError(cause),
            ));
        },
    }
}

/// Once a listener has terminated, no further observation changes its
/// outcome: a task abandoned after losing a race may keep receiving events
/// without ever revising its terminal state.
pub proof fn lemma_finished_is_terminal(outcome: ListenerOutcome, events: Seq<ListenerEvent>)
    ensures
        listener_run_spec(ListenerState::Finished(outcome), events)
            == ListenerState::Finished(outcome),
    decreases events.len(),
{
    if events.len() > 0 {
        lemma_finished_is_terminal(outcome, events.subrange(1, events.len() as int));
    }
}

} // verus!
