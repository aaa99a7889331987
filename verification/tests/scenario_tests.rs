use mapper::checker::{check_object, check_subtree_paths, ObjectRecord};
use mapper::commands::{decide_after_immediate_check, parse_subtree_token, ReconcileDecision};
use mapper::errors::Error;
use mapper::listener::{listener_replay, listener_step, ListenerEvent, ListenerOutcome,
    ListenerState};
use mapper::outcome::{ConditionResult, RemoteFailure};
use mapper::race::race_poll;

const RESOURCE_NOT_FOUND_ERR: &str = "xyz.openbmc_project.Common.Error.ResourceNotFound";

fn resource_not_found() -> RemoteFailure {
    RemoteFailure {
        code: String::from(RESOURCE_NOT_FOUND_ERR),
        detail: None,
    }
}

// The condition is already satisfied at the immediate check: the command
// completes on the spot, no subscription is created and no listener runs.
#[test]
fn test_satisfied_immediately_skips_subscription() {
    let first = check_object(Ok(Vec::new()));
    let decision = decide_after_immediate_check(first);
    assert!(matches!(decision, ReconcileDecision::CompleteOk));
}

// Whichever task's terminal state the poll observes first wins the race,
// and the winner is always one of the two terminal outcomes.
#[test]
fn test_race_reports_first_observed_terminal_state() {
    let ok = ListenerOutcome::DoneOk;
    let err = ListenerOutcome::DoneErr(RemoteFailure {
        code: String::from("test.error"),
        detail: None,
    });

    // Both tasks already terminated: the first observed outcome wins.
    let winner = race_poll(Some(ok), Some(err)).expect("a finished task must win");
    let acceptable = matches!(
        winner,
        ListenerOutcome::DoneOk | ListenerOutcome::DoneErr(_)
    );
    assert!(acceptable);
    assert!(matches!(winner, ListenerOutcome::DoneOk));

    // Only the erring task has terminated: its outcome wins.
    let err = ListenerOutcome::DoneErr(RemoteFailure {
        code: String::from("test.error"),
        detail: None,
    });
    match race_poll(None, Some(err)) {
        Some(ListenerOutcome::DoneErr(cause)) => assert_eq!(cause.code, "test.error"),
        _ => panic!("the only terminated task must win the race"),
    }

    // Neither task has terminated: the race keeps polling.
    assert!(race_poll(None, None).is_none());
}

// The object is already present: `wait /foo` succeeds immediately, after
// the single immediate RPC call and without any listener task.
#[test]
fn test_wait_object_already_present() {
    let record: ObjectRecord = vec![(String::from("xyz.openbmc_project.Foo"), Vec::new())];
    let first = check_object(Ok(record));
    let decision = decide_after_immediate_check(first);
    assert!(matches!(decision, ReconcileDecision::CompleteOk));
}

// The object is absent at first; one "interfaces added" notification
// arrives, the re-check finds the object, and the wait succeeds after
// exactly one notification cycle.
#[test]
fn test_wait_object_appears_after_notification() {
    // Immediate check: the object does not exist yet.
    let first = check_object(Err(resource_not_found()));
    let decision = decide_after_immediate_check(first);
    assert!(matches!(decision, ReconcileDecision::Subscribe));

    // The "interfaces added" listener starts with its own immediate check,
    // then wakes once and finds the object.
    let absent = check_object(Err(resource_not_found()));
    let present = check_object(Ok(vec![(String::from("xyz.openbmc_project.Foo"), Vec::new())]));
    let outcome = listener_replay(vec![
        ListenerEvent::CheckResult(absent),
        ListenerEvent::Notification,
        ListenerEvent::CheckResult(present),
    ]);
    assert!(matches!(
        outcome,
        ListenerState::Finished(ListenerOutcome::DoneOk)
    ));

    // The other race leg is still running; the poll reports the success.
    match outcome {
        ListenerState::Finished(done) => {
            assert!(matches!(
                race_poll(Some(done), None),
                Some(ListenerOutcome::DoneOk)
            ));
        }
        _ => unreachable!(),
    }
}

// A hard remote failure during a notification cycle terminates the
// listener with that cause, and the race propagates it.
#[test]
fn test_wait_hard_error_propagates_through_race() {
    let hard = check_object(Err(RemoteFailure {
        code: String::from("test.error"),
        detail: Some(String::from("connection lost")),
    }));
    let outcome = listener_replay(vec![
        ListenerEvent::CheckResult(ConditionResult::NotYetSatisfied),
        ListenerEvent::Notification,
        ListenerEvent::CheckResult(hard),
    ]);
    match outcome {
        ListenerState::Finished(done) => match race_poll(Some(done), None) {
            Some(ListenerOutcome::DoneErr(cause)) => {
                assert_eq!(cause.code, "test.error");
                assert_eq!(cause.detail.as_deref(), Some("connection lost"));
            }
            _ => panic!("the hard error must win the race unchanged"),
        },
        _ => panic!("a hard check result must terminate the listener"),
    }
}

// An exhausted subscription stream ends the listener successfully: a bus
// that stops emitting signals is, by policy, not a failure.
#[test]
fn test_stream_end_terminates_listener_ok() {
    let state = listener_step(
        ListenerState::CheckPending,
        ListenerEvent::CheckResult(ConditionResult::NotYetSatisfied),
    );
    assert!(matches!(state, ListenerState::EventPending));
    let state = listener_step(state, ListenerEvent::StreamEnded);
    assert!(matches!(
        state,
        ListenerState::Finished(ListenerOutcome::DoneOk)
    ));
}

// `subtree-remove ns:iface`: the namespace still holds one matching path,
// then an "interfaces removed" notification arrives and the list is empty.
#[test]
fn test_subtree_remove_succeeds_after_removal() {
    let (namespace, interface) =
        parse_subtree_token("ns:iface").expect("a token with a colon must parse");
    assert_eq!(namespace, "ns");
    assert_eq!(interface, "iface");

    let first = check_subtree_paths(Ok(vec![String::from("/ns/obj")]));
    let decision = decide_after_immediate_check(first);
    assert!(matches!(decision, ReconcileDecision::Subscribe));

    let still_there = check_subtree_paths(Ok(vec![String::from("/ns/obj")]));
    let removed = check_subtree_paths(Ok(Vec::new()));
    let outcome = listener_replay(vec![
        ListenerEvent::CheckResult(still_there),
        ListenerEvent::Notification,
        ListenerEvent::CheckResult(removed),
    ]);
    assert!(matches!(
        outcome,
        ListenerState::Finished(ListenerOutcome::DoneOk)
    ));
}

// `subtree-remove badtoken`: the malformed argument is rejected before any
// bus interaction, with the malformed-argument message.
#[test]
fn test_subtree_remove_rejects_malformed_token() {
    match parse_subtree_token("badtoken") {
        Ok(_) => panic!("a token without a colon must be rejected"),
        Err(err) => {
            assert!(matches!(err, Error::InvalidSubtreeRemoveArg(_)));
            assert_eq!(err.message(), "Token ':' was not found in 'badtoken'\n");
        }
    }
}

// A listener that has terminated keeps its outcome, whatever still arrives:
// an abandoned race loser cannot change what the race reported.
#[test]
fn test_finished_listener_ignores_later_events() {
    let finished = listener_step(
        ListenerState::CheckPending,
        ListenerEvent::CheckResult(ConditionResult::Satisfied),
    );
    assert!(matches!(
        finished,
        ListenerState::Finished(ListenerOutcome::DoneOk)
    ));
    let after = listener_step(finished, ListenerEvent::Notification);
    assert!(matches!(
        after,
        ListenerState::Finished(ListenerOutcome::DoneOk)
    ));
    let after = listener_step(after, ListenerEvent::StreamEnded);
    assert!(matches!(
        after,
        ListenerState::Finished(ListenerOutcome::DoneOk)
    ));
}
