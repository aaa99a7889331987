//! The reconciliation race: the first listener to terminate decides.
//!
//! The driving loop polls its listener tasks at a fixed interval and hands
//! each poll's snapshot to [`race_poll`]. The first terminal outcome it
//! observes becomes the race result; the remaining tasks are abandoned, and
//! by `lemma_finished_is_terminal` their own outcomes can no longer change
//! anything the race reported.

use vstd::prelude::*;

use crate::listener::ListenerOutcome;

verus! {

/// What one poll of two listener tasks decides: the first task's outcome if
/// it has terminated, else the second task's outcome if it has terminated,
/// else nothing — sleep and poll again.
pub open spec fn race_poll_spec(
    first: Option<ListenerOutcome>,
    second: Option<ListenerOutcome>,
) -> Option<ListenerOutcome> {
    if first is Some {
        first
    } else {
        second
    }
}

/// One poll of a two-task race. `first` and `second` are the terminal
/// outcomes of the two listeners, if they have terminated; `None` means the
/// task is still running.
pub fn race_poll(first: Option<ListenerOutcome>, second: Option<ListenerOutcome>) -> (r: Option<
    ListenerOutcome,
>)
    ensures
        r == race_poll_spec(first, second),
{
    match first {
        Some(outcome) => Some(outcome),
        None => second,
    }
}

/// Race correctness: a poll reports an outcome exactly when some task has
/// terminated, and what it reports is always the terminal outcome of one of
/// the tasks — the one observed first. In particular, when one task ends
/// `DoneOk` and the other `DoneErr`, either result is possible and which
/// one arrives depends only on the order of observation.
pub proof fn lemma_race_first_terminal_wins(
    first: Option<ListenerOutcome>,
    second: Option<ListenerOutcome>,
)
    ensures
        race_poll_spec(first, second) is Some <==> (first is Some || second is Some),
        race_poll_spec(first, second) matches Some(w) ==> first == Some(w) || second == Some(w),
        first matches Some(a) ==> race_poll_spec(first, second) == Some(a),
        first is None ==> race_poll_spec(first, second) == second,
{
}

} // verus!
