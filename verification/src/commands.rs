//! The decision logic of the three commands.
//!
//! Each command runs an immediate condition check, then either finishes or
//! subscribes to the relevant broadcast signals. Everything the commands
//! decide is here; issuing the RPC calls, opening the subscriptions and
//! running the listener tasks is the caller's side of the bargain.

use vstd::prelude::*;

use crate::checker::ObjectRecord;
use crate::errors::Error;
use crate::outcome::{ConditionResult, RemoteFailure};

verus! {

/// No character of `s` is a colon.
pub open spec fn colon_free(s: Seq<char>) -> bool {
    forall|j: int| 0 <= j < s.len() ==> s[j] != ':'
}

/// Split a `NAMESPACE:INTERFACE` token at its first colon.
///
/// A token without any colon is a malformed argument, rejected before any
/// bus interaction.
pub fn parse_subtree_token(token: &str) -> (r: Result<(String, String), Error>)
    ensures
        r is Ok <==> !colon_free(token@),
        r matches Ok(parts) ==> {
            let i = parts.0@.len() as int;
            &&& 0 <= i < token@.len()
            &&& token@[i] == ':'
            &&& colon_free(token@.subrange(0, i))
            &&& parts.0@ == token@.subrange(0, i)
            &&& parts.1@ == token@.subrange(i + 1, token@.len() as int)
        },
        r matches Err(e) ==> e matches Error::InvalidSubtreeRemoveArg(t) && t@ == token@,
{
    let len = token.unicode_len();
    let mut i: usize = 0;
    while i < len
        invariant
            len == token@.len(),
            i <= len,
            forall|j: int| 0 <= j < i ==> token@[j] != ':',
        decreases len - i,
    {
        let c = token.get_char(i);
        if c == ':' {
            let namespace = token.substring_char(0, i);
            let interface = token.substring_char(i + 1, len);
            let parts = (String::from_str(namespace), String::from_str(interface));
            proof {
                assert(parts.0@.len() == i);
                assert(colon_free(token@.subrange(0, i as int)));
            }
            return Ok(parts);
        }
        i = i + 1;
    }
    Err(Error::InvalidSubtreeRemoveArg(token.to_owned()))
}

/// What a command does after its immediate condition check.
pub enum ReconcileDecision {
    /// The condition already holds: report success without subscribing.
    CompleteOk,
    /// The immediate check failed hard: report this cause.
    CompleteErr(RemoteFailure),
    /// Not satisfied yet: subscribe and run the listener task(s).
    Subscribe,
}

/// Decide a command's course from its immediate condition check.
///
/// A condition that is already satisfied completes the command on the spot:
/// no subscription is created and nothing waits. Only an unsatisfied
/// condition leads to subscribing, and a hard error is reported unchanged.
pub fn decide_after_immediate_check(first: ConditionResult) -> (d: ReconcileDecision)
    ensures
        first is Satisfied ==> d is CompleteOk,
        first is NotYetSatisfied ==> d is Subscribe,
        first matches ConditionResult::HardError(cause)
            ==> d == ReconcileDecision::CompleteErr(cause),
{
    match first {
        ConditionResult::Satisfied => ReconcileDecision::CompleteOk,
        ConditionResult::NotYetSatisfied => ReconcileDecision::Subscribe,
        ConditionResult::HardError(cause) => ReconcileDecision::CompleteErr(cause),
    }
}

/// The compute half of the `get-service` command: the interface names of a
/// directory answer, in the order the record lists them.
pub fn get_service_names(object: &ObjectRecord) -> (names: Vec<String>)
    ensures
        names@.len() == object@.len(),
        forall|i: int| 0 <= i < object@.len() ==> names@[i] == object@[i].0,
{
    let mut names: Vec<String> = Vec::new();
    let mut i: usize = 0;
    while i < object.len()
        invariant
            i <= object@.len(),
            names@.len() == i,
            forall|j: int| 0 <= j < i ==> names@[j] == object@[j].0,
        decreases object@.len() - i,
    {
        let pair = &object[i];
        names.push(pair.0.clone());
        i = i + 1;
    }
    names
}

} // verus!
