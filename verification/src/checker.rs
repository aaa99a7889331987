//! The two condition checkers: pure classifications of one RPC outcome
//! into satisfied / not yet satisfied / hard error.

use vstd::prelude::*;

use crate::outcome::{classify_failure, is_resource_not_found, ConditionResult, FailureClass,
    RemoteFailure};

verus! {

/// The directory service's answer to "which interfaces does this object
/// implement": interface name paired with its property names.
pub type ObjectRecord = Vec<(String, Vec<String>)>;

/// Object-presence checker: classify the outcome of fetching the interfaces
/// implemented by an object path.
///
/// Any successful answer, even an empty mapping, proves the object exists.
/// The well-known "resource not found" failure means the object does not
/// exist yet. Every other failure is hard and carries the original cause.
pub fn check_object(object: Result<ObjectRecord, RemoteFailure>) -> (r: ConditionResult)
    ensures
        object is Ok ==> r is Satisfied,
        object matches Err(f) ==> r == (if is_resource_not_found(&f) {
            ConditionResult::NotYetSatisfied
        } else {
            ConditionResult::HardError(f)
        }),
{
    match object {
        Ok(_) => ConditionResult::Satisfied,
        Err(failure) => match classify_failure(&failure) {
            FailureClass::ExpectedAbsence => ConditionResult::NotYetSatisfied,
            FailureClass::Other => ConditionResult::HardError(failure),
        },
    }
}

/// Subtree-interface-removed checker: classify the outcome of listing the
/// paths under a namespace that still implement an interface.
///
/// A non-empty path list means the interface is still present somewhere; an
/// empty list means it is gone from the whole subtree. The "resource not
/// found" failure also counts as gone: the namespace itself may no longer
/// exist. Every other failure is hard and carries the original cause.
pub fn check_subtree_paths(subtree_paths: Result<Vec<String>, RemoteFailure>) -> (r:
    ConditionResult)
    ensures
        subtree_paths matches Ok(paths) ==> r == (if paths@.len() > 0 {
            ConditionResult::NotYetSatisfied
        } else {
            ConditionResult::Satisfied
        }),
        subtree_paths matches Err(f) ==> r == (if is_resource_not_found(&f) {
            ConditionResult::Satisfied
        } else {
            ConditionResult::HardError(f)
        }),
{
    match subtree_paths {
        Ok(paths) => {
            if paths.len() > 0 {
                ConditionResult::NotYetSatisfied
            } else {
                ConditionResult::Satisfied
            }
        },
        Err(failure) => match classify_failure(&failure) {
            FailureClass::ExpectedAbsence => ConditionResult::Satisfied,
            FailureClass::Other => ConditionResult::HardError(failure),
        },
    }
}

} // verus!
