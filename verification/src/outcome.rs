//! The model of a remote bus failure and the classification of RPC outcomes.
//!
//! A failed RPC call against the directory service carries an error-code
//! string; one well-known code means "no such resource" and is expected
//! while a wait is in progress, every other failure is hard and terminates
//! the command.

use vstd::prelude::*;

verus! {

/// A failed remote call: an error-code string plus optional human-readable
/// detail. Transport-level failures are carried the same way, under a code
/// that is never the well-known "resource not found" code.
pub struct RemoteFailure {
    pub code: String,
    pub detail: Option<String>,
}

/// Classification of a `RemoteFailure`: either the expected "the resource is
/// absent" answer, or anything else.
pub enum FailureClass {
    ExpectedAbsence,
    Other,
}

/// The well-known remote error code meaning "no such resource".
pub open spec fn resource_not_found_code() -> Seq<char> {
    "xyz.openbmc_project.Common.Error.ResourceNotFound"@
}

/// Whether a failure is the expected "resource not found" answer.
pub open spec fn is_resource_not_found(f: &RemoteFailure) -> bool {
    f.code@ == resource_not_found_code()
}

/// Classify a remote failure by its error code: the single well-known
/// sentinel code means expected absence, everything else is a hard failure.
pub fn classify_failure(f: &RemoteFailure) -> (c: FailureClass)
    ensures
        c is ExpectedAbsence <==> is_resource_not_found(f),
{
    let sentinel = String::from_str("xyz.openbmc_project.Common.Error.ResourceNotFound");
    if f.code == sentinel {
        FailureClass::ExpectedAbsence
    } else {
        FailureClass::Other
    }
}

/// What a condition checker concludes from one RPC outcome.
pub enum ConditionResult {
    Satisfied,
    NotYetSatisfied,
    HardError(RemoteFailure),
}

impl RemoteFailure {
    /// An identical copy of this failure.
    pub fn clone_failure(&self) -> (r: RemoteFailure)
        ensures
            r == *self,
    {
        RemoteFailure {
            code: self.code.clone(),
            detail: match &self.detail {
                Some(d) => Some(d.clone()),
                None => None,
            },
        }
    }
}

impl ConditionResult {
    /// An identical copy of this classification.
    pub fn clone_result(&self) -> (r: ConditionResult)
        ensures
            r == *self,
    {
        match self {
            ConditionResult::Satisfied => ConditionResult::Satisfied,
            ConditionResult::NotYetSatisfied => ConditionResult::NotYetSatisfied,
            ConditionResult::HardError(cause) => ConditionResult::HardError(cause.clone_failure()),
        }
    }
}

} // verus!
