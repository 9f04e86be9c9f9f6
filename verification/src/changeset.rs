//! Errors of the change-set execution boundary. Write remediation always
//! goes through the change-set service; the runtime never calls write tools.
use vstd::prelude::*;

verus! {

pub const CHANGE_PROPOSAL_NOT_EVIDENCE_BOUND: &'static str = "CHANGE_PROPOSAL_NOT_EVIDENCE_BOUND";
pub const CHANGESET_POLICY_BLOCKED: &'static str = "CHANGESET_POLICY_BLOCKED";
pub const CHANGESET_EXECUTION_FAILED: &'static str = "CHANGESET_EXECUTION_FAILED";
pub const CHANGESET_INVALID_OPERATION: &'static str = "INVALID_OPERATION";

#[derive(Debug)]
pub enum ChangeSetExecutorError {
    /// A store failure, carrying the store's own stable code.
    Store(String),
    PolicyBlocked,
    ExecutionFailed,
    InvalidOperation,
}

impl ChangeSetExecutorError {
    pub fn code(&self) -> (r: &str)
        ensures
            r@ == match self {
                ChangeSetExecutorError::Store(code) => code@,
                ChangeSetExecutorError::PolicyBlocked => CHANGESET_POLICY_BLOCKED@,
                ChangeSetExecutorError::ExecutionFailed => CHANGESET_EXECUTION_FAILED@,
                ChangeSetExecutorError::InvalidOperation => CHANGESET_INVALID_OPERATION@,
            },
    {
        match self {
            ChangeSetExecutorError::Store(code) => code.as_str(),
            ChangeSetExecutorError::PolicyBlocked => CHANGESET_POLICY_BLOCKED,
            ChangeSetExecutorError::ExecutionFailed => CHANGESET_EXECUTION_FAILED,
            ChangeSetExecutorError::InvalidOperation => CHANGESET_INVALID_OPERATION,
        }
    }
}

} // verus!
