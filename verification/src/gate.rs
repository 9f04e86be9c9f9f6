//! Authorization of validated actions. Whether a call runs automatically,
//! waits for approval or is blocked is a deterministic decision of the
//! runtime, never of the model. Commands are never auto-authorized.
use vstd::prelude::*;
use crate::decision::{PreparedCommandProposal, PreparedToolCall, risk_name};

verus! {

/// Stable code when policy denies a call outright.
pub const AGENT_POLICY_DENIED: &'static str = "AGENT_POLICY_DENIED";

/// Sealed identity of the built-in command policy.
pub const RUNTIME_COMMAND_POLICY_VERSION: u64 = 1;
pub const RUNTIME_COMMAND_POLICY_HASH: &'static str = "runtime-command-policy-v1";

/// Authorization of one validated read call.
#[derive(Debug)]
pub enum Authorization {
    /// Safe to execute without user interaction.
    Auto,
    /// Execution pauses for explicit user approval, bound to the sealed
    /// policy identity.
    RequireApproval { risk: String, policy_version: u64, policy_hash: String },
    /// Policy denies the call; it becomes a failed observation.
    Blocked { reason_code: String },
}

/// Authorization of a command: approval with the sealed policy identity and
/// the deterministic risk label, or a block. There is no automatic variant.
#[derive(Debug)]
pub enum CommandAuthorization {
    RequireApproval { risk: String, policy_version: u64, policy_hash: String },
    Blocked { reason_code: String },
}

/// The built-in command authorization: always approval, labelled with the
/// command's own risk and the built-in policy identity.
pub fn default_command_authorization(command: &PreparedCommandProposal) -> (r: CommandAuthorization)
    ensures
        match r {
            CommandAuthorization::RequireApproval { risk, policy_version, policy_hash } => {
                &&& risk@ == risk_name(command.risk)
                &&& policy_version == RUNTIME_COMMAND_POLICY_VERSION
                &&& policy_hash@ == RUNTIME_COMMAND_POLICY_HASH@
            },
            CommandAuthorization::Blocked { .. } => false,
        },
{
    CommandAuthorization::RequireApproval {
        risk: command.risk.as_str().to_owned(),
        policy_version: RUNTIME_COMMAND_POLICY_VERSION,
        policy_hash: RUNTIME_COMMAND_POLICY_HASH.to_owned(),
    }
}

/// Decision point consulted by the runtime loop for every validated action.
pub trait AuthorizationGate {
    fn authorize(&self, call: &PreparedToolCall) -> Authorization;

    /// By default every command needs approval, labelled with the command's
    /// own risk and the built-in policy identity; a gate may decide otherwise.
    fn authorize_command(&self, command: &PreparedCommandProposal) -> (r: CommandAuthorization)
        default_ensures
            match r {
                CommandAuthorization::RequireApproval { risk, policy_version, policy_hash } => {
                    &&& risk@ == risk_name(command.risk)
                    &&& policy_version == RUNTIME_COMMAND_POLICY_VERSION
                    &&& policy_hash@ == RUNTIME_COMMAND_POLICY_HASH@
                },
                CommandAuthorization::Blocked { .. } => false,
            },
    {
        default_command_authorization(command)
    }
}

/// Whether a sealed policy snapshot still matches the live policy.
pub trait PolicySnapshotMatcher {
    fn matches(&self, policy_version: u64, policy_hash: &str) -> bool;
}

/// A matcher with a fixed answer, for deterministic resume validation.
#[derive(Clone, Copy, Debug)]
pub struct FixedPolicyMatcher {
    pub matches: bool,
}

impl PolicySnapshotMatcher for FixedPolicyMatcher {
    fn matches(&self, _policy_version: u64, _policy_hash: &str) -> (r: bool)
        ensures
            r == self.matches,
    {
        self.matches
    }
}

/// Authorizes every validated call automatically; every validated call is
/// structurally read-only.
#[derive(Clone, Copy, Debug, Default)]
pub struct AutoAuthorizationGate;

impl AuthorizationGate for AutoAuthorizationGate {
    fn authorize(&self, _call: &PreparedToolCall) -> (r: Authorization)
        ensures
            r is Auto,
    {
        Authorization::Auto
    }
}

} // verus!
