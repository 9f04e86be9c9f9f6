//! Approval requests: an approval authorizes exactly one pending action,
//! identified by its full binding (run, call, name, arguments digest,
//! targets, risk, sealed policy). Any drift invalidates instead of executing.
use vstd::prelude::*;
use crate::clock::now_epoch_ms;
use crate::decision::{PreparedCommandProposal, PreparedToolCall};
use crate::encoding::{
    decimal, decimal_text, hex_lower, push_id_text, sha256, sha256_hex, uuid_text,
    SHA256_MAX_INPUT_BYTES,
};
use crate::fleet_digest::push_str;
use crate::ids::new_id;
use crate::text::{chars_of, string_from_chars, text_eq};
use vstd::utf8::encode_utf8;

verus! {

pub const APPROVAL_REASON_ARGUMENTS_CHANGED: &'static str = "APPROVAL_ARGUMENTS_CHANGED";
pub const APPROVAL_REASON_TARGETS_CHANGED: &'static str = "APPROVAL_TARGETS_CHANGED";
pub const APPROVAL_REASON_POLICY_CHANGED: &'static str = "APPROVAL_POLICY_CHANGED";
pub const APPROVAL_REASON_SESSION_CHANGED: &'static str = "APPROVAL_SESSION_CHANGED";
pub const APPROVAL_REASON_NOT_PENDING: &'static str = "APPROVAL_NOT_PENDING";
pub const COMMAND_APPROVAL_NAME: &'static str = "agent.command";

#[derive(Clone, Copy, Debug, PartialEq, Eq, Structural)]
pub enum ApprovalRequestState {
    Pending,
    Granted,
    Rejected,
    Invalidated,
}

/// The durable approval record.
#[derive(Debug)]
pub struct ApprovalRequest {
    pub id: u128,
    pub run_id: u128,
    pub tool_call_id: u128,
    pub tool_name: String,
    /// SHA-256 over the canonical action; detects argument drift.
    pub arguments_hash: String,
    pub target_ids: Vec<u128>,
    pub risk: String,
    pub policy_version: u64,
    pub policy_hash: String,
    pub precondition_ref: Option<String>,
    pub change_set_id: Option<u128>,
    pub change_set_version: Option<u64>,
    pub state: ApprovalRequestState,
    pub created_at_epoch_ms: u64,
    pub decided_at_epoch_ms: Option<u64>,
}

/// A copy of a list of identifiers.
pub fn copy_ids(v: &Vec<u128>) -> (r: Vec<u128>)
    ensures
        r@ == v@,
{
    let mut r: Vec<u128> = Vec::new();
    let mut i: usize = 0;
    while i < v.len()
        invariant
            i <= v.len(),
            r@ == v@.subrange(0, i as int),
        decreases v.len() - i,
    {
        r.push(v[i]);
        i = i + 1;
    }
    r
}

/// `b` is a copy of `a`: every field equal, the target list by contents.
pub open spec fn approval_copy(a: ApprovalRequest, b: ApprovalRequest) -> bool {
    &&& b.target_ids@ == a.target_ids@
    &&& b == (ApprovalRequest { target_ids: b.target_ids, ..a })
}

impl Clone for ApprovalRequest {
    fn clone(&self) -> (r: ApprovalRequest)
        ensures
            approval_copy(*self, r),
    {
        let precondition_ref = match &self.precondition_ref {
            Some(s) => Some(s.clone()),
            None => None,
        };
        ApprovalRequest {
            id: self.id,
            run_id: self.run_id,
            tool_call_id: self.tool_call_id,
            tool_name: self.tool_name.clone(),
            arguments_hash: self.arguments_hash.clone(),
            target_ids: copy_ids(&self.target_ids),
            risk: self.risk.clone(),
            policy_version: self.policy_version,
            policy_hash: self.policy_hash.clone(),
            precondition_ref,
            change_set_id: self.change_set_id,
            change_set_version: self.change_set_version,
            state: self.state,
            created_at_epoch_ms: self.created_at_epoch_ms,
            decided_at_epoch_ms: self.decided_at_epoch_ms,
        }
    }
}

/// Why a pending approval can no longer authorize execution.
#[derive(Clone, Copy, Debug, PartialEq, Eq, Structural)]
pub enum ApprovalInvalidationReason {
    NotPending,
    ToolCallMismatch,
    ArgumentsChanged,
    TargetsChanged,
    SessionChanged,
    PolicyChanged,
}

/// The stable code of an invalidation reason; a mismatched tool call counts
/// as changed arguments.
pub open spec fn reason_text(reason: ApprovalInvalidationReason) -> Seq<char> {
    match reason {
        ApprovalInvalidationReason::NotPending => APPROVAL_REASON_NOT_PENDING@,
        ApprovalInvalidationReason::ToolCallMismatch => APPROVAL_REASON_ARGUMENTS_CHANGED@,
        ApprovalInvalidationReason::ArgumentsChanged => APPROVAL_REASON_ARGUMENTS_CHANGED@,
        ApprovalInvalidationReason::TargetsChanged => APPROVAL_REASON_TARGETS_CHANGED@,
        ApprovalInvalidationReason::SessionChanged => APPROVAL_REASON_SESSION_CHANGED@,
        ApprovalInvalidationReason::PolicyChanged => APPROVAL_REASON_POLICY_CHANGED@,
    }
}

impl ApprovalInvalidationReason {
    pub fn reason_code(self) -> (r: &'static str)
        ensures
            r@ == reason_text(self),
    {
        match self {
            ApprovalInvalidationReason::NotPending => APPROVAL_REASON_NOT_PENDING,
            ApprovalInvalidationReason::ToolCallMismatch => APPROVAL_REASON_ARGUMENTS_CHANGED,
            ApprovalInvalidationReason::ArgumentsChanged => APPROVAL_REASON_ARGUMENTS_CHANGED,
            ApprovalInvalidationReason::TargetsChanged => APPROVAL_REASON_TARGETS_CHANGED,
            ApprovalInvalidationReason::SessionChanged => APPROVAL_REASON_SESSION_CHANGED,
            ApprovalInvalidationReason::PolicyChanged => APPROVAL_REASON_POLICY_CHANGED,
        }
    }
}

/// The canonical text of a tool call: its name, a newline, its invocation.
pub open spec fn call_canonical(call: PreparedToolCall) -> Seq<char> {
    call.tool_name@ + seq!['\n'] + call.invocation@
}

/// The canonical text of a tool call fits the digest input bound.
pub open spec fn call_hashable(call: PreparedToolCall) -> bool {
    encode_utf8(call_canonical(call)).len() <= SHA256_MAX_INPUT_BYTES
}

/// The command text fits the digest input bound.
pub open spec fn command_hashable(command: PreparedCommandProposal) -> bool {
    encode_utf8(command.command@).len() <= SHA256_MAX_INPUT_BYTES
}

/// Digest of a tool call: hexadecimal SHA-256 of its canonical text.
pub open spec fn call_digest(call: PreparedToolCall) -> Seq<char> {
    hex_lower(sha256(encode_utf8(call_canonical(call))))
}

/// Digest of a command: hexadecimal SHA-256 of its exact text.
pub open spec fn command_digest(command: PreparedCommandProposal) -> Seq<char> {
    hex_lower(sha256(encode_utf8(command.command@)))
}

/// `session:<id>`
pub open spec fn session_ref_text(session_id: u128) -> Seq<char> {
    "session:"@ + uuid_text(session_id)
}

/// `changeset:<id>:<version>`
pub open spec fn change_set_binding_text(change_set_id: u128, version: u64) -> Seq<char> {
    "changeset:"@ + uuid_text(change_set_id) + ":"@ + decimal(version as nat)
}

/// Hash of a validated call.
pub fn arguments_hash(call: &PreparedToolCall) -> (r: String)
    requires
        call_hashable(*call),
    ensures
        r@ == call_digest(*call),
{
    let mut text: Vec<char> = chars_of(call.tool_name.as_str());
    text.push('\n');
    let inv = chars_of(call.invocation.as_str());
    let n = inv.len();
    let ghost start = text@;
    for i in 0..n
        invariant
            n == inv@.len(),
            text@ == start + inv@.take(i as int),
    {
        text.push(inv[i]);
        proof {
            assert(inv@.take(i + 1) =~= inv@.take(i as int).push(inv@[i as int]));
        }
    }
    proof {
        assert(inv@.take(n as int) =~= inv@);
        assert(text@ =~= call_canonical(*call));
    }
    let s = string_from_chars(text.as_slice());
    sha256_hex(s.as_str())
}

/// Hash of the exact command bytes.
pub fn command_hash(command: &PreparedCommandProposal) -> (r: String)
    requires
        command_hashable(*command),
    ensures
        r@ == command_digest(*command),
{
    sha256_hex(command.command.as_str())
}

/// The session reference bound into command approvals.
pub fn command_session_ref(session_id: u128) -> (r: String)
    ensures
        r@ == session_ref_text(session_id),
{
    let mut out: Vec<char> = Vec::new();
    push_str(&mut out, "session:");
    push_id_text(&mut out, session_id);
    string_from_chars(out.as_slice())
}

fn change_set_binding(change_set_id: u128, version: u64) -> (r: String)
    ensures
        r@ == change_set_binding_text(change_set_id, version),
{
    let mut out: Vec<char> = Vec::new();
    push_str(&mut out, "changeset:");
    push_id_text(&mut out, change_set_id);
    push_str(&mut out, ":");
    let digits = decimal_text(version);
    let ghost before = out@;
    let n = digits.len();
    for i in 0..n
        invariant
            n == digits@.len(),
            out@ == before + digits@.take(i as int),
    {
        out.push(digits[i]);
        proof {
            assert(digits@.take(i + 1) =~= digits@.take(i as int).push(digits@[i as int]));
        }
    }
    proof {
        assert(digits@.take(n as int) =~= digits@);
    }
    string_from_chars(out.as_slice())
}

/// Element-wise equality of identifier lists.
pub fn same_ids(a: &[u128], b: &[u128]) -> (r: bool)
    ensures
        r == (a@ == b@),
{
    if a.len() != b.len() {
        return false;
    }
    let n = a.len();
    for i in 0..n
        invariant
            n == a@.len(),
            n == b@.len(),
            forall|j: int| 0 <= j < i ==> a@[j] == b@[j],
    {
        if a[i] != b[i] {
            return false;
        }
    }
    assert(a@ =~= b@);
    true
}

pub open spec fn opt_text_view(o: Option<String>) -> Option<Seq<char>> {
    match o {
        Some(s) => Some(s@),
        None => None,
    }
}

/// A fresh pending approval's common fields.
pub open spec fn pending_fresh(a: ApprovalRequest) -> bool {
    a.state is Pending && a.decided_at_epoch_ms is None
}

/// A fresh pending approval of a run, bound to the exact call (by the digest
/// of its canonical text), the run's targets and the policy identity.
pub open spec fn bound_to_call(
    a: ApprovalRequest,
    run_id: u128,
    call: PreparedToolCall,
    target_ids: Seq<u128>,
    risk: Seq<char>,
    policy_version: u64,
    policy_hash: Seq<char>,
) -> bool {
    &&& a.run_id == run_id
    &&& a.tool_call_id == call.tool_call_id
    &&& a.tool_name@ == call.tool_name@
    &&& a.arguments_hash@ == call_digest(call)
    &&& a.target_ids@ == target_ids
    &&& a.risk@ == risk
    &&& a.policy_version == policy_version
    &&& a.policy_hash@ == policy_hash
    &&& a.precondition_ref is None
    &&& a.change_set_id is None
    &&& a.change_set_version is None
    &&& pending_fresh(a)
}

/// A fresh pending approval of a run, bound to the exact command text, the
/// run's targets, the session it will run in and the policy identity,
/// labelled with the command's risk.
pub open spec fn bound_to_command(
    a: ApprovalRequest,
    run_id: u128,
    command: PreparedCommandProposal,
    target_ids: Seq<u128>,
    session_id: u128,
    policy_version: u64,
    policy_hash: Seq<char>,
) -> bool {
    &&& a.run_id == run_id
    &&& a.tool_call_id == command.command_id
    &&& a.tool_name@ == COMMAND_APPROVAL_NAME@
    &&& a.arguments_hash@ == command_digest(command)
    &&& a.target_ids@ == target_ids
    &&& a.risk@ == match command.risk {
        crate::decision::CommandRisk::Low => "low"@,
        crate::decision::CommandRisk::Medium => "medium"@,
        crate::decision::CommandRisk::High => "high"@,
        crate::decision::CommandRisk::Critical => "critical"@,
    }
    &&& a.policy_version == policy_version
    &&& a.policy_hash@ == policy_hash
    &&& opt_text_view(a.precondition_ref) == Some(session_ref_text(session_id))
    &&& a.change_set_id is None
    &&& a.change_set_version is None
    &&& pending_fresh(a)
}

impl ApprovalRequest {
    /// Binds a pending approval to the exact validated call.
    pub fn bind(
        run_id: u128,
        call: &PreparedToolCall,
        target_ids: Vec<u128>,
        risk: String,
        policy_version: u64,
        policy_hash: String,
    ) -> (r: ApprovalRequest)
        requires
            call_hashable(*call),
        ensures
            bound_to_call(r, run_id, *call, target_ids@, risk@, policy_version, policy_hash@),
    {
        ApprovalRequest {
            id: new_id(),
            run_id,
            tool_call_id: call.tool_call_id,
            tool_name: call.tool_name.clone(),
            arguments_hash: arguments_hash(call),
            target_ids,
            risk,
            policy_version,
            policy_hash,
            precondition_ref: None,
            change_set_id: None,
            change_set_version: None,
            state: ApprovalRequestState::Pending,
            created_at_epoch_ms: now_epoch_ms(),
            decided_at_epoch_ms: None,
        }
    }

    /// Records the decision and stamps the time.
    pub fn decide(&mut self, state: ApprovalRequestState)
        ensures
            final(self).state == state,
            final(self).decided_at_epoch_ms is Some,
            final(self).id == old(self).id,
            final(self).run_id == old(self).run_id,
            final(self).tool_call_id == old(self).tool_call_id,
            final(self).tool_name == old(self).tool_name,
            final(self).arguments_hash == old(self).arguments_hash,
            final(self).target_ids == old(self).target_ids,
            final(self).risk == old(self).risk,
            final(self).policy_version == old(self).policy_version,
            final(self).policy_hash == old(self).policy_hash,
            final(self).precondition_ref == old(self).precondition_ref,
            final(self).change_set_id == old(self).change_set_id,
            final(self).change_set_version == old(self).change_set_version,
            final(self).created_at_epoch_ms == old(self).created_at_epoch_ms,
    {
        self.state = state;
        self.decided_at_epoch_ms = Some(now_epoch_ms());
    }

    /// Binds approval to the exact command text the user reviewed: the
    /// command id takes the call's place and the command digest the
    /// arguments digest.
    pub fn bind_command(
        run_id: u128,
        command: &PreparedCommandProposal,
        target_ids: Vec<u128>,
        session_id: u128,
        policy_version: u64,
        policy_hash: String,
    ) -> (r: ApprovalRequest)
        requires
            command_hashable(*command),
        ensures
            bound_to_command(r, run_id, *command, target_ids@, session_id, policy_version, policy_hash@),
    {
        ApprovalRequest {
            id: new_id(),
            run_id,
            tool_call_id: command.command_id,
            tool_name: COMMAND_APPROVAL_NAME.to_owned(),
            arguments_hash: command_hash(command),
            target_ids,
            risk: command.risk.as_str().to_owned(),
            policy_version,
            policy_hash,
            precondition_ref: Some(command_session_ref(session_id)),
            change_set_id: None,
            change_set_version: None,
            state: ApprovalRequestState::Pending,
            created_at_epoch_ms: now_epoch_ms(),
            decided_at_epoch_ms: None,
        }
    }

    /// Binds approval to one version of a change set.
    pub fn bind_change_set(
        run_id: u128,
        proposal_id: u128,
        change_set_id: u128,
        version: u64,
        title: &str,
        target_ids: Vec<u128>,
        risk: String,
        policy_version: u64,
        policy_hash: String,
        precondition_ref: Option<String>,
    ) -> (r: ApprovalRequest)
        ensures
            r.run_id == run_id,
            r.tool_call_id == proposal_id,
            r.tool_name@ == title@,
            r.arguments_hash@ == change_set_binding_text(change_set_id, version),
            r.target_ids@ == target_ids@,
            r.risk@ == risk@,
            r.policy_version == policy_version,
            r.policy_hash@ == policy_hash@,
            opt_text_view(r.precondition_ref) == opt_text_view(precondition_ref),
            r.change_set_id == Some(change_set_id),
            r.change_set_version == Some(version),
            pending_fresh(r),
    {
        ApprovalRequest {
            id: new_id(),
            run_id,
            tool_call_id: proposal_id,
            tool_name: title.to_owned(),
            arguments_hash: change_set_binding(change_set_id, version),
            target_ids,
            risk,
            policy_version,
            policy_hash,
            precondition_ref,
            change_set_id: Some(change_set_id),
            change_set_version: Some(version),
            state: ApprovalRequestState::Pending,
            created_at_epoch_ms: now_epoch_ms(),
            decided_at_epoch_ms: None,
        }
    }

    pub fn is_change_set(&self) -> (r: bool)
        ensures
            r == self.change_set_id is Some,
    {
        self.change_set_id.is_some()
    }

    pub fn is_command(&self) -> (r: bool)
        ensures
            r == (self.change_set_id is None && self.tool_name@ == COMMAND_APPROVAL_NAME@),
    {
        self.change_set_id.is_none() && text_eq(self.tool_name.as_str(), COMMAND_APPROVAL_NAME)
    }
}

/// The verdict on a pending change-set approval, checked in order.
pub open spec fn change_set_approval_verdict(
    approval: ApprovalRequest,
    change_set_id: u128,
    version: u64,
    target_ids: Seq<u128>,
    policy_matches: bool,
) -> Result<(), ApprovalInvalidationReason> {
    if !(approval.state is Pending) {
        Err(ApprovalInvalidationReason::NotPending)
    } else if approval.change_set_id != Some(change_set_id) || approval.change_set_version != Some(
        version,
    ) {
        Err(ApprovalInvalidationReason::ArgumentsChanged)
    } else if approval.target_ids@ != target_ids {
        Err(ApprovalInvalidationReason::TargetsChanged)
    } else if !policy_matches {
        Err(ApprovalInvalidationReason::PolicyChanged)
    } else {
        Ok(())
    }
}

/// The verdict on a pending tool-call approval, checked in order.
pub open spec fn call_approval_verdict(
    approval: ApprovalRequest,
    call: PreparedToolCall,
    target_ids: Seq<u128>,
    policy_matches: bool,
) -> Result<(), ApprovalInvalidationReason> {
    if !(approval.state is Pending) {
        Err(ApprovalInvalidationReason::NotPending)
    } else if approval.tool_call_id != call.tool_call_id {
        Err(ApprovalInvalidationReason::ToolCallMismatch)
    } else if approval.arguments_hash@ != call_digest(call) {
        Err(ApprovalInvalidationReason::ArgumentsChanged)
    } else if approval.target_ids@ != target_ids {
        Err(ApprovalInvalidationReason::TargetsChanged)
    } else if !policy_matches {
        Err(ApprovalInvalidationReason::PolicyChanged)
    } else {
        Ok(())
    }
}

/// The verdict on a pending command approval, checked in order.
pub open spec fn command_approval_verdict(
    approval: ApprovalRequest,
    command: PreparedCommandProposal,
    target_ids: Seq<u128>,
    session_id: u128,
    policy_matches: bool,
) -> Result<(), ApprovalInvalidationReason> {
    if !(approval.state is Pending) {
        Err(ApprovalInvalidationReason::NotPending)
    } else if !(approval.change_set_id is None && approval.tool_name@ == COMMAND_APPROVAL_NAME@)
        || approval.tool_call_id != command.command_id {
        Err(ApprovalInvalidationReason::ToolCallMismatch)
    } else if approval.arguments_hash@ != command_digest(command) {
        Err(ApprovalInvalidationReason::ArgumentsChanged)
    } else if approval.target_ids@ != target_ids {
        Err(ApprovalInvalidationReason::TargetsChanged)
    } else if opt_text_view(approval.precondition_ref) != Some(session_ref_text(session_id)) {
        Err(ApprovalInvalidationReason::SessionChanged)
    } else if !policy_matches {
        Err(ApprovalInvalidationReason::PolicyChanged)
    } else {
        Ok(())
    }
}

pub fn validate_pending_change_set_approval(
    approval: &ApprovalRequest,
    change_set_id: u128,
    version: u64,
    target_ids: &[u128],
    policy_matches: bool,
) -> (r: Result<(), ApprovalInvalidationReason>)
    ensures
        r == change_set_approval_verdict(*approval, change_set_id, version, target_ids@, policy_matches),
{
    if approval.state != ApprovalRequestState::Pending {
        return Err(ApprovalInvalidationReason::NotPending);
    }
    let id_matches = match approval.change_set_id {
        Some(id) => id == change_set_id,
        None => false,
    };
    let version_matches = match approval.change_set_version {
        Some(v) => v == version,
        None => false,
    };
    if !id_matches || !version_matches {
        return Err(ApprovalInvalidationReason::ArgumentsChanged);
    }
    if !same_ids(approval.target_ids.as_slice(), target_ids) {
        return Err(ApprovalInvalidationReason::TargetsChanged);
    }
    if !policy_matches {
        return Err(ApprovalInvalidationReason::PolicyChanged);
    }
    Ok(())
}

/// Validates that the pending approval still authorizes the exact call the
/// user saw.
pub fn validate_pending_approval(
    approval: &ApprovalRequest,
    call: &PreparedToolCall,
    target_ids: &[u128],
    policy_matches: bool,
) -> (r: Result<(), ApprovalInvalidationReason>)
    requires
        call_hashable(*call),
    ensures
        r == call_approval_verdict(*approval, *call, target_ids@, policy_matches),
{
    if approval.state != ApprovalRequestState::Pending {
        return Err(ApprovalInvalidationReason::NotPending);
    }
    if approval.tool_call_id != call.tool_call_id {
        return Err(ApprovalInvalidationReason::ToolCallMismatch);
    }
    let hash = arguments_hash(call);
    if approval.arguments_hash != hash {
        return Err(ApprovalInvalidationReason::ArgumentsChanged);
    }
    if !same_ids(approval.target_ids.as_slice(), target_ids) {
        return Err(ApprovalInvalidationReason::TargetsChanged);
    }
    if !policy_matches {
        return Err(ApprovalInvalidationReason::PolicyChanged);
    }
    Ok(())
}

/// Validates that the pending approval still authorizes the exact command,
/// targets and session the user saw.
pub fn validate_pending_command_approval(
    approval: &ApprovalRequest,
    command: &PreparedCommandProposal,
    target_ids: &[u128],
    session_id: u128,
    policy_matches: bool,
) -> (r: Result<(), ApprovalInvalidationReason>)
    requires
        command_hashable(*command),
    ensures
        r == command_approval_verdict(*approval, *command, target_ids@, session_id, policy_matches),
{
    if approval.state != ApprovalRequestState::Pending {
        return Err(ApprovalInvalidationReason::NotPending);
    }
    if !approval.is_command() || approval.tool_call_id != command.command_id {
        return Err(ApprovalInvalidationReason::ToolCallMismatch);
    }
    let hash = command_hash(command);
    if approval.arguments_hash != hash {
        return Err(ApprovalInvalidationReason::ArgumentsChanged);
    }
    if !same_ids(approval.target_ids.as_slice(), target_ids) {
        return Err(ApprovalInvalidationReason::TargetsChanged);
    }
    let expected = command_session_ref(session_id);
    let session_matches = match &approval.precondition_ref {
        Some(r) => *r == expected,
        None => false,
    };
    if !session_matches {
        return Err(ApprovalInvalidationReason::SessionChanged);
    }
    if !policy_matches {
        return Err(ApprovalInvalidationReason::PolicyChanged);
    }
    Ok(())
}

/// A freshly bound approval authorizes exactly the call it was bound to:
/// validating that same call against the same targets under an unchanged
/// policy succeeds.
pub proof fn lemma_bound_call_validates(approval: ApprovalRequest, call: PreparedToolCall, target_ids: Seq<u128>)
    requires
        pending_fresh(approval),
        approval.tool_call_id == call.tool_call_id,
        approval.arguments_hash@ == call_digest(call),
        approval.target_ids@ == target_ids,
    ensures
        call_approval_verdict(approval, call, target_ids, true) is Ok,
{
}

/// A command approval, as requested, authorizes exactly the command it was
/// bound to: validating that same command against the same targets, in the
/// same session, under an unchanged policy succeeds.
pub proof fn lemma_bound_command_validates(
    approval: ApprovalRequest,
    run_id: u128,
    command: PreparedCommandProposal,
    target_ids: Seq<u128>,
    session_id: u128,
    policy_version: u64,
    policy_hash: Seq<char>,
)
    requires
        bound_to_command(approval, run_id, command, target_ids, session_id, policy_version, policy_hash),
    ensures
        command_approval_verdict(approval, command, target_ids, session_id, true) is Ok,
{
}

/// An approval that validates is bound to the very call, arguments digest
/// and targets presented, it is still pending, and the policy is the sealed
/// one; any drift is refused.
pub proof fn lemma_validated_approval_is_exact(
    approval: ApprovalRequest,
    call: PreparedToolCall,
    target_ids: Seq<u128>,
    policy_matches: bool,
)
    requires
        call_approval_verdict(approval, call, target_ids, policy_matches) is Ok,
    ensures
        approval.state is Pending,
        approval.tool_call_id == call.tool_call_id,
        approval.arguments_hash@ == call_digest(call),
        approval.target_ids@ == target_ids,
        policy_matches,
{
}

/// A command approval that validates is bound to the exact command text, the
/// targets and the session it was granted for.
pub proof fn lemma_validated_command_approval_is_exact(
    approval: ApprovalRequest,
    command: PreparedCommandProposal,
    target_ids: Seq<u128>,
    session_id: u128,
    policy_matches: bool,
)
    requires
        command_approval_verdict(approval, command, target_ids, session_id, policy_matches) is Ok,
    ensures
        approval.state is Pending,
        approval.tool_call_id == command.command_id,
        approval.arguments_hash@ == command_digest(command),
        approval.target_ids@ == target_ids,
        opt_text_view(approval.precondition_ref) == Some(session_ref_text(session_id)),
        policy_matches,
{
}

/// A decided approval can never authorize anything again.
pub proof fn lemma_decided_approvals_never_validate(
    approval: ApprovalRequest,
    call: PreparedToolCall,
    target_ids: Seq<u128>,
    policy_matches: bool,
)
    requires
        !(approval.state is Pending),
    ensures
        call_approval_verdict(approval, call, target_ids, policy_matches) == Err::<(), ApprovalInvalidationReason>(
            ApprovalInvalidationReason::NotPending,
        ),
{
}

} // verus!
