//! The durable form of the runtime's records: the stable snake_case names
//! of run and approval states, the checked conversions of stored integers,
//! and the startup-recovery rule, which keeps interrupts, pauses every run
//! that was active mid-loop and never resumes anything by itself; and the
//! side-table writes that recording an event makes beside the event log.
use vstd::prelude::*;
use crate::approval::{approval_copy, ApprovalRequest, ApprovalRequestState};
use crate::encoding::uuid_text;
use crate::event::{AgentEvent, AgentEventEnvelope};
use crate::repository::AgentStoreError;
use crate::run::{AgentRun, RunView};
use crate::state::{state_is_interrupt, state_is_terminal, AgentRunStateV2};
use crate::text::text_eq;

verus! {

/// The stable name of a run state.
pub open spec fn state_name_spec(s: AgentRunStateV2) -> &'static str {
    match s {
        AgentRunStateV2::Created => "created",
        AgentRunStateV2::Running => "running",
        AgentRunStateV2::Reasoning => "reasoning",
        AgentRunStateV2::Acting => "acting",
        AgentRunStateV2::Observing => "observing",
        AgentRunStateV2::AwaitingApproval => "awaiting_approval",
        AgentRunStateV2::AwaitingUser => "awaiting_user",
        AgentRunStateV2::Diagnosed => "diagnosed",
        AgentRunStateV2::PlanningChange => "planning_change",
        AgentRunStateV2::ExecutingChange => "executing_change",
        AgentRunStateV2::Verifying => "verifying",
        AgentRunStateV2::RollingBack => "rolling_back",
        AgentRunStateV2::Paused => "paused",
        AgentRunStateV2::Completed => "completed",
        AgentRunStateV2::Failed => "failed",
        AgentRunStateV2::Cancelled => "cancelled",
    }
}

/// The state with this stable name, if any.
pub open spec fn state_from_name(raw: Seq<char>) -> Option<AgentRunStateV2> {
    if raw == "created"@ {
        Some(AgentRunStateV2::Created)
    } else if raw == "running"@ {
        Some(AgentRunStateV2::Running)
    } else if raw == "reasoning"@ {
        Some(AgentRunStateV2::Reasoning)
    } else if raw == "acting"@ {
        Some(AgentRunStateV2::Acting)
    } else if raw == "observing"@ {
        Some(AgentRunStateV2::Observing)
    } else if raw == "awaiting_approval"@ {
        Some(AgentRunStateV2::AwaitingApproval)
    } else if raw == "awaiting_user"@ {
        Some(AgentRunStateV2::AwaitingUser)
    } else if raw == "diagnosed"@ {
        Some(AgentRunStateV2::Diagnosed)
    } else if raw == "planning_change"@ {
        Some(AgentRunStateV2::PlanningChange)
    } else if raw == "executing_change"@ {
        Some(AgentRunStateV2::ExecutingChange)
    } else if raw == "verifying"@ {
        Some(AgentRunStateV2::Verifying)
    } else if raw == "rolling_back"@ {
        Some(AgentRunStateV2::RollingBack)
    } else if raw == "paused"@ {
        Some(AgentRunStateV2::Paused)
    } else if raw == "completed"@ {
        Some(AgentRunStateV2::Completed)
    } else if raw == "failed"@ {
        Some(AgentRunStateV2::Failed)
    } else if raw == "cancelled"@ {
        Some(AgentRunStateV2::Cancelled)
    } else {
        None
    }
}

/// Stable snake_case name of a run state.
pub fn state_name(state: AgentRunStateV2) -> (r: &'static str)
    ensures
        r == state_name_spec(state),
{
    match state {
        AgentRunStateV2::Created => "created",
        AgentRunStateV2::Running => "running",
        AgentRunStateV2::Reasoning => "reasoning",
        AgentRunStateV2::Acting => "acting",
        AgentRunStateV2::Observing => "observing",
        AgentRunStateV2::AwaitingApproval => "awaiting_approval",
        AgentRunStateV2::AwaitingUser => "awaiting_user",
        AgentRunStateV2::Diagnosed => "diagnosed",
        AgentRunStateV2::PlanningChange => "planning_change",
        AgentRunStateV2::ExecutingChange => "executing_change",
        AgentRunStateV2::Verifying => "verifying",
        AgentRunStateV2::RollingBack => "rolling_back",
        AgentRunStateV2::Paused => "paused",
        AgentRunStateV2::Completed => "completed",
        AgentRunStateV2::Failed => "failed",
        AgentRunStateV2::Cancelled => "cancelled",
    }
}

/// Parses a stored run state; an unknown name means the store is corrupt.
pub fn parse_state(raw: &str) -> (r: Result<AgentRunStateV2, AgentStoreError>)
    ensures
        match state_from_name(raw@) {
            Some(s) => r == Ok::<AgentRunStateV2, AgentStoreError>(s),
            None => r == Err::<AgentRunStateV2, AgentStoreError>(AgentStoreError::StoreCorrupt),
        },
{
    if text_eq(raw, "created") {
        return Ok(AgentRunStateV2::Created);
    }
    if text_eq(raw, "running") {
        return Ok(AgentRunStateV2::Running);
    }
    if text_eq(raw, "reasoning") {
        return Ok(AgentRunStateV2::Reasoning);
    }
    if text_eq(raw, "acting") {
        return Ok(AgentRunStateV2::Acting);
    }
    if text_eq(raw, "observing") {
        return Ok(AgentRunStateV2::Observing);
    }
    if text_eq(raw, "awaiting_approval") {
        return Ok(AgentRunStateV2::AwaitingApproval);
    }
    if text_eq(raw, "awaiting_user") {
        return Ok(AgentRunStateV2::AwaitingUser);
    }
    if text_eq(raw, "diagnosed") {
        return Ok(AgentRunStateV2::Diagnosed);
    }
    if text_eq(raw, "planning_change") {
        return Ok(AgentRunStateV2::PlanningChange);
    }
    if text_eq(raw, "executing_change") {
        return Ok(AgentRunStateV2::ExecutingChange);
    }
    if text_eq(raw, "verifying") {
        return Ok(AgentRunStateV2::Verifying);
    }
    if text_eq(raw, "rolling_back") {
        return Ok(AgentRunStateV2::RollingBack);
    }
    if text_eq(raw, "paused") {
        return Ok(AgentRunStateV2::Paused);
    }
    if text_eq(raw, "completed") {
        return Ok(AgentRunStateV2::Completed);
    }
    if text_eq(raw, "failed") {
        return Ok(AgentRunStateV2::Failed);
    }
    if text_eq(raw, "cancelled") {
        return Ok(AgentRunStateV2::Cancelled);
    }
    Err(AgentStoreError::StoreCorrupt)
}

/// Every state's name parses back to that state.
pub proof fn lemma_state_names_round_trip(s: AgentRunStateV2)
    ensures
        state_from_name(state_name_spec(s)@) == Some(s),
{
    reveal_strlit("created");
    reveal_strlit("running");
    reveal_strlit("reasoning");
    reveal_strlit("acting");
    reveal_strlit("observing");
    reveal_strlit("awaiting_approval");
    reveal_strlit("awaiting_user");
    reveal_strlit("diagnosed");
    reveal_strlit("planning_change");
    reveal_strlit("executing_change");
    reveal_strlit("verifying");
    reveal_strlit("rolling_back");
    reveal_strlit("paused");
    reveal_strlit("completed");
    reveal_strlit("failed");
    reveal_strlit("cancelled");
    match s {
        AgentRunStateV2::Created => {
        },
        AgentRunStateV2::Running => {
            assert("running"@[0] != "created"@[0]);
        },
        AgentRunStateV2::Reasoning => {
            assert("reasoning"@.len() != "created"@.len());
            assert("reasoning"@.len() != "running"@.len());
        },
        AgentRunStateV2::Acting => {
            assert("acting"@.len() != "created"@.len());
            assert("acting"@.len() != "running"@.len());
            assert("acting"@.len() != "reasoning"@.len());
        },
        AgentRunStateV2::Observing => {
            assert("observing"@.len() != "created"@.len());
            assert("observing"@.len() != "running"@.len());
            assert("observing"@[0] != "reasoning"@[0]);
            assert("observing"@.len() != "acting"@.len());
        },
        AgentRunStateV2::AwaitingApproval => {
            assert("awaiting_approval"@.len() != "created"@.len());
            assert("awaiting_approval"@.len() != "running"@.len());
            assert("awaiting_approval"@.len() != "reasoning"@.len());
            assert("awaiting_approval"@.len() != "acting"@.len());
            assert("awaiting_approval"@.len() != "observing"@.len());
        },
        AgentRunStateV2::AwaitingUser => {
            assert("awaiting_user"@.len() != "created"@.len());
            assert("awaiting_user"@.len() != "running"@.len());
            assert("awaiting_user"@.len() != "reasoning"@.len());
            assert("awaiting_user"@.len() != "acting"@.len());
            assert("awaiting_user"@.len() != "observing"@.len());
            assert("awaiting_user"@.len() != "awaiting_approval"@.len());
        },
        AgentRunStateV2::Diagnosed => {
            assert("diagnosed"@.len() != "created"@.len());
            assert("diagnosed"@.len() != "running"@.len());
            assert("diagnosed"@[0] != "reasoning"@[0]);
            assert("diagnosed"@.len() != "acting"@.len());
            assert("diagnosed"@[0] != "observing"@[0]);
            assert("diagnosed"@.len() != "awaiting_approval"@.len());
            assert("diagnosed"@.len() != "awaiting_user"@.len());
        },
        AgentRunStateV2::PlanningChange => {
            assert("planning_change"@.len() != "created"@.len());
            assert("planning_change"@.len() != "running"@.len());
            assert("planning_change"@.len() != "reasoning"@.len());
            assert("planning_change"@.len() != "acting"@.len());
            assert("planning_change"@.len() != "observing"@.len());
            assert("planning_change"@.len() != "awaiting_approval"@.len());
            assert("planning_change"@.len() != "awaiting_user"@.len());
            assert("planning_change"@.len() != "diagnosed"@.len());
        },
        AgentRunStateV2::ExecutingChange => {
            assert("executing_change"@.len() != "created"@.len());
            assert("executing_change"@.len() != "running"@.len());
            assert("executing_change"@.len() != "reasoning"@.len());
            assert("executing_change"@.len() != "acting"@.len());
            assert("executing_change"@.len() != "observing"@.len());
            assert("executing_change"@.len() != "awaiting_approval"@.len());
            assert("executing_change"@.len() != "awaiting_user"@.len());
            assert("executing_change"@.len() != "diagnosed"@.len());
            assert("executing_change"@.len() != "planning_change"@.len());
        },
        AgentRunStateV2::Verifying => {
            assert("verifying"@.len() != "created"@.len());
            assert("verifying"@.len() != "running"@.len());
            assert("verifying"@[0] != "reasoning"@[0]);
            assert("verifying"@.len() != "acting"@.len());
            assert("verifying"@[0] != "observing"@[0]);
            assert("verifying"@.len() != "awaiting_approval"@.len());
            assert("verifying"@.len() != "awaiting_user"@.len());
            assert("verifying"@[0] != "diagnosed"@[0]);
            assert("verifying"@.len() != "planning_change"@.len());
            assert("verifying"@.len() != "executing_change"@.len());
        },
        AgentRunStateV2::RollingBack => {
            assert("rolling_back"@.len() != "created"@.len());
            assert("rolling_back"@.len() != "running"@.len());
            assert("rolling_back"@.len() != "reasoning"@.len());
            assert("rolling_back"@.len() != "acting"@.len());
            assert("rolling_back"@.len() != "observing"@.len());
            assert("rolling_back"@.len() != "awaiting_approval"@.len());
            assert("rolling_back"@.len() != "awaiting_user"@.len());
            assert("rolling_back"@.len() != "diagnosed"@.len());
            assert("rolling_back"@.len() != "planning_change"@.len());
            assert("rolling_back"@.len() != "executing_change"@.len());
            assert("rolling_back"@.len() != "verifying"@.len());
        },
        AgentRunStateV2::Paused => {
            assert("paused"@.len() != "created"@.len());
            assert("paused"@.len() != "running"@.len());
            assert("paused"@.len() != "reasoning"@.len());
            assert("paused"@[0] != "acting"@[0]);
            assert("paused"@.len() != "observing"@.len());
            assert("paused"@.len() != "awaiting_approval"@.len());
            assert("paused"@.len() != "awaiting_user"@.len());
            assert("paused"@.len() != "diagnosed"@.len());
            assert("paused"@.len() != "planning_change"@.len());
            assert("paused"@.len() != "executing_change"@.len());
            assert("paused"@.len() != "verifying"@.len());
            assert("paused"@.len() != "rolling_back"@.len());
        },
        AgentRunStateV2::Completed => {
            assert("completed"@.len() != "created"@.len());
            assert("completed"@.len() != "running"@.len());
            assert("completed"@[0] != "reasoning"@[0]);
            assert("completed"@.len() != "acting"@.len());
            assert("completed"@[0] != "observing"@[0]);
            assert("completed"@.len() != "awaiting_approval"@.len());
            assert("completed"@.len() != "awaiting_user"@.len());
            assert("completed"@[0] != "diagnosed"@[0]);
            assert("completed"@.len() != "planning_change"@.len());
            assert("completed"@.len() != "executing_change"@.len());
            assert("completed"@[0] != "verifying"@[0]);
            assert("completed"@.len() != "rolling_back"@.len());
            assert("completed"@.len() != "paused"@.len());
        },
        AgentRunStateV2::Failed => {
            assert("failed"@.len() != "created"@.len());
            assert("failed"@.len() != "running"@.len());
            assert("failed"@.len() != "reasoning"@.len());
            assert("failed"@[0] != "acting"@[0]);
            assert("failed"@.len() != "observing"@.len());
            assert("failed"@.len() != "awaiting_approval"@.len());
            assert("failed"@.len() != "awaiting_user"@.len());
            assert("failed"@.len() != "diagnosed"@.len());
            assert("failed"@.len() != "planning_change"@.len());
            assert("failed"@.len() != "executing_change"@.len());
            assert("failed"@.len() != "verifying"@.len());
            assert("failed"@.len() != "rolling_back"@.len());
            assert("failed"@[0] != "paused"@[0]);
            assert("failed"@.len() != "completed"@.len());
        },
        AgentRunStateV2::Cancelled => {
            assert("cancelled"@.len() != "created"@.len());
            assert("cancelled"@.len() != "running"@.len());
            assert("cancelled"@[0] != "reasoning"@[0]);
            assert("cancelled"@.len() != "acting"@.len());
            assert("cancelled"@[0] != "observing"@[0]);
            assert("cancelled"@.len() != "awaiting_approval"@.len());
            assert("cancelled"@.len() != "awaiting_user"@.len());
            assert("cancelled"@[0] != "diagnosed"@[0]);
            assert("cancelled"@.len() != "planning_change"@.len());
            assert("cancelled"@.len() != "executing_change"@.len());
            assert("cancelled"@[0] != "verifying"@[0]);
            assert("cancelled"@.len() != "rolling_back"@.len());
            assert("cancelled"@.len() != "paused"@.len());
            assert("cancelled"@[1] != "completed"@[1]);
            assert("cancelled"@.len() != "failed"@.len());
        },
    }
}

/// The stable name of an approval state.
pub open spec fn approval_state_name_spec(s: ApprovalRequestState) -> &'static str {
    match s {
        ApprovalRequestState::Pending => "pending",
        ApprovalRequestState::Granted => "granted",
        ApprovalRequestState::Rejected => "rejected",
        ApprovalRequestState::Invalidated => "invalidated",
    }
}

/// The approval state with this stable name, if any.
pub open spec fn approval_state_from_name(raw: Seq<char>) -> Option<ApprovalRequestState> {
    if raw == "pending"@ {
        Some(ApprovalRequestState::Pending)
    } else if raw == "granted"@ {
        Some(ApprovalRequestState::Granted)
    } else if raw == "rejected"@ {
        Some(ApprovalRequestState::Rejected)
    } else if raw == "invalidated"@ {
        Some(ApprovalRequestState::Invalidated)
    } else {
        None
    }
}

pub fn approval_state_name(state: ApprovalRequestState) -> (r: &'static str)
    ensures
        r == approval_state_name_spec(state),
{
    match state {
        ApprovalRequestState::Pending => "pending",
        ApprovalRequestState::Granted => "granted",
        ApprovalRequestState::Rejected => "rejected",
        ApprovalRequestState::Invalidated => "invalidated",
    }
}

pub fn parse_approval_state(raw: &str) -> (r: Result<ApprovalRequestState, AgentStoreError>)
    ensures
        match approval_state_from_name(raw@) {
            Some(s) => r == Ok::<ApprovalRequestState, AgentStoreError>(s),
            None => r == Err::<ApprovalRequestState, AgentStoreError>(AgentStoreError::StoreCorrupt),
        },
{
    if text_eq(raw, "pending") {
        return Ok(ApprovalRequestState::Pending);
    }
    if text_eq(raw, "granted") {
        return Ok(ApprovalRequestState::Granted);
    }
    if text_eq(raw, "rejected") {
        return Ok(ApprovalRequestState::Rejected);
    }
    if text_eq(raw, "invalidated") {
        return Ok(ApprovalRequestState::Invalidated);
    }
    Err(AgentStoreError::StoreCorrupt)
}

/// Every approval state's name parses back to that state.
pub proof fn lemma_approval_state_names_round_trip(s: ApprovalRequestState)
    ensures
        approval_state_from_name(approval_state_name_spec(s)@) == Some(s),
{
    reveal_strlit("pending");
    reveal_strlit("granted");
    reveal_strlit("rejected");
    reveal_strlit("invalidated");
    match s {
        ApprovalRequestState::Pending => {
        },
        ApprovalRequestState::Granted => {
            assert("granted"@[0] != "pending"@[0]);
        },
        ApprovalRequestState::Rejected => {
            assert("rejected"@.len() != "pending"@.len());
            assert("rejected"@.len() != "granted"@.len());
        },
        ApprovalRequestState::Invalidated => {
            assert("invalidated"@.len() != "pending"@.len());
            assert("invalidated"@.len() != "granted"@.len());
            assert("invalidated"@.len() != "rejected"@.len());
        },
    }
}

/// A stored integer as a `u64`; a negative one means the store is corrupt.
pub fn checked_u64(value: i64) -> (r: Result<u64, AgentStoreError>)
    ensures
        value >= 0 ==> r == Ok::<u64, AgentStoreError>(value as u64),
        value < 0 ==> r == Err::<u64, AgentStoreError>(AgentStoreError::StoreCorrupt),
{
    if value < 0 {
        Err(AgentStoreError::StoreCorrupt)
    } else {
        Ok(value as u64)
    }
}

/// A stored integer as a `usize`; one that does not fit means the store is
/// corrupt.
pub fn checked_usize(value: i64) -> (r: Result<usize, AgentStoreError>)
    ensures
        0 <= value <= usize::MAX ==> r == Ok::<usize, AgentStoreError>(value as usize),
        !(0 <= value <= usize::MAX) ==> r == Err::<usize, AgentStoreError>(AgentStoreError::StoreCorrupt),
{
    if value < 0 {
        return Err(AgentStoreError::StoreCorrupt);
    }
    let v = value as u64;
    if v > usize::MAX as u64 {
        Err(AgentStoreError::StoreCorrupt)
    } else {
        Ok(v as usize)
    }
}

/// A run found at startup.
#[derive(Clone, Copy, Debug, PartialEq, Eq, Structural)]
pub struct RecoveredRun {
    pub run_id: u128,
    pub state: AgentRunStateV2,
    /// The run was active mid-loop and has been moved to `Paused`.
    pub interrupted: bool,
}

/// Startup recovery of one stored run: a terminal run is not recovered; an
/// interrupt or a run not yet started keeps its state; any other (active)
/// state is conservatively paused.
pub open spec fn recover_spec(run_id: u128, state: AgentRunStateV2) -> Option<RecoveredRun> {
    if state_is_terminal(state) {
        None
    } else if state_is_interrupt(state) || state == AgentRunStateV2::Created {
        Some(RecoveredRun { run_id, state, interrupted: false })
    } else {
        Some(RecoveredRun { run_id, state: AgentRunStateV2::Paused, interrupted: true })
    }
}

pub fn recover_on_startup_state(run_id: u128, state: AgentRunStateV2) -> (r: Option<RecoveredRun>)
    ensures
        r == recover_spec(run_id, state),
{
    if state.is_terminal() {
        None
    } else if state.is_interrupt() || state == AgentRunStateV2::Created {
        Some(RecoveredRun { run_id, state, interrupted: false })
    } else {
        Some(RecoveredRun { run_id, state: AgentRunStateV2::Paused, interrupted: true })
    }
}

/// Recovery never leaves a run in an active state and never revives a
/// finished one: a recovered run is an interrupt or not yet started.
pub proof fn lemma_recovery_never_resumes(run_id: u128, state: AgentRunStateV2)
    ensures
        state_is_terminal(state) ==> recover_spec(run_id, state) is None,
        recover_spec(run_id, state) matches Some(r) ==> (state_is_interrupt(r.state) || r.state == AgentRunStateV2::Created),
        recover_spec(run_id, state) matches Some(r) ==> (r.interrupted <==> r.state != state),
{
}

/// The runs that can be resumed: the non-terminal ones, in order.
pub open spec fn resumable(runs: Seq<AgentRun>) -> Seq<AgentRun>
    decreases runs.len(),
{
    if runs.len() == 0 {
        Seq::empty()
    } else if state_is_terminal(runs.last()@.state) {
        resumable(runs.drop_last())
    } else {
        resumable(runs.drop_last()).push(runs.last())
    }
}

/// A run that has not completed, failed or been cancelled.
pub open spec fn unfinished(run: AgentRun) -> bool {
    !(run@.state is Completed || run@.state is Failed || run@.state is Cancelled)
}

/// The runs a restart lists as resumable are exactly the stored runs that
/// have not completed, failed or been cancelled, in their stored order.
pub proof fn lemma_resumable_are_the_unfinished_runs(runs: Seq<AgentRun>)
    ensures
        resumable(runs) == runs.filter(|run: AgentRun| unfinished(run)),
        forall|i: int| 0 <= i < resumable(runs).len() ==> unfinished(#[trigger] resumable(runs)[i]),
        forall|i: int| 0 <= i < runs.len() && unfinished(#[trigger] runs[i]) ==> resumable(runs).contains(runs[i]),
    decreases runs.len(),
{
    reveal(Seq::filter);
    if runs.len() > 0 {
        lemma_resumable_are_the_unfinished_runs(runs.drop_last());
        assert(runs.filter(|run: AgentRun| unfinished(run)) == {
            let sub = runs.drop_last().filter(|run: AgentRun| unfinished(run));
            if unfinished(runs.last()) { sub.push(runs.last()) } else { sub }
        });
    } else {
        assert(runs.filter(|run: AgentRun| unfinished(run)) == runs);
    }
    assert forall|i: int| 0 <= i < resumable(runs).len() implies unfinished(#[trigger] resumable(runs)[i]) by {
        runs.lemma_filter_pred(|run: AgentRun| unfinished(run), i);
    }
    assert forall|i: int| 0 <= i < runs.len() && unfinished(#[trigger] runs[i]) implies resumable(runs).contains(runs[i]) by {
        runs.lemma_filter_contains(|run: AgentRun| unfinished(run), i);
    }
}

pub fn resumable_runs(runs: &[AgentRun]) -> (r: Vec<AgentRun>)
    ensures
        r@ == resumable(runs@),
{
    let mut out: Vec<AgentRun> = Vec::new();
    let mut i: usize = 0;
    while i < runs.len()
        invariant
            i <= runs@.len(),
            out@ == resumable(runs@.take(i as int)),
        decreases runs@.len() - i,
    {
        proof {
            assert(runs@.take(i + 1).drop_last() =~= runs@.take(i as int));
        }
        if !runs[i].state().is_terminal() {
            out.push(runs[i]);
        }
        i = i + 1;
    }
    assert(runs@.take(runs@.len() as int) =~= runs@);
    out
}


/// Who wrote a message of the run.
#[derive(Clone, Copy, Debug, PartialEq, Eq, Structural)]
pub enum MessageRole {
    User,
    Assistant,
}

impl MessageRole {
    /// The stored name of the role.
    pub fn as_str(self) -> (r: &'static str)
        ensures
            r@ == (match self {
                MessageRole::User => "user"@,
                MessageRole::Assistant => "assistant"@,
            }),
    {
        proof {
            reveal_strlit("user");
            reveal_strlit("assistant");
        }
        match self {
            MessageRole::User => "user",
            MessageRole::Assistant => "assistant",
        }
    }
}

/// A write that recording an event makes to the side tables beside the
/// event log. Texts are those the event carries, as given: redacting
/// secrets from them is the writer's step, not this plan's.
#[derive(Debug)]
pub enum SideTableWrite {
    /// Inserts a message of the run.
    InsertMessage { run_id: u128, role: MessageRole, content: String, created_at_epoch_ms: u64 },
    /// Inserts a requested tool call, pending authorization, unless the call
    /// is already recorded.
    InsertToolCall { tool_call_id: u128, run_id: u128, tool_name: String, requested_seq: u64 },
    /// Marks a tool call as authorized without approval.
    MarkToolAutoAuthorized { tool_call_id: u128 },
    /// Marks a tool call as awaiting approval.
    MarkToolAwaitingApproval { tool_call_id: u128 },
    /// Marks a tool call as completed or failed.
    MarkToolFinished { tool_call_id: u128, success: bool },
    /// Inserts or replaces the result of a tool call.
    RecordToolResult { tool_call_id: u128, success: bool, error_code: Option<String>, completed_at_epoch_ms: u64 },
    /// Inserts an observation of the run, tied to its event.
    InsertObservation { run_id: u128, source_event_seq: u64, summary: String, created_at_epoch_ms: u64 },
}

/// Whether a failed write must fail the recording: inserts must succeed,
/// while marking an existing tool call is best effort.
pub open spec fn write_must_succeed(w: SideTableWrite) -> bool {
    match w {
        SideTableWrite::MarkToolAutoAuthorized { .. } => false,
        SideTableWrite::MarkToolAwaitingApproval { .. } => false,
        SideTableWrite::MarkToolFinished { .. } => false,
        _ => true,
    }
}

impl SideTableWrite {
    /// Whether a failure of this write must fail the recording.
    pub fn must_succeed(&self) -> (r: bool)
        ensures
            r == write_must_succeed(*self),
    {
        match self {
            SideTableWrite::MarkToolAutoAuthorized { .. } => false,
            SideTableWrite::MarkToolAwaitingApproval { .. } => false,
            SideTableWrite::MarkToolFinished { .. } => false,
            _ => true,
        }
    }
}

/// The side-table writes of an event: messages, tool calls with their
/// authorization, state and result, and observations are projected; every
/// other event writes nothing beside the log.
pub open spec fn side_table_writes_spec(e: AgentEventEnvelope) -> Seq<SideTableWrite> {
    match e.event {
        AgentEvent::UserMessageAdded { content } => seq![SideTableWrite::InsertMessage {
            run_id: e.run_id,
            role: MessageRole::User,
            content,
            created_at_epoch_ms: e.timestamp_epoch_ms,
        }],
        AgentEvent::AssistantMessageAdded { content } => seq![SideTableWrite::InsertMessage {
            run_id: e.run_id,
            role: MessageRole::Assistant,
            content,
            created_at_epoch_ms: e.timestamp_epoch_ms,
        }],
        AgentEvent::ToolRequested { tool_call_id, tool_name } => seq![SideTableWrite::InsertToolCall {
            tool_call_id,
            run_id: e.run_id,
            tool_name,
            requested_seq: e.seq,
        }],
        AgentEvent::ToolAutoAuthorized { tool_call_id } => seq![SideTableWrite::MarkToolAutoAuthorized { tool_call_id }],
        AgentEvent::ToolApprovalRequired { tool_call_id } => seq![SideTableWrite::MarkToolAwaitingApproval { tool_call_id }],
        AgentEvent::ToolCompleted { tool_call_id } => seq![
            SideTableWrite::MarkToolFinished { tool_call_id, success: true },
            SideTableWrite::RecordToolResult {
                tool_call_id,
                success: true,
                error_code: None,
                completed_at_epoch_ms: e.timestamp_epoch_ms,
            },
        ],
        AgentEvent::ToolFailed { tool_call_id, error_code } => seq![
            SideTableWrite::MarkToolFinished { tool_call_id, success: false },
            SideTableWrite::RecordToolResult {
                tool_call_id,
                success: false,
                error_code: Some(error_code),
                completed_at_epoch_ms: e.timestamp_epoch_ms,
            },
        ],
        AgentEvent::ObservationAdded { summary } => seq![SideTableWrite::InsertObservation {
            run_id: e.run_id,
            source_event_seq: e.seq,
            summary,
            created_at_epoch_ms: e.timestamp_epoch_ms,
        }],
        _ => Seq::empty(),
    }
}

/// The side-table writes that recording `envelope` makes, in order.
pub fn side_table_writes(envelope: &AgentEventEnvelope) -> (r: Vec<SideTableWrite>)
    ensures
        r@ == side_table_writes_spec(*envelope),
{
    let mut out: Vec<SideTableWrite> = Vec::new();
    match &envelope.event {
        AgentEvent::UserMessageAdded { content } => {
            out.push(SideTableWrite::InsertMessage {
                run_id: envelope.run_id,
                role: MessageRole::User,
                content: content.clone(),
                created_at_epoch_ms: envelope.timestamp_epoch_ms,
            });
        },
        AgentEvent::AssistantMessageAdded { content } => {
            out.push(SideTableWrite::InsertMessage {
                run_id: envelope.run_id,
                role: MessageRole::Assistant,
                content: content.clone(),
                created_at_epoch_ms: envelope.timestamp_epoch_ms,
            });
        },
        AgentEvent::ToolRequested { tool_call_id, tool_name } => {
            out.push(SideTableWrite::InsertToolCall {
                tool_call_id: *tool_call_id,
                run_id: envelope.run_id,
                tool_name: tool_name.clone(),
                requested_seq: envelope.seq,
            });
        },
        AgentEvent::ToolAutoAuthorized { tool_call_id } => {
            out.push(SideTableWrite::MarkToolAutoAuthorized { tool_call_id: *tool_call_id });
        },
        AgentEvent::ToolApprovalRequired { tool_call_id } => {
            out.push(SideTableWrite::MarkToolAwaitingApproval { tool_call_id: *tool_call_id });
        },
        AgentEvent::ToolCompleted { tool_call_id } => {
            out.push(SideTableWrite::MarkToolFinished { tool_call_id: *tool_call_id, success: true });
            out.push(SideTableWrite::RecordToolResult {
                tool_call_id: *tool_call_id,
                success: true,
                error_code: None,
                completed_at_epoch_ms: envelope.timestamp_epoch_ms,
            });
        },
        AgentEvent::ToolFailed { tool_call_id, error_code } => {
            out.push(SideTableWrite::MarkToolFinished { tool_call_id: *tool_call_id, success: false });
            out.push(SideTableWrite::RecordToolResult {
                tool_call_id: *tool_call_id,
                success: false,
                error_code: Some(error_code.clone()),
                completed_at_epoch_ms: envelope.timestamp_epoch_ms,
            });
        },
        AgentEvent::ObservationAdded { summary } => {
            out.push(SideTableWrite::InsertObservation {
                run_id: envelope.run_id,
                source_event_seq: envelope.seq,
                summary: summary.clone(),
                created_at_epoch_ms: envelope.timestamp_epoch_ms,
            });
        },
        _ => {},
    }
    proof {
        assert(out@ =~= side_table_writes_spec(*envelope));
    }
    out
}


/// The identifier a text spells as a UUID, in any form that
/// `uuid::Uuid::parse_str` accepts, or `None`.
pub uninterp spec fn uuid_from_text(text: Seq<char>) -> Option<u128>;

/// Parses the text of a UUID.
///
/// Calls `uuid::Uuid::parse_str` and takes the 128-bit value. The contract
/// names the result as a function of the text alone.
#[verifier::external_body]
fn parse_uuid_text(text: &str) -> (r: Option<u128>)
    ensures
        r == uuid_from_text(text@),
{
    uuid::Uuid::parse_str(text).ok().map(|id| id.as_u128())
}

/// The stored text of an identifier.
///
/// Calls `to_string` on `uuid::Uuid::from_u128(id)`. The contract states what
/// the crate documents of it: the hyphenated lower-case hexadecimal form,
/// which `Uuid::parse_str` reads back as the same identifier.
#[verifier::external_body]
pub(crate) fn uuid_to_text(id: u128) -> (r: String)
    ensures
        r@ == uuid_text(id),
        r@.len() == 36,
        uuid_from_text(r@) == Some(id),
{
    uuid::Uuid::from_u128(id).to_string()
}

/// Reads a stored identifier; a text that is not a UUID is corrupt storage.
pub fn parse_stored_id(text: &str) -> (r: Result<u128, AgentStoreError>)
    ensures
        match uuid_from_text(text@) {
            Some(id) => r == Ok::<u128, AgentStoreError>(id),
            None => r == Err::<u128, AgentStoreError>(AgentStoreError::StoreCorrupt),
        },
{
    match parse_uuid_text(text) {
        Some(id) => Ok(id),
        None => Err(AgentStoreError::StoreCorrupt),
    }
}

/// The stored text of an identifier.
pub fn stored_id_text(id: u128) -> (r: String)
    ensures
        r@ == uuid_text(id),
        uuid_from_text(r@) == Some(id),
{
    uuid_to_text(id)
}

/// The stored columns of a run.
#[derive(Debug)]
pub struct RunRow {
    pub id: String,
    pub state: String,
    pub created_at: i64,
    pub updated_at: i64,
    pub next_event_seq: i64,
}

/// The run a row holds: identifier and state must parse, and the integer
/// columns are taken as stored (`as u64`); a row that does not parse is
/// corrupt storage.
pub open spec fn run_from_row_spec(row: RunRow) -> Option<RunView> {
    match (uuid_from_text(row.id@), state_from_name(row.state@)) {
        (Some(id), Some(state)) => Some(RunView {
            id,
            state,
            created_at_epoch_ms: row.created_at as u64,
            updated_at_epoch_ms: row.updated_at as u64,
            next_event_seq: if row.next_event_seq as u64 == 0 { 1 } else { row.next_event_seq as u64 },
        }),
        _ => None,
    }
}

/// Rebuilds a run from its stored row.
pub fn run_from_row(row: &RunRow) -> (r: Result<AgentRun, AgentStoreError>)
    ensures
        match run_from_row_spec(*row) {
            Some(v) => r is Ok && r->Ok_0@ == v,
            None => r == Err::<AgentRun, AgentStoreError>(AgentStoreError::StoreCorrupt),
        },
{
    let id = match parse_stored_id(row.id.as_str()) {
        Ok(id) => id,
        Err(e) => return Err(e),
    };
    let state = match parse_state(row.state.as_str()) {
        Ok(s) => s,
        Err(e) => return Err(e),
    };
    Ok(AgentRun::from_persisted(id, state, row.created_at as u64, row.updated_at as u64, row.next_event_seq as u64))
}

/// The row a run is stored as: its identifier's text, its state's name and
/// its integers as stored (`as i64`).
pub fn run_row(run: &AgentRun) -> (r: RunRow)
    ensures
        r.id@ == uuid_text(run@.id),
        r.state@ == state_name_spec(run@.state)@,
        r.created_at == run@.created_at_epoch_ms as i64,
        r.updated_at == run@.updated_at_epoch_ms as i64,
        r.next_event_seq == run@.next_event_seq as i64,
{
    RunRow {
        id: stored_id_text(run.id()),
        state: state_name(run.state()).to_owned(),
        created_at: run.created_at_epoch_ms() as i64,
        updated_at: run.updated_at_epoch_ms() as i64,
        next_event_seq: run.peek_next_event_seq() as i64,
    }
}

/// What a run store reads back is what it wrote: a run whose sequence
/// counter is at least one is rebuilt exactly from its row.
pub proof fn lemma_run_row_round_trip(v: RunView, row: RunRow)
    requires
        v.next_event_seq >= 1,
        row.id@ == uuid_text(v.id),
        uuid_from_text(uuid_text(v.id)) == Some(v.id),
        row.state@ == state_name_spec(v.state)@,
        row.created_at == v.created_at_epoch_ms as i64,
        row.updated_at == v.updated_at_epoch_ms as i64,
        row.next_event_seq == v.next_event_seq as i64,
    ensures
        run_from_row_spec(row) == Some(v),
{
    lemma_state_names_round_trip(v.state);
    let a = v.created_at_epoch_ms;
    let b = v.updated_at_epoch_ms;
    let c = v.next_event_seq;
    assert((a as i64) as u64 == a) by (bit_vector);
    assert((b as i64) as u64 == b) by (bit_vector);
    assert((c as i64) as u64 == c) by (bit_vector);
}


/// The identifiers a JSON array of UUID texts holds, as `serde_json` reads a
/// `Vec<uuid::Uuid>`, or `None`.
pub uninterp spec fn id_list_from_json(text: Seq<char>) -> Option<Seq<u128>>;

/// The items of a JSON array of UUID texts: each identifier quoted in its
/// hyphenated form, separated by commas.
pub open spec fn id_list_items(ids: Seq<u128>) -> Seq<char>
    decreases ids.len(),
{
    if ids.len() == 0 {
        Seq::empty()
    } else if ids.len() == 1 {
        "\""@ + uuid_text(ids[0]) + "\""@
    } else {
        id_list_items(ids.drop_last()) + ","@ + "\""@ + uuid_text(ids.last()) + "\""@
    }
}

/// The JSON text `serde_json` writes for a `Vec<uuid::Uuid>`: the quoted
/// hyphenated identifiers between brackets, separated by commas, with no
/// spaces.
pub open spec fn id_list_json(ids: Seq<u128>) -> Seq<char> {
    "["@ + id_list_items(ids) + "]"@
}

/// Reads a JSON array of identifiers.
///
/// Calls `serde_json::from_str::<Vec<uuid::Uuid>>` and takes the 128-bit
/// values. The contract names the result as a function of the text alone.
#[verifier::external_body]
fn parse_id_list(text: &str) -> (r: Option<Vec<u128>>)
    ensures
        match id_list_from_json(text@) {
            Some(ids) => r is Some && r->0@ == ids,
            None => r is None,
        },
{
    serde_json::from_str::<Vec<uuid::Uuid>>(text).ok().map(|ids| ids.iter().map(|id| id.as_u128()).collect())
}

/// Writes a JSON array of identifiers.
///
/// Calls `serde_json::to_string` on the identifiers as `Vec<uuid::Uuid>`.
/// The contract names the text as a function of the identifiers and states
/// that `serde_json` reads it back as the same identifiers. It also states
/// that the call succeeds: `serde_json` documents that serialization fails
/// only when a `Serialize` impl decides to fail or a map has non-string
/// keys, and its source writes into a `Vec<u8>`, which never fails; `Uuid`
/// serializes itself as a string and never fails, and a list holds no map.
#[verifier::external_body]
fn id_list_to_json(ids: &[u128]) -> (r: Option<String>)
    ensures
        r is Some,
        r matches Some(t) ==> t@ == id_list_json(ids@) && id_list_from_json(t@) == Some(ids@),
{
    let ids: Vec<uuid::Uuid> = ids.iter().map(|id| uuid::Uuid::from_u128(*id)).collect();
    serde_json::to_string(&ids).ok()
}

/// Reads a stored JSON list of identifiers; a malformed list is corrupt
/// storage.
pub fn parse_stored_id_list(text: &str) -> (r: Result<Vec<u128>, AgentStoreError>)
    ensures
        match id_list_from_json(text@) {
            Some(ids) => r is Ok && r->Ok_0@ == ids,
            None => r == Err::<Vec<u128>, AgentStoreError>(AgentStoreError::StoreCorrupt),
        },
{
    match parse_id_list(text) {
        Some(ids) => Ok(ids),
        None => Err(AgentStoreError::StoreCorrupt),
    }
}

/// Writes a list of identifiers as stored JSON; a failure of the writer would
/// be a persistence failure, and the writer does not fail.
pub fn stored_id_list_text(ids: &[u128]) -> (r: Result<String, AgentStoreError>)
    ensures
        r is Ok,
        r matches Ok(t) ==> t@ == id_list_json(ids@) && id_list_from_json(t@) == Some(ids@),
        r matches Err(e) ==> e == AgentStoreError::PersistenceFailed,
{
    match id_list_to_json(ids) {
        Some(t) => Ok(t),
        None => Err(AgentStoreError::PersistenceFailed),
    }
}

/// The stored columns of an approval request.
#[derive(Debug)]
pub struct ApprovalRow {
    pub id: String,
    pub run_id: String,
    pub tool_call_id: String,
    pub tool_name: String,
    pub arguments_hash: String,
    pub target_ids: String,
    pub risk: String,
    pub policy_version: i64,
    pub policy_hash: String,
    pub precondition_ref: Option<String>,
    pub change_set_id: Option<String>,
    pub change_set_version: Option<i64>,
    pub state: String,
    pub created_at: i64,
    pub decided_at: Option<i64>,
}

/// Every column of an approval row that must parse does: the identifiers,
/// the optional change set, the target list and the state.
pub open spec fn approval_row_parses(row: ApprovalRow) -> bool {
    &&& uuid_from_text(row.id@) is Some
    &&& uuid_from_text(row.run_id@) is Some
    &&& uuid_from_text(row.tool_call_id@) is Some
    &&& id_list_from_json(row.target_ids@) is Some
    &&& (row.change_set_id matches Some(c) ==> uuid_from_text(c@) is Some)
    &&& approval_state_from_name(row.state@) is Some
}

/// The approval a parsing row holds: the texts as stored, the identifiers
/// parsed and the integers taken as stored (`as u64`).
pub open spec fn approval_from_row_holds(row: ApprovalRow, a: ApprovalRequest) -> bool {
    &&& Some(a.id) == uuid_from_text(row.id@)
    &&& Some(a.run_id) == uuid_from_text(row.run_id@)
    &&& Some(a.tool_call_id) == uuid_from_text(row.tool_call_id@)
    &&& a.tool_name == row.tool_name
    &&& a.arguments_hash == row.arguments_hash
    &&& Some(a.target_ids@) == id_list_from_json(row.target_ids@)
    &&& a.risk == row.risk
    &&& a.policy_version == row.policy_version as u64
    &&& a.policy_hash == row.policy_hash
    &&& a.precondition_ref == row.precondition_ref
    &&& a.change_set_id == (match row.change_set_id {
        Some(c) => uuid_from_text(c@),
        None => None,
    })
    &&& a.change_set_version == (match row.change_set_version {
        Some(v) => Some(v as u64),
        None => None,
    })
    &&& Some(a.state) == approval_state_from_name(row.state@)
    &&& a.created_at_epoch_ms == row.created_at as u64
    &&& a.decided_at_epoch_ms == (match row.decided_at {
        Some(v) => Some(v as u64),
        None => None,
    })
}

/// Rebuilds an approval request from its stored row; a row that does not
/// parse is corrupt storage.
pub fn approval_from_row(row: ApprovalRow) -> (r: Result<ApprovalRequest, AgentStoreError>)
    ensures
        approval_row_parses(row) ==> r is Ok && approval_from_row_holds(row, r->Ok_0),
        !approval_row_parses(row) ==> r == Err::<ApprovalRequest, AgentStoreError>(AgentStoreError::StoreCorrupt),
{
    let ghost g = row;
    let target_ids = match parse_stored_id_list(row.target_ids.as_str()) {
        Ok(ids) => ids,
        Err(e) => return Err(e),
    };
    let id = match parse_stored_id(row.id.as_str()) {
        Ok(v) => v,
        Err(e) => return Err(e),
    };
    let run_id = match parse_stored_id(row.run_id.as_str()) {
        Ok(v) => v,
        Err(e) => return Err(e),
    };
    let tool_call_id = match parse_stored_id(row.tool_call_id.as_str()) {
        Ok(v) => v,
        Err(e) => return Err(e),
    };
    let change_set_id = match &row.change_set_id {
        Some(c) => match parse_stored_id(c.as_str()) {
            Ok(v) => Some(v),
            Err(e) => return Err(e),
        },
        None => None,
    };
    let state = match parse_approval_state(row.state.as_str()) {
        Ok(s) => s,
        Err(e) => return Err(e),
    };
    let change_set_version = match row.change_set_version {
        Some(v) => Some(v as u64),
        None => None,
    };
    let decided_at_epoch_ms = match row.decided_at {
        Some(v) => Some(v as u64),
        None => None,
    };
    let ApprovalRow { tool_name, arguments_hash, risk, policy_hash, precondition_ref, policy_version, created_at, .. } = row;
    Ok(ApprovalRequest {
        id,
        run_id,
        tool_call_id,
        tool_name,
        arguments_hash,
        target_ids,
        risk,
        policy_version: policy_version as u64,
        policy_hash,
        precondition_ref,
        change_set_id,
        change_set_version,
        state,
        created_at_epoch_ms: created_at as u64,
        decided_at_epoch_ms,
    })
}

/// The row an approval request is stored as. Every approval has one: the
/// target list is always written.
pub fn approval_row(a: &ApprovalRequest) -> (r: Option<ApprovalRow>)
    ensures
        r is Some,
        r matches Some(row) ==> {
            &&& row.id@ == uuid_text(a.id)
            &&& row.run_id@ == uuid_text(a.run_id)
            &&& row.tool_call_id@ == uuid_text(a.tool_call_id)
            &&& row.tool_name == a.tool_name
            &&& row.arguments_hash == a.arguments_hash
            &&& row.target_ids@ == id_list_json(a.target_ids@)
            &&& row.risk == a.risk
            &&& row.policy_version == a.policy_version as i64
            &&& row.policy_hash == a.policy_hash
            &&& row.precondition_ref == a.precondition_ref
            &&& (match a.change_set_id {
                Some(c) => row.change_set_id matches Some(t) && t@ == uuid_text(c),
                None => row.change_set_id is None,
            })
            &&& row.change_set_version == (match a.change_set_version {
                Some(v) => Some(v as i64),
                None => None,
            })
            &&& row.state@ == approval_state_name_spec(a.state)@
            &&& row.created_at == a.created_at_epoch_ms as i64
            &&& row.decided_at == (match a.decided_at_epoch_ms {
                Some(v) => Some(v as i64),
                None => None,
            })
            &&& approval_row_parses(row)
            &&& approval_from_row_holds(row, *a)
        },
{
    let targets = match stored_id_list_text(a.target_ids.as_slice()) {
        Ok(t) => t,
        Err(_) => return None,
    };
    let change_set_id = match a.change_set_id {
        Some(c) => Some(stored_id_text(c)),
        None => None,
    };
    let row = ApprovalRow {
        id: stored_id_text(a.id),
        run_id: stored_id_text(a.run_id),
        tool_call_id: stored_id_text(a.tool_call_id),
        tool_name: a.tool_name.clone(),
        arguments_hash: a.arguments_hash.clone(),
        target_ids: targets,
        risk: a.risk.clone(),
        policy_version: a.policy_version as i64,
        policy_hash: a.policy_hash.clone(),
        precondition_ref: match &a.precondition_ref {
            Some(p) => Some(p.clone()),
            None => None,
        },
        change_set_id,
        change_set_version: match a.change_set_version {
            Some(v) => Some(v as i64),
            None => None,
        },
        state: approval_state_name(a.state).to_owned(),
        created_at: a.created_at_epoch_ms as i64,
        decided_at: match a.decided_at_epoch_ms {
            Some(v) => Some(v as i64),
            None => None,
        },
    };
    proof {
        lemma_approval_state_names_round_trip(a.state);
        let pv = a.policy_version;
        let ca = a.created_at_epoch_ms;
        assert((pv as i64) as u64 == pv) by (bit_vector);
        assert((ca as i64) as u64 == ca) by (bit_vector);
        if let Some(v) = a.change_set_version {
            assert((v as i64) as u64 == v) by (bit_vector);
        }
        if let Some(v) = a.decided_at_epoch_ms {
            assert((v as i64) as u64 == v) by (bit_vector);
        }
    }
    Some(row)
}

/// What an approval store reads back is what it wrote: two approvals that
/// the same stored row holds are copies of each other, so the approval read
/// from the row written for `a` is a copy of `a`.
pub proof fn lemma_approval_row_round_trip(row: ApprovalRow, a: ApprovalRequest, b: ApprovalRequest)
    requires
        approval_from_row_holds(row, a),
        approval_from_row_holds(row, b),
    ensures
        approval_copy(a, b),
{
    assert(b == (ApprovalRequest { target_ids: b.target_ids, ..a }));
}

} // verus!
