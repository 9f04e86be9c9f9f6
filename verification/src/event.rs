//! The run's event contract: a closed, typed set of events, each with a
//! stable snake_case type name, and the ordered envelope that carries one
//! event of one run under its sequence number.
use vstd::prelude::*;

verus! {

/// Every event a run can emit. Payloads are user-visible summaries and
/// identifiers only: never secrets and never private model reasoning.
#[derive(Debug)]
pub enum AgentEvent {
    RunCreated,
    RunStarted,
    RunResumed,
    RunPaused,
    RunCancelled,
    RunCompleted,
    RunFailed { error_code: String },
    UserMessageAdded { content: String },
    AssistantMessageAdded { content: String },
    ReasoningStarted,
    ProgressUpdated { summary: String },
    ToolRequested { tool_call_id: u128, tool_name: String },
    ToolAutoAuthorized { tool_call_id: u128 },
    ToolApprovalRequired { tool_call_id: u128 },
    ToolStarted { tool_call_id: u128 },
    ToolOutputChunk { tool_call_id: u128, chunk: String },
    ToolCompleted { tool_call_id: u128 },
    ToolFailed { tool_call_id: u128, error_code: String },
    CommandProposed { command_id: u128, command: String, reason: String, risk: String, mutability: String },
    CommandApprovalRequired { approval_id: u128, command_id: u128 },
    CommandStarted { command_id: u128 },
    CommandCompleted { command_id: u128, exit_code: Option<u32>, output_preview: String, duration_ms: u64 },
    CommandFailed { command_id: u128, exit_code: Option<u32>, output_preview: String, error_code: String, duration_ms: u64 },
    CommandAnalysisUpdated { command_id: u128, summary: String },
    ObservationAdded { summary: String },
    FactsUpdated { fact_keys: Vec<String> },
    UserInputRequired { question: String },
    UserInputReceived,
    ApprovalGranted { approval_id: u128 },
    ApprovalRejected { approval_id: u128 },
    ApprovalInvalidated { approval_id: u128, reason_code: String },
    DiagnosisUpdated { summary: String },
    RootCauseIdentified { summary: String },
    ChangeSetProposed { change_set_id: u128 },
    ChangeSetApproved { change_set_id: u128, version: u64 },
    ChangeSetExecutionStarted { change_set_id: u128 },
    ChangeSetExecutionCompleted { change_set_id: u128, success: bool },
    VerificationStarted,
    VerificationCompleted { success: bool },
    RollbackStarted,
    RollbackCompleted { success: bool },
}

/// The stable type name of an event.
pub open spec fn event_type_name(e: AgentEvent) -> &'static str {
    match e {
        AgentEvent::RunCreated => "run_created",
        AgentEvent::RunStarted => "run_started",
        AgentEvent::RunResumed => "run_resumed",
        AgentEvent::RunPaused => "run_paused",
        AgentEvent::RunCancelled => "run_cancelled",
        AgentEvent::RunCompleted => "run_completed",
        AgentEvent::RunFailed { .. } => "run_failed",
        AgentEvent::UserMessageAdded { .. } => "user_message_added",
        AgentEvent::AssistantMessageAdded { .. } => "assistant_message_added",
        AgentEvent::ReasoningStarted => "reasoning_started",
        AgentEvent::ProgressUpdated { .. } => "progress_updated",
        AgentEvent::ToolRequested { .. } => "tool_requested",
        AgentEvent::ToolAutoAuthorized { .. } => "tool_auto_authorized",
        AgentEvent::ToolApprovalRequired { .. } => "tool_approval_required",
        AgentEvent::ToolStarted { .. } => "tool_started",
        AgentEvent::ToolOutputChunk { .. } => "tool_output_chunk",
        AgentEvent::ToolCompleted { .. } => "tool_completed",
        AgentEvent::ToolFailed { .. } => "tool_failed",
        AgentEvent::CommandProposed { .. } => "command_proposed",
        AgentEvent::CommandApprovalRequired { .. } => "command_approval_required",
        AgentEvent::CommandStarted { .. } => "command_started",
        AgentEvent::CommandCompleted { .. } => "command_completed",
        AgentEvent::CommandFailed { .. } => "command_failed",
        AgentEvent::CommandAnalysisUpdated { .. } => "command_analysis_updated",
        AgentEvent::ObservationAdded { .. } => "observation_added",
        AgentEvent::FactsUpdated { .. } => "facts_updated",
        AgentEvent::UserInputRequired { .. } => "user_input_required",
        AgentEvent::UserInputReceived => "user_input_received",
        AgentEvent::ApprovalGranted { .. } => "approval_granted",
        AgentEvent::ApprovalRejected { .. } => "approval_rejected",
        AgentEvent::ApprovalInvalidated { .. } => "approval_invalidated",
        AgentEvent::DiagnosisUpdated { .. } => "diagnosis_updated",
        AgentEvent::RootCauseIdentified { .. } => "root_cause_identified",
        AgentEvent::ChangeSetProposed { .. } => "change_set_proposed",
        AgentEvent::ChangeSetApproved { .. } => "change_set_approved",
        AgentEvent::ChangeSetExecutionStarted { .. } => "change_set_execution_started",
        AgentEvent::ChangeSetExecutionCompleted { .. } => "change_set_execution_completed",
        AgentEvent::VerificationStarted => "verification_started",
        AgentEvent::VerificationCompleted { .. } => "verification_completed",
        AgentEvent::RollbackStarted => "rollback_started",
        AgentEvent::RollbackCompleted { .. } => "rollback_completed",
    }
}

impl AgentEvent {
    /// Stable snake_case event type name.
    pub fn event_type(&self) -> (r: &'static str)
        ensures
            r == event_type_name(*self),
    {
        match self {
            AgentEvent::RunCreated => "run_created",
            AgentEvent::RunStarted => "run_started",
            AgentEvent::RunResumed => "run_resumed",
            AgentEvent::RunPaused => "run_paused",
            AgentEvent::RunCancelled => "run_cancelled",
            AgentEvent::RunCompleted => "run_completed",
            AgentEvent::RunFailed { .. } => "run_failed",
            AgentEvent::UserMessageAdded { .. } => "user_message_added",
            AgentEvent::AssistantMessageAdded { .. } => "assistant_message_added",
            AgentEvent::ReasoningStarted => "reasoning_started",
            AgentEvent::ProgressUpdated { .. } => "progress_updated",
            AgentEvent::ToolRequested { .. } => "tool_requested",
            AgentEvent::ToolAutoAuthorized { .. } => "tool_auto_authorized",
            AgentEvent::ToolApprovalRequired { .. } => "tool_approval_required",
            AgentEvent::ToolStarted { .. } => "tool_started",
            AgentEvent::ToolOutputChunk { .. } => "tool_output_chunk",
            AgentEvent::ToolCompleted { .. } => "tool_completed",
            AgentEvent::ToolFailed { .. } => "tool_failed",
            AgentEvent::CommandProposed { .. } => "command_proposed",
            AgentEvent::CommandApprovalRequired { .. } => "command_approval_required",
            AgentEvent::CommandStarted { .. } => "command_started",
            AgentEvent::CommandCompleted { .. } => "command_completed",
            AgentEvent::CommandFailed { .. } => "command_failed",
            AgentEvent::CommandAnalysisUpdated { .. } => "command_analysis_updated",
            AgentEvent::ObservationAdded { .. } => "observation_added",
            AgentEvent::FactsUpdated { .. } => "facts_updated",
            AgentEvent::UserInputRequired { .. } => "user_input_required",
            AgentEvent::UserInputReceived => "user_input_received",
            AgentEvent::ApprovalGranted { .. } => "approval_granted",
            AgentEvent::ApprovalRejected { .. } => "approval_rejected",
            AgentEvent::ApprovalInvalidated { .. } => "approval_invalidated",
            AgentEvent::DiagnosisUpdated { .. } => "diagnosis_updated",
            AgentEvent::RootCauseIdentified { .. } => "root_cause_identified",
            AgentEvent::ChangeSetProposed { .. } => "change_set_proposed",
            AgentEvent::ChangeSetApproved { .. } => "change_set_approved",
            AgentEvent::ChangeSetExecutionStarted { .. } => "change_set_execution_started",
            AgentEvent::ChangeSetExecutionCompleted { .. } => "change_set_execution_completed",
            AgentEvent::VerificationStarted => "verification_started",
            AgentEvent::VerificationCompleted { .. } => "verification_completed",
            AgentEvent::RollbackStarted => "rollback_started",
            AgentEvent::RollbackCompleted { .. } => "rollback_completed",
        }
    }
}

/// A copy of a list of strings.
fn copy_strings(v: &Vec<String>) -> (r: Vec<String>)
    ensures
        r@ == v@,
{
    let mut r: Vec<String> = Vec::new();
    let mut i: usize = 0;
    while i < v.len()
        invariant
            i <= v.len(),
            r@ == v@.subrange(0, i as int),
        decreases v.len() - i,
    {
        r.push(v[i].clone());
        i = i + 1;
    }
    r
}

/// `b` is a copy of `a`: the same event, with a list of fact keys compared
/// by its contents.
pub open spec fn event_copy(a: AgentEvent, b: AgentEvent) -> bool {
    match (a, b) {
        (AgentEvent::FactsUpdated { fact_keys: x }, AgentEvent::FactsUpdated { fact_keys: y }) => x@ == y@,
        _ => a == b,
    }
}

/// `b` is a copy of the envelope `a`.
pub open spec fn envelope_copy(a: AgentEventEnvelope, b: AgentEventEnvelope) -> bool {
    &&& a.run_id == b.run_id
    &&& a.seq == b.seq
    &&& a.timestamp_epoch_ms == b.timestamp_epoch_ms
    &&& event_copy(a.event, b.event)
}

impl Clone for AgentEvent {
    fn clone(&self) -> (r: AgentEvent)
        ensures
            event_copy(*self, r),
    {
        match self {
            AgentEvent::RunCreated => AgentEvent::RunCreated,
            AgentEvent::RunStarted => AgentEvent::RunStarted,
            AgentEvent::RunResumed => AgentEvent::RunResumed,
            AgentEvent::RunPaused => AgentEvent::RunPaused,
            AgentEvent::RunCancelled => AgentEvent::RunCancelled,
            AgentEvent::RunCompleted => AgentEvent::RunCompleted,
            AgentEvent::RunFailed { error_code } => AgentEvent::RunFailed { error_code: error_code.clone() },
            AgentEvent::UserMessageAdded { content } => AgentEvent::UserMessageAdded { content: content.clone() },
            AgentEvent::AssistantMessageAdded { content } => AgentEvent::AssistantMessageAdded { content: content.clone() },
            AgentEvent::ReasoningStarted => AgentEvent::ReasoningStarted,
            AgentEvent::ProgressUpdated { summary } => AgentEvent::ProgressUpdated { summary: summary.clone() },
            AgentEvent::ToolRequested { tool_call_id, tool_name } => AgentEvent::ToolRequested { tool_call_id: *tool_call_id, tool_name: tool_name.clone() },
            AgentEvent::ToolAutoAuthorized { tool_call_id } => AgentEvent::ToolAutoAuthorized { tool_call_id: *tool_call_id },
            AgentEvent::ToolApprovalRequired { tool_call_id } => AgentEvent::ToolApprovalRequired { tool_call_id: *tool_call_id },
            AgentEvent::ToolStarted { tool_call_id } => AgentEvent::ToolStarted { tool_call_id: *tool_call_id },
            AgentEvent::ToolOutputChunk { tool_call_id, chunk } => AgentEvent::ToolOutputChunk { tool_call_id: *tool_call_id, chunk: chunk.clone() },
            AgentEvent::ToolCompleted { tool_call_id } => AgentEvent::ToolCompleted { tool_call_id: *tool_call_id },
            AgentEvent::ToolFailed { tool_call_id, error_code } => AgentEvent::ToolFailed { tool_call_id: *tool_call_id, error_code: error_code.clone() },
            AgentEvent::CommandProposed { command_id, command, reason, risk, mutability } => AgentEvent::CommandProposed { command_id: *command_id, command: command.clone(), reason: reason.clone(), risk: risk.clone(), mutability: mutability.clone() },
            AgentEvent::CommandApprovalRequired { approval_id, command_id } => AgentEvent::CommandApprovalRequired { approval_id: *approval_id, command_id: *command_id },
            AgentEvent::CommandStarted { command_id } => AgentEvent::CommandStarted { command_id: *command_id },
            AgentEvent::CommandCompleted { command_id, exit_code, output_preview, duration_ms } => AgentEvent::CommandCompleted { command_id: *command_id, exit_code: *exit_code, output_preview: output_preview.clone(), duration_ms: *duration_ms },
            AgentEvent::CommandFailed { command_id, exit_code, output_preview, error_code, duration_ms } => AgentEvent::CommandFailed { command_id: *command_id, exit_code: *exit_code, output_preview: output_preview.clone(), error_code: error_code.clone(), duration_ms: *duration_ms },
            AgentEvent::CommandAnalysisUpdated { command_id, summary } => AgentEvent::CommandAnalysisUpdated { command_id: *command_id, summary: summary.clone() },
            AgentEvent::ObservationAdded { summary } => AgentEvent::ObservationAdded { summary: summary.clone() },
            AgentEvent::FactsUpdated { fact_keys } => AgentEvent::FactsUpdated { fact_keys: copy_strings(fact_keys) },
            AgentEvent::UserInputRequired { question } => AgentEvent::UserInputRequired { question: question.clone() },
            AgentEvent::UserInputReceived => AgentEvent::UserInputReceived,
            AgentEvent::ApprovalGranted { approval_id } => AgentEvent::ApprovalGranted { approval_id: *approval_id },
            AgentEvent::ApprovalRejected { approval_id } => AgentEvent::ApprovalRejected { approval_id: *approval_id },
            AgentEvent::ApprovalInvalidated { approval_id, reason_code } => AgentEvent::ApprovalInvalidated { approval_id: *approval_id, reason_code: reason_code.clone() },
            AgentEvent::DiagnosisUpdated { summary } => AgentEvent::DiagnosisUpdated { summary: summary.clone() },
            AgentEvent::RootCauseIdentified { summary } => AgentEvent::RootCauseIdentified { summary: summary.clone() },
            AgentEvent::ChangeSetProposed { change_set_id } => AgentEvent::ChangeSetProposed { change_set_id: *change_set_id },
            AgentEvent::ChangeSetApproved { change_set_id, version } => AgentEvent::ChangeSetApproved { change_set_id: *change_set_id, version: *version },
            AgentEvent::ChangeSetExecutionStarted { change_set_id } => AgentEvent::ChangeSetExecutionStarted { change_set_id: *change_set_id },
            AgentEvent::ChangeSetExecutionCompleted { change_set_id, success } => AgentEvent::ChangeSetExecutionCompleted { change_set_id: *change_set_id, success: *success },
            AgentEvent::VerificationStarted => AgentEvent::VerificationStarted,
            AgentEvent::VerificationCompleted { success } => AgentEvent::VerificationCompleted { success: *success },
            AgentEvent::RollbackStarted => AgentEvent::RollbackStarted,
            AgentEvent::RollbackCompleted { success } => AgentEvent::RollbackCompleted { success: *success },
        }
    }
}

/// One event of one run. `seq` is the ordering key for replay and streaming;
/// the wall-clock timestamp is never used for ordering.
#[derive(Debug)]
pub struct AgentEventEnvelope {
    pub run_id: u128,
    pub seq: u64,
    pub timestamp_epoch_ms: u64,
    pub event: AgentEvent,
}

impl Clone for AgentEventEnvelope {
    fn clone(&self) -> (r: AgentEventEnvelope)
        ensures
            envelope_copy(*self, r),
    {
        AgentEventEnvelope {
            run_id: self.run_id,
            seq: self.seq,
            timestamp_epoch_ms: self.timestamp_epoch_ms,
            event: self.event.clone(),
        }
    }
}

} // verus!
