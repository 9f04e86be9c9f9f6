//! Deterministic decisions of the reasoning loop: run budgets, the stable
//! failure codes, the controller's errors, and the choice of the next step
//! for each round. The loop itself (calling the reasoner, dispatching tools,
//! persisting events) runs around these decisions.
use vstd::prelude::*;
use crate::approval::ApprovalRequest;
use crate::command::CommandOutcome;
use crate::decision::{
    decision_error_message, CommandMutability, DecisionError, PreparedCommandProposal, PreparedToolCall,
    AGENT_DECISION_INVALID,
};
use crate::encoding::{decimal, decimal_text, uuid_text};
use crate::event::AgentEvent;
use crate::fleet_digest::push_str;
use crate::persistence::uuid_to_text;
use crate::reasoner::Observation;
use crate::repository::{store_error_code, AgentStoreError, AGENT_APPROVAL_NOT_FOUND};
use crate::state::{AgentStateError, AGENT_INVALID_TRANSITION};
use crate::text::{byte_len, string_from_chars, trim, trimmed_chars};
use vstd::std_specs::convert::FromSpecImpl;

verus! {

pub const AGENT_BUDGET_EXCEEDED: &'static str = "AGENT_BUDGET_EXCEEDED";
pub const AGENT_TIME_BUDGET_EXCEEDED: &'static str = "AGENT_TIME_BUDGET_EXCEEDED";
pub const AGENT_GOAL_INVALID: &'static str = "AGENT_GOAL_INVALID";
pub const AGENT_NOT_AWAITING_USER: &'static str = "AGENT_NOT_AWAITING_USER";
pub const AGENT_NOT_AWAITING_APPROVAL: &'static str = "AGENT_NOT_AWAITING_APPROVAL";
pub const AGENT_INVALID_USER_INPUT: &'static str = "AGENT_INVALID_USER_INPUT";
pub const AGENT_SESSION_REQUIRED: &'static str = "AGENT_SESSION_REQUIRED";
pub const AGENT_ALREADY_TERMINAL: &'static str = "AGENT_ALREADY_TERMINAL";

/// Most characters of command output shown on a command card.
pub const COMMAND_EVENT_PREVIEW_CHARS: usize = 8192;

/// Budgets for one run: limits of the runtime that the reasoner sees but
/// cannot change.
#[derive(Clone, Copy, Debug, PartialEq, Eq, Structural)]
pub struct RunBudget {
    pub max_reasoner_rounds: u32,
    pub max_tool_calls: u32,
    pub time_budget_ms: u64,
}

impl Default for RunBudget {
    /// Fifty rounds, twenty tool calls, five minutes.
    fn default() -> (r: RunBudget)
        ensures
            r == (RunBudget { max_reasoner_rounds: 50, max_tool_calls: 20, time_budget_ms: 300_000 }),
    {
        RunBudget { max_reasoner_rounds: 50, max_tool_calls: 20, time_budget_ms: 300_000 }
    }
}

/// How a drive of the loop ended: terminal, or parked in a durable interrupt.
#[derive(Debug)]
pub enum RunOutcome {
    Completed { summary: String },
    AwaitingUser { question: String },
    AwaitingApproval { approval_id: u128, tool_call_id: u128 },
    Cancelled,
    Failed { error_code: &'static str },
}

/// Infrastructure error of the controller (store or state machine), as
/// opposed to a run failure, which is a legitimate outcome.
#[derive(Clone, Copy, Debug, PartialEq, Eq, Structural)]
pub enum AgentControllerError {
    Store(AgentStoreError),
    State(AgentStateError),
    InvalidGoal,
    MissingSession,
    NotAwaitingUser,
    NotAwaitingApproval,
    InvalidUserInput,
    ApprovalNotFound,
    AlreadyTerminal,
}

/// The stable code of each controller error.
pub open spec fn controller_error_code(e: AgentControllerError) -> Seq<char> {
    match e {
        AgentControllerError::Store(s) => store_error_code(s)@,
        AgentControllerError::State(_) => AGENT_INVALID_TRANSITION@,
        AgentControllerError::InvalidGoal => AGENT_GOAL_INVALID@,
        AgentControllerError::MissingSession => AGENT_SESSION_REQUIRED@,
        AgentControllerError::NotAwaitingUser => AGENT_NOT_AWAITING_USER@,
        AgentControllerError::NotAwaitingApproval => AGENT_NOT_AWAITING_APPROVAL@,
        AgentControllerError::InvalidUserInput => AGENT_INVALID_USER_INPUT@,
        AgentControllerError::ApprovalNotFound => AGENT_APPROVAL_NOT_FOUND@,
        AgentControllerError::AlreadyTerminal => AGENT_ALREADY_TERMINAL@,
    }
}

impl AgentControllerError {
    pub fn code(&self) -> (r: &'static str)
        ensures
            r@ == controller_error_code(*self),
    {
        match self {
            AgentControllerError::Store(error) => error.code(),
            AgentControllerError::State(error) => error.code(),
            AgentControllerError::InvalidGoal => AGENT_GOAL_INVALID,
            AgentControllerError::MissingSession => AGENT_SESSION_REQUIRED,
            AgentControllerError::NotAwaitingUser => AGENT_NOT_AWAITING_USER,
            AgentControllerError::NotAwaitingApproval => AGENT_NOT_AWAITING_APPROVAL,
            AgentControllerError::InvalidUserInput => AGENT_INVALID_USER_INPUT,
            AgentControllerError::ApprovalNotFound => AGENT_APPROVAL_NOT_FOUND,
            AgentControllerError::AlreadyTerminal => AGENT_ALREADY_TERMINAL,
        }
    }
}

impl From<AgentStoreError> for AgentControllerError {
    fn from(error: AgentStoreError) -> (r: AgentControllerError) {
        AgentControllerError::Store(error)
    }
}

impl FromSpecImpl<AgentStoreError> for AgentControllerError {
    open spec fn obeys_from_spec() -> bool {
        true
    }

    open spec fn from_spec(v: AgentStoreError) -> AgentControllerError {
        AgentControllerError::Store(v)
    }
}

impl From<AgentStateError> for AgentControllerError {
    fn from(error: AgentStateError) -> (r: AgentControllerError) {
        AgentControllerError::State(error)
    }
}

impl FromSpecImpl<AgentStateError> for AgentControllerError {
    open spec fn obeys_from_spec() -> bool {
        true
    }

    open spec fn from_spec(v: AgentStateError) -> AgentControllerError {
        AgentControllerError::State(v)
    }
}

/// Which budget ran out.
#[derive(Clone, Copy, Debug, PartialEq, Eq, Structural)]
pub enum BudgetExhausted {
    Time,
    Rounds,
    ToolCalls,
}

impl BudgetExhausted {
    /// The stable failure code the run ends with.
    pub fn code(self) -> (r: &'static str)
        ensures
            r@ == (if self is Time { AGENT_TIME_BUDGET_EXCEEDED@ } else { AGENT_BUDGET_EXCEEDED@ }),
    {
        match self {
            BudgetExhausted::Time => AGENT_TIME_BUDGET_EXCEEDED,
            _ => AGENT_BUDGET_EXCEEDED,
        }
    }
}

/// What the loop does at the top of a round.
#[derive(Clone, Copy, Debug, PartialEq, Eq, Structural)]
pub enum RoundGate {
    /// The user cancelled: the run ends as cancelled.
    Cancel,
    /// A budget is exhausted: the run fails.
    Fail(BudgetExhausted),
    /// Another reasoning round may start.
    Reason,
}

/// The top-of-round check, in order: cancellation, then the time budget,
/// then the round budget.
pub open spec fn round_gate_spec(cancelled: bool, elapsed_ms: u64, rounds_used: u32, budget: RunBudget) -> RoundGate {
    if cancelled {
        RoundGate::Cancel
    } else if elapsed_ms >= budget.time_budget_ms {
        RoundGate::Fail(BudgetExhausted::Time)
    } else if rounds_used >= budget.max_reasoner_rounds {
        RoundGate::Fail(BudgetExhausted::Rounds)
    } else {
        RoundGate::Reason
    }
}

pub fn round_gate(cancelled: bool, elapsed_ms: u64, rounds_used: u32, budget: RunBudget) -> (r: RoundGate)
    ensures
        r == round_gate_spec(cancelled, elapsed_ms, rounds_used, budget),
{
    if cancelled {
        RoundGate::Cancel
    } else if elapsed_ms >= budget.time_budget_ms {
        RoundGate::Fail(BudgetExhausted::Time)
    } else if rounds_used >= budget.max_reasoner_rounds {
        RoundGate::Fail(BudgetExhausted::Rounds)
    } else {
        RoundGate::Reason
    }
}

/// The kind of a validated decision, with what the loop needs of it.
#[derive(Clone, Copy, Debug, PartialEq, Eq, Structural)]
pub enum DecisionKind {
    Final,
    AskUser,
    ToolCalls { count: usize },
    CommandProposal,
    ProposeChangeSet,
}

/// What the loop does with a validated decision.
#[derive(Clone, Copy, Debug, PartialEq, Eq, Structural)]
pub enum RoundStep {
    /// Emit the answer and complete the run.
    Complete,
    /// Refuse to complete: a mutating or unknown command still needs a
    /// successful read verification. The refusal becomes an observation and
    /// the loop reasons again.
    RequireVerification,
    /// Park the run awaiting the user's answer.
    AwaitUser,
    /// Authorize and execute the calls.
    ExecuteCalls,
    /// Park the command awaiting approval.
    RequestCommandApproval,
    /// Draft and policy-check the change set.
    ProposeChangeSet,
    /// The tool-call budget is exhausted: the run fails.
    Fail(BudgetExhausted),
}

/// `used + n`, saturating at `u32::MAX`.
pub open spec fn saturating_u32(used: u32, n: int) -> int {
    if used + n > u32::MAX { u32::MAX as int } else { used + n }
}

/// The number of calls of a batch as a `u32`, saturating.
pub open spec fn batch_count(count: usize) -> int {
    if count > u32::MAX { u32::MAX as int } else { count as int }
}

pub open spec fn round_step_spec(
    kind: DecisionKind,
    verification_pending: bool,
    tool_calls_used: u32,
    budget: RunBudget,
) -> RoundStep {
    match kind {
        DecisionKind::Final => if verification_pending {
            RoundStep::RequireVerification
        } else {
            RoundStep::Complete
        },
        DecisionKind::AskUser => RoundStep::AwaitUser,
        DecisionKind::ToolCalls { count } => if saturating_u32(tool_calls_used, batch_count(count))
            > budget.max_tool_calls {
            RoundStep::Fail(BudgetExhausted::ToolCalls)
        } else {
            RoundStep::ExecuteCalls
        },
        DecisionKind::CommandProposal => if saturating_u32(tool_calls_used, 1) > budget.max_tool_calls {
            RoundStep::Fail(BudgetExhausted::ToolCalls)
        } else {
            RoundStep::RequestCommandApproval
        },
        DecisionKind::ProposeChangeSet => RoundStep::ProposeChangeSet,
    }
}

/// The step for a validated decision.
pub fn round_step(kind: DecisionKind, verification_pending: bool, tool_calls_used: u32, budget: RunBudget) -> (r: RoundStep)
    ensures
        r == round_step_spec(kind, verification_pending, tool_calls_used, budget),
{
    match kind {
        DecisionKind::Final => {
            if verification_pending {
                RoundStep::RequireVerification
            } else {
                RoundStep::Complete
            }
        },
        DecisionKind::AskUser => RoundStep::AwaitUser,
        DecisionKind::ToolCalls { count } => {
            let requested: u32 = if count > 4294967295usize { u32::MAX } else { count as u32 };
            if tool_calls_used.saturating_add(requested) > budget.max_tool_calls {
                RoundStep::Fail(BudgetExhausted::ToolCalls)
            } else {
                RoundStep::ExecuteCalls
            }
        },
        DecisionKind::CommandProposal => {
            if tool_calls_used.saturating_add(1) > budget.max_tool_calls {
                RoundStep::Fail(BudgetExhausted::ToolCalls)
            } else {
                RoundStep::RequestCommandApproval
            }
        },
        DecisionKind::ProposeChangeSet => RoundStep::ProposeChangeSet,
    }
}

/// The text shown for a command's output: the trimmed standard output and
/// standard error, joined by a newline when both are present.
pub open spec fn preview_source(stdout: Seq<char>, stderr: Seq<char>) -> Seq<char> {
    let o = trim(stdout);
    let e = trim(stderr);
    if o.len() == 0 {
        e
    } else if e.len() == 0 {
        o
    } else {
        o + seq!['\n'] + e
    }
}

/// The preview: at most `COMMAND_EVENT_PREVIEW_CHARS` characters of the
/// source, followed by a newline and an ellipsis when it was cut.
pub open spec fn preview_text(source: Seq<char>) -> Seq<char> {
    if source.len() <= COMMAND_EVENT_PREVIEW_CHARS {
        source
    } else {
        source.take(COMMAND_EVENT_PREVIEW_CHARS as int) + seq!['\n', '…']
    }
}

/// Bounded preview of a command's output for the command card.
pub fn command_output_preview(outcome: &CommandOutcome) -> (r: String)
    ensures
        r@ == preview_text(preview_source(outcome.stdout@, outcome.stderr@)),
{
    let o = trimmed_chars(outcome.stdout.as_str());
    let e = trimmed_chars(outcome.stderr.as_str());
    let mut source: Vec<char> = Vec::new();
    if o.len() == 0 {
        source = e;
    } else if e.len() == 0 {
        source = o;
    } else {
        source = o;
        source.push('\n');
        let mut i: usize = 0;
        let ghost base = source@;
        while i < e.len()
            invariant
                i <= e@.len(),
                source@ == base + e@.subrange(0, i as int),
            decreases e.len() - i,
        {
            source.push(e[i]);
            proof {
                assert(e@.subrange(0, i + 1) =~= e@.subrange(0, i as int).push(e@[i as int]));
            }
            i = i + 1;
        }
        assert(e@.subrange(0, e@.len() as int) =~= e@);
    }
    let n = if source.len() <= COMMAND_EVENT_PREVIEW_CHARS { source.len() } else { COMMAND_EVENT_PREVIEW_CHARS };
    let mut out: Vec<char> = Vec::new();
    let mut i: usize = 0;
    while i < n
        invariant
            i <= n <= source@.len(),
            out@ == source@.take(i as int),
        decreases n - i,
    {
        out.push(source[i]);
        proof {
            assert(source@.take(i + 1) =~= source@.take(i as int).push(source@[i as int]));
        }
        i = i + 1;
    }
    if source.len() > COMMAND_EVENT_PREVIEW_CHARS {
        out.push('\n');
        out.push('…');
    } else {
        assert(source@.take(n as int) =~= source@);
    }
    string_from_chars(out.as_slice())
}

/// Whatever the step, a run with a pending verification is never completed.
pub proof fn lemma_no_completion_while_verification_pending(
    kind: DecisionKind,
    tool_calls_used: u32,
    budget: RunBudget,
)
    ensures
        round_step_spec(kind, true, tool_calls_used, budget) != RoundStep::Complete,
{
}

/// The tool-call budget is never overrun: every step that executes calls or
/// requests a command keeps the count within the budget (for any budget
/// below the counter's ceiling, where the saturating count stays exact).
pub proof fn lemma_tool_budget_respected(kind: DecisionKind, pending: bool, used: u32, budget: RunBudget)
    requires
        budget.max_tool_calls < u32::MAX,
    ensures
        round_step_spec(kind, pending, used, budget) == RoundStep::ExecuteCalls ==> (kind matches DecisionKind::ToolCalls { count }
            && used + count <= budget.max_tool_calls),
        round_step_spec(kind, pending, used, budget) == RoundStep::RequestCommandApproval ==> used + 1
            <= budget.max_tool_calls,
{
}

/// Whether a verification command is still owed after a command ran: a
/// mutating or unknown command makes one owed; a successful read command
/// settles it; a failed read command changes nothing.
pub open spec fn verification_after_spec(pending: bool, mutability: CommandMutability, success: bool) -> bool {
    match mutability {
        CommandMutability::Mutating | CommandMutability::Unknown => true,
        CommandMutability::ReadIntent => if success { false } else { pending },
    }
}

pub fn verification_after_command(pending: bool, mutability: CommandMutability, success: bool) -> (r: bool)
    ensures
        r == verification_after_spec(pending, mutability, success),
{
    match mutability {
        CommandMutability::Mutating | CommandMutability::Unknown => true,
        CommandMutability::ReadIntent => {
            if success {
                false
            } else {
                pending
            }
        },
    }
}

/// After a mutating or unknown command the run cannot complete until a read
/// command has succeeded: the requirement survives any failed command and
/// any further mutating one, and only a successful read clears it.
pub proof fn lemma_mutation_requires_successful_read(
    pending: bool,
    mutability: CommandMutability,
    success: bool,
    kind: DecisionKind,
    used: u32,
    budget: RunBudget,
)
    requires
        pending,
    ensures
        !verification_after_spec(pending, mutability, success) <==> (mutability is ReadIntent && success),
        verification_after_spec(pending, mutability, success) ==> round_step_spec(kind, true, used, budget)
            != RoundStep::Complete,
{
}

/// The exit code as text, or `unavailable`.
pub open spec fn exit_text(code: Option<u32>) -> Seq<char> {
    match code {
        Some(c) => decimal(c as nat),
        None => "unavailable"@,
    }
}

/// The observation the reasoner receives for a command result.
pub open spec fn command_summary(success: bool, code: Option<u32>) -> Seq<char> {
    (if success { "Command completed with exit code "@ } else { "Command failed with exit code "@ }) + exit_text(code)
}

pub open spec fn command_result_detail(command: Seq<char>, code: Option<u32>, stdout: Seq<char>, stderr: Seq<char>) -> Seq<char> {
    "Command: "@ + command + "\nExit code: "@ + exit_text(code) + "\nstdout:\n"@ + stdout + "\nstderr:\n"@ + stderr
}

fn push_exit_text(out: &mut Vec<char>, code: Option<u32>)
    ensures
        final(out)@ == old(out)@ + exit_text(code),
{
    match code {
        Some(c) => {
            let digits = decimal_text(c as u64);
            let ghost base = out@;
            let mut i: usize = 0;
            while i < digits.len()
                invariant
                    i <= digits@.len(),
                    out@ == base + digits@.take(i as int),
                decreases digits@.len() - i,
            {
                out.push(digits[i]);
                proof {
                    assert(digits@.take(i + 1) =~= digits@.take(i as int).push(digits@[i as int]));
                }
                i = i + 1;
            }
            assert(digits@.take(digits@.len() as int) =~= digits@);
        },
        None => push_str(out, "unavailable"),
    }
}

/// The observation of an approved command's result: the summary names the
/// exit code, the detail holds the command and its output.
pub open spec fn command_result_observation(o: Observation, command: PreparedCommandProposal, outcome: CommandOutcome) -> bool {
    &&& o.tool_call_id == Some(command.command_id)
    &&& o.tool_name matches Some(n) && n@ == "agent.command"@
    &&& o.success == outcome.success
    &&& o.error_code == outcome.error_code
    &&& o.summary@ == command_summary(outcome.success, outcome.exit_code)
    &&& o.detail matches Some(d) && d@ == command_result_detail(command.command@, outcome.exit_code, outcome.stdout@, outcome.stderr@)
}

/// The observation recorded for an approved command's result.
pub fn command_observation(command: &PreparedCommandProposal, outcome: &CommandOutcome) -> (r: Observation)
    ensures
        command_result_observation(r, *command, *outcome),
{
    let mut summary: Vec<char> = Vec::new();
    if outcome.success {
        push_str(&mut summary, "Command completed with exit code ");
    } else {
        push_str(&mut summary, "Command failed with exit code ");
    }
    push_exit_text(&mut summary, outcome.exit_code);
    let mut detail: Vec<char> = Vec::new();
    push_str(&mut detail, "Command: ");
    push_str(&mut detail, command.command.as_str());
    push_str(&mut detail, "\nExit code: ");
    push_exit_text(&mut detail, outcome.exit_code);
    push_str(&mut detail, "\nstdout:\n");
    push_str(&mut detail, outcome.stdout.as_str());
    push_str(&mut detail, "\nstderr:\n");
    push_str(&mut detail, outcome.stderr.as_str());
    let error_code = match &outcome.error_code {
        Some(c) => Some(c.clone()),
        None => None,
    };
    Observation {
        tool_call_id: Some(command.command_id),
        tool_name: Some("agent.command".to_owned()),
        success: outcome.success,
        error_code,
        summary: string_from_chars(summary.as_slice()),
        detail: Some(string_from_chars(detail.as_slice())),
    }
}

/// The event that records an approved command's result: completed with the
/// bounded preview, or failed with the outcome's code (`COMMAND_FAILED` when
/// it has none).
pub open spec fn command_result(e: AgentEvent, command: PreparedCommandProposal, outcome: CommandOutcome) -> bool {
    &&& outcome.success ==> (e matches AgentEvent::CommandCompleted { command_id, exit_code, output_preview, duration_ms }
        && command_id == command.command_id && exit_code == outcome.exit_code
        && output_preview@ == preview_text(preview_source(outcome.stdout@, outcome.stderr@))
        && duration_ms == outcome.duration_ms)
    &&& !outcome.success ==> (e matches AgentEvent::CommandFailed { command_id, exit_code, output_preview, error_code, duration_ms }
        && command_id == command.command_id && exit_code == outcome.exit_code
        && output_preview@ == preview_text(preview_source(outcome.stdout@, outcome.stderr@))
        && error_code@ == (match outcome.error_code {
            Some(c) => c@,
            None => "COMMAND_FAILED"@,
        })
        && duration_ms == outcome.duration_ms)
}

/// The event recorded for an approved command's result.
pub fn command_result_event(command: &PreparedCommandProposal, outcome: &CommandOutcome) -> (r: AgentEvent)
    ensures
        command_result(r, *command, *outcome),
{
    let preview = command_output_preview(outcome);
    if outcome.success {
        AgentEvent::CommandCompleted {
            command_id: command.command_id,
            exit_code: outcome.exit_code,
            output_preview: preview,
            duration_ms: outcome.duration_ms,
        }
    } else {
        let error_code = match &outcome.error_code {
            Some(c) => c.clone(),
            None => "COMMAND_FAILED".to_owned(),
        };
        AgentEvent::CommandFailed {
            command_id: command.command_id,
            exit_code: outcome.exit_code,
            output_preview: preview,
            error_code,
            duration_ms: outcome.duration_ms,
        }
    }
}


/// The failure code recorded when a failed tool reports none.
pub const GENERIC_TOOL_FAILURE_CODE: &'static str = "TOOL_FAILED";

/// The observation summary of a finished tool call:
/// `<tool> succeeded: <summary>` or `<tool> failed: <summary>`.
pub open spec fn tool_observation_summary(tool_name: Seq<char>, success: bool, summary: Seq<char>) -> Seq<char> {
    tool_name + (if success { " succeeded: "@ } else { " failed: "@ }) + summary
}

/// The terminal event of a finished tool call: completed, or failed with
/// its code (`GENERIC_TOOL_FAILURE_CODE` when it has none).
pub open spec fn tool_result_event(e: AgentEvent, tool_call_id: u128, success: bool, error_code: Option<String>) -> bool {
    &&& success ==> e == (AgentEvent::ToolCompleted { tool_call_id })
    &&& !success ==> (e matches AgentEvent::ToolFailed { tool_call_id: id, error_code: code } && id == tool_call_id
        && code@ == (match error_code {
            Some(c) => c@,
            None => GENERIC_TOOL_FAILURE_CODE@,
        }))
}

/// The terminal event recorded for a finished tool call.
pub fn tool_outcome_event(tool_call_id: u128, success: bool, error_code: &Option<String>) -> (r: AgentEvent)
    ensures
        tool_result_event(r, tool_call_id, success, *error_code),
{
    if success {
        AgentEvent::ToolCompleted { tool_call_id }
    } else {
        let code = match error_code {
            Some(c) => c.clone(),
            None => GENERIC_TOOL_FAILURE_CODE.to_owned(),
        };
        AgentEvent::ToolFailed { tool_call_id, error_code: code }
    }
}

/// The observation recorded for a finished tool call, with the detail the
/// reasoner may read (its output or a reference to the stored artifact).
pub fn tool_observation(
    tool_call_id: u128,
    tool_name: &str,
    success: bool,
    error_code: &Option<String>,
    summary: &str,
    detail: Option<String>,
) -> (r: Observation)
    ensures
        r.tool_call_id == Some(tool_call_id),
        r.tool_name is Some,
        r.tool_name->0@ == tool_name@,
        r.success == success,
        r.error_code == *error_code,
        r.summary@ == tool_observation_summary(tool_name@, success, summary@),
        r.detail == detail,
{
    let mut text: Vec<char> = Vec::new();
    push_str(&mut text, tool_name);
    if success {
        push_str(&mut text, " succeeded: ");
    } else {
        push_str(&mut text, " failed: ");
    }
    push_str(&mut text, summary);
    let error_code = match error_code {
        Some(c) => Some(c.clone()),
        None => None,
    };
    Observation {
        tool_call_id: Some(tool_call_id),
        tool_name: Some(tool_name.to_owned()),
        success,
        error_code,
        summary: string_from_chars(text.as_slice()),
        detail,
    }
}


/// A failed observation with these texts.
fn refusal(
    tool_call_id: Option<u128>,
    tool_name: Option<String>,
    error_code: Option<String>,
    summary: Vec<char>,
    detail: Option<String>,
) -> (r: Observation)
    ensures
        r.tool_call_id == tool_call_id,
        r.tool_name == tool_name,
        !r.success,
        r.error_code == error_code,
        r.summary@ == summary@,
        r.detail == detail,
{
    Observation { tool_call_id, tool_name, success: false, error_code, summary: string_from_chars(summary.as_slice()), detail }
}

/// The observation recorded for a tool call the policy blocked:
/// `<tool> blocked by policy`, with the policy's code.
pub fn blocked_call_observation(call: &PreparedToolCall, reason_code: &str) -> (r: Observation)
    ensures
        r.tool_call_id == Some(call.tool_call_id),
        r.tool_name == Some(call.tool_name),
        !r.success,
        r.error_code is Some && r.error_code->0@ == reason_code@,
        r.summary@ == call.tool_name@ + " blocked by policy"@,
        r.detail is None,
{
    let mut text: Vec<char> = Vec::new();
    push_str(&mut text, call.tool_name.as_str());
    push_str(&mut text, " blocked by policy");
    refusal(Some(call.tool_call_id), Some(call.tool_name.clone()), Some(reason_code.to_owned()), text, None)
}

/// The observation of a command proposal the policy blocked:
/// `Command proposal blocked by policy (<code>)`.
pub open spec fn command_block(o: Observation, command: PreparedCommandProposal, code: Seq<char>) -> bool {
    &&& o.tool_call_id == Some(command.command_id)
    &&& o.tool_name is Some && o.tool_name->0@ == "agent.command"@
    &&& !o.success
    &&& o.error_code is Some && o.error_code->0@ == code
    &&& o.summary@ == "Command proposal blocked by policy ("@ + code + ")"@
    &&& o.detail is None
}

/// The observation recorded for a command proposal the policy blocked.
pub fn blocked_command_observation(command: &PreparedCommandProposal, reason_code: &str) -> (r: Observation)
    ensures
        command_block(r, *command, reason_code@),
{
    let mut text: Vec<char> = Vec::new();
    push_str(&mut text, "Command proposal blocked by policy (");
    push_str(&mut text, reason_code);
    push_str(&mut text, ")");
    refusal(Some(command.command_id), Some("agent.command".to_owned()), Some(reason_code.to_owned()), text, None)
}

/// The observation of a user's rejection of a tool call:
/// `User rejected <tool>`.
pub open spec fn call_rejection(o: Observation, call: PreparedToolCall) -> bool {
    &&& o.tool_call_id == Some(call.tool_call_id)
    &&& o.tool_name == Some(call.tool_name)
    &&& !o.success
    &&& o.error_code is None
    &&& o.summary@ == "User rejected "@ + call.tool_name@
    &&& o.detail is None
}

/// The observation of a user's rejection of a command: `User rejected the
/// proposed command`, with the command in the detail.
pub open spec fn command_rejection(o: Observation, command: PreparedCommandProposal) -> bool {
    &&& o.tool_call_id == Some(command.command_id)
    &&& o.tool_name is Some && o.tool_name->0@ == "agent.command"@
    &&& !o.success
    &&& o.error_code is None
    &&& o.summary@ == "User rejected the proposed command"@
    &&& o.detail is Some && o.detail->0@ == "Rejected command: "@ + command.command@
}

/// The observation of a user's rejection of a change set:
/// `User rejected ChangeSet <id>`, with the id in hyphenated form.
pub open spec fn change_set_rejection(o: Observation, approval: ApprovalRequest) -> bool {
    &&& o.tool_call_id == Some(approval.tool_call_id)
    &&& o.tool_name == Some(approval.tool_name)
    &&& !o.success
    &&& o.error_code is None
    &&& o.summary@ == "User rejected ChangeSet "@ + uuid_text(approval.change_set_id->0)
    &&& o.detail is None
}

/// The observation recorded when the user rejects a tool call.
pub fn rejected_call_observation(call: &PreparedToolCall) -> (r: Observation)
    ensures
        call_rejection(r, *call),
{
    let mut text: Vec<char> = Vec::new();
    push_str(&mut text, "User rejected ");
    push_str(&mut text, call.tool_name.as_str());
    refusal(Some(call.tool_call_id), Some(call.tool_name.clone()), None, text, None)
}

/// The observation recorded when the user rejects a command.
pub fn rejected_command_observation(command: &PreparedCommandProposal) -> (r: Observation)
    ensures
        command_rejection(r, *command),
{
    let mut text: Vec<char> = Vec::new();
    push_str(&mut text, "User rejected the proposed command");
    let mut detail: Vec<char> = Vec::new();
    push_str(&mut detail, "Rejected command: ");
    push_str(&mut detail, command.command.as_str());
    refusal(
        Some(command.command_id),
        Some("agent.command".to_owned()),
        None,
        text,
        Some(string_from_chars(detail.as_slice())),
    )
}

/// The observation recorded when the user rejects a change set.
pub fn rejected_change_set_observation(approval: &ApprovalRequest) -> (r: Observation)
    requires
        approval.change_set_id is Some,
    ensures
        change_set_rejection(r, *approval),
{
    let mut text: Vec<char> = Vec::new();
    push_str(&mut text, "User rejected ChangeSet ");
    let change_set_id = match approval.change_set_id {
        Some(id) => id,
        None => 0,
    };
    let id_text = uuid_to_text(change_set_id);
    push_str(&mut text, id_text.as_str());
    refusal(Some(approval.tool_call_id), Some(approval.tool_name.clone()), None, text, None)
}

/// The observation of a tool call whose approval no longer holds:
/// `Approval invalidated (<code>) for <tool>`.
pub open spec fn call_invalidation(o: Observation, call: PreparedToolCall, code: Seq<char>) -> bool {
    &&& o.tool_call_id == Some(call.tool_call_id)
    &&& o.tool_name == Some(call.tool_name)
    &&& !o.success
    &&& o.error_code is Some && o.error_code->0@ == code
    &&& o.summary@ == "Approval invalidated ("@ + code + ") for "@ + call.tool_name@
    &&& o.detail is None
}

/// The observation of a command whose approval no longer holds:
/// `Command approval invalidated (<code>)`.
pub open spec fn command_invalidation(o: Observation, command: PreparedCommandProposal, code: Seq<char>) -> bool {
    &&& o.tool_call_id == Some(command.command_id)
    &&& o.tool_name is Some && o.tool_name->0@ == "agent.command"@
    &&& !o.success
    &&& o.error_code is Some && o.error_code->0@ == code
    &&& o.summary@ == "Command approval invalidated ("@ + code + ")"@
    &&& o.detail is None
}

/// The observation of a change set whose approval no longer holds:
/// `ChangeSet approval invalidated (<code>)`.
pub open spec fn change_set_invalidation(o: Observation, approval: ApprovalRequest, code: Seq<char>) -> bool {
    &&& o.tool_call_id == Some(approval.tool_call_id)
    &&& o.tool_name == Some(approval.tool_name)
    &&& !o.success
    &&& o.error_code is Some && o.error_code->0@ == code
    &&& o.summary@ == "ChangeSet approval invalidated ("@ + code + ")"@
    &&& o.detail is None
}

/// The observation recorded when a tool call's approval no longer holds.
pub fn invalidated_call_observation(call: &PreparedToolCall, reason_code: &str) -> (r: Observation)
    ensures
        call_invalidation(r, *call, reason_code@),
{
    let mut text: Vec<char> = Vec::new();
    push_str(&mut text, "Approval invalidated (");
    push_str(&mut text, reason_code);
    push_str(&mut text, ") for ");
    push_str(&mut text, call.tool_name.as_str());
    refusal(Some(call.tool_call_id), Some(call.tool_name.clone()), Some(reason_code.to_owned()), text, None)
}

/// The observation recorded when a command's approval no longer holds.
pub fn invalidated_command_observation(command: &PreparedCommandProposal, reason_code: &str) -> (r: Observation)
    ensures
        command_invalidation(r, *command, reason_code@),
{
    let mut text: Vec<char> = Vec::new();
    push_str(&mut text, "Command approval invalidated (");
    push_str(&mut text, reason_code);
    push_str(&mut text, ")");
    refusal(Some(command.command_id), Some("agent.command".to_owned()), Some(reason_code.to_owned()), text, None)
}

/// The observation recorded when a change set's approval no longer holds.
pub fn invalidated_change_set_observation(approval: &ApprovalRequest, reason_code: &str) -> (r: Observation)
    ensures
        change_set_invalidation(r, *approval, reason_code@),
{
    let mut text: Vec<char> = Vec::new();
    push_str(&mut text, "ChangeSet approval invalidated (");
    push_str(&mut text, reason_code);
    push_str(&mut text, ")");
    refusal(
        Some(approval.tool_call_id),
        Some(approval.tool_name.clone()),
        Some(reason_code.to_owned()),
        text,
        None,
    )
}

/// The observation recorded for a refused change proposal:
/// `Change proposal rejected (<code>)`.
pub fn change_rejection_observation(code: &str) -> (r: Observation)
    ensures
        r.tool_call_id is None,
        r.tool_name is None,
        !r.success,
        r.error_code is Some && r.error_code->0@ == code@,
        r.summary@ == "Change proposal rejected ("@ + code@ + ")"@,
        r.detail is None,
{
    let mut text: Vec<char> = Vec::new();
    push_str(&mut text, "Change proposal rejected (");
    push_str(&mut text, code);
    push_str(&mut text, ")");
    refusal(None, None, Some(code.to_owned()), text, None)
}

/// The observation recorded for a decision the runtime refused:
/// `Decision rejected: <message>`, with the uniform decision code.
pub fn rejected_decision_observation(error: DecisionError) -> (r: Observation)
    ensures
        r.tool_call_id is None,
        r.tool_name is None,
        !r.success,
        r.error_code is Some && r.error_code->0@ == AGENT_DECISION_INVALID@,
        r.summary@ == "Decision rejected: "@ + decision_error_message(error)@,
        r.detail is None,
{
    let mut text: Vec<char> = Vec::new();
    push_str(&mut text, "Decision rejected: ");
    push_str(&mut text, error.message());
    refusal(None, None, Some(AGENT_DECISION_INVALID.to_owned()), text, None)
}


/// Longest goal a run may start with, in bytes.
pub const MAX_GOAL_BYTES: usize = 8192;

/// A goal a run may start with: its trimmed text is not empty and fits in
/// `MAX_GOAL_BYTES` bytes.
pub open spec fn goal_ok(goal: Seq<char>) -> bool {
    trim(goal).len() > 0 && byte_len(trim(goal)) <= MAX_GOAL_BYTES
}

/// Checks the goal of a new run and returns its trimmed text; a blank or
/// oversized goal is refused before any run exists.
pub fn check_goal(goal: &str) -> (r: Result<String, AgentControllerError>)
    ensures
        goal_ok(goal@) ==> r is Ok && r->Ok_0@ == trim(goal@),
        !goal_ok(goal@) ==> r == Err::<String, AgentControllerError>(AgentControllerError::InvalidGoal),
{
    let chars = trimmed_chars(goal);
    let text = string_from_chars(chars.as_slice());
    if text.as_str().is_empty() || text.as_str().len() > MAX_GOAL_BYTES {
        return Err(AgentControllerError::InvalidGoal);
    }
    Ok(text)
}

} // verus!
