use runory_agent::changeset::ChangeSetExecutorError;
use runory_agent::checkpoint::{AgentCheckpoint, BudgetCheckpoint, PendingInterruptRef};
use runory_agent::command::{
    cancelled_outcome, terminal_outcome, transport_failure_outcome, CommandOutcome, COMMAND_CANCELLED,
    COMMAND_EXIT_NON_ZERO, COMMAND_TERMINAL_TIMEOUT,
};
use runory_agent::event::AgentEvent;
use runory_agent::controller::{
    blocked_call_observation, blocked_command_observation, change_rejection_observation,
    invalidated_call_observation, invalidated_command_observation, rejected_call_observation,
    rejected_command_observation, rejected_decision_observation,
    tool_observation, tool_outcome_event, GENERIC_TOOL_FAILURE_CODE,
    command_observation, command_result_event, verification_after_command,
    command_output_preview, round_gate, round_step, AgentControllerError, BudgetExhausted,
    DecisionKind, RoundGate, RoundStep, RunBudget, AGENT_BUDGET_EXCEEDED,
    AGENT_TIME_BUDGET_EXCEEDED, COMMAND_EVENT_PREVIEW_CHARS,
};
use runory_agent::decision::{
    CommandMutability, CommandRisk, DecisionError, PreparedCommandProposal, PreparedToolCall,
};
use runory_agent::gate::{
    default_command_authorization, AuthorizationGate, AutoAuthorizationGate, CommandAuthorization,
    FixedPolicyMatcher, PolicySnapshotMatcher, Authorization,
};
use runory_agent::reasoner::{ReasonerError, AGENT_REASONER_FAILED};
use runory_agent::repository::{AgentStoreError, InMemoryCheckpointStore, InMemoryPendingToolCallStore};
use runory_agent::state::{AgentRunStateV2, AgentStateError};

/// A fresh random identifier.
fn new_id() -> u128 {
    uuid::Uuid::new_v4().as_u128()
}

fn outcome(stdout: String, stderr: &str) -> CommandOutcome {
    CommandOutcome {
        command_id: new_id(),
        success: true,
        exit_code: None,
        stdout,
        stderr: stderr.into(),
        error_code: None,
        duration_ms: 1,
        cancelled: false,
    }
}

#[test]
fn command_event_preview_is_bounded_and_marks_truncation() {
    let preview = command_output_preview(&outcome("x".repeat(COMMAND_EVENT_PREVIEW_CHARS + 100), ""));
    assert_eq!(
        preview
            .chars()
            .filter(|character| *character == 'x')
            .count(),
        COMMAND_EVENT_PREVIEW_CHARS
    );
    assert!(preview.ends_with("\n…"));
}

#[test]
fn command_preview_joins_trimmed_streams() {
    assert_eq!(command_output_preview(&outcome("  out \n".into(), "\terr\n")), "out\nerr");
    assert_eq!(command_output_preview(&outcome("   ".into(), " err ")), "err");
    assert_eq!(command_output_preview(&outcome(" out".into(), "")), "out");
    assert_eq!(command_output_preview(&outcome(String::new(), "")), "");
}

#[test]
fn default_budget_is_fifty_rounds_twenty_calls_five_minutes() {
    let budget = RunBudget::default();
    assert_eq!(budget.max_reasoner_rounds, 50);
    assert_eq!(budget.max_tool_calls, 20);
    assert_eq!(budget.time_budget_ms, 300_000);
}

#[test]
fn round_gate_checks_cancellation_then_time_then_rounds() {
    let budget = RunBudget { max_reasoner_rounds: 2, max_tool_calls: 3, time_budget_ms: 60_000 };
    assert_eq!(round_gate(true, 70_000, 5, budget), RoundGate::Cancel);
    assert_eq!(round_gate(false, 60_000, 5, budget), RoundGate::Fail(BudgetExhausted::Time));
    assert_eq!(round_gate(false, 10, 2, budget), RoundGate::Fail(BudgetExhausted::Rounds));
    assert_eq!(round_gate(false, 10, 1, budget), RoundGate::Reason);
    let zero_time = RunBudget { time_budget_ms: 0, ..budget };
    assert_eq!(round_gate(false, 0, 0, zero_time), RoundGate::Fail(BudgetExhausted::Time));
    assert_eq!(BudgetExhausted::Time.code(), AGENT_TIME_BUDGET_EXCEEDED);
    assert_eq!(BudgetExhausted::Rounds.code(), AGENT_BUDGET_EXCEEDED);
    assert_eq!(BudgetExhausted::ToolCalls.code(), AGENT_BUDGET_EXCEEDED);
}

#[test]
fn round_step_enforces_verification_and_tool_budget() {
    let budget = RunBudget { max_reasoner_rounds: 8, max_tool_calls: 3, time_budget_ms: 60_000 };
    assert_eq!(round_step(DecisionKind::Final, false, 0, budget), RoundStep::Complete);
    assert_eq!(round_step(DecisionKind::Final, true, 0, budget), RoundStep::RequireVerification);
    assert_eq!(round_step(DecisionKind::AskUser, true, 9, budget), RoundStep::AwaitUser);
    assert_eq!(round_step(DecisionKind::ToolCalls { count: 2 }, false, 1, budget), RoundStep::ExecuteCalls);
    assert_eq!(
        round_step(DecisionKind::ToolCalls { count: 3 }, false, 1, budget),
        RoundStep::Fail(BudgetExhausted::ToolCalls)
    );
    assert_eq!(round_step(DecisionKind::CommandProposal, false, 2, budget), RoundStep::RequestCommandApproval);
    assert_eq!(
        round_step(DecisionKind::CommandProposal, false, 3, budget),
        RoundStep::Fail(BudgetExhausted::ToolCalls)
    );
    assert_eq!(round_step(DecisionKind::ProposeChangeSet, false, 3, budget), RoundStep::ProposeChangeSet);
}

#[test]
fn controller_error_codes_are_stable() {
    assert_eq!(AgentControllerError::InvalidGoal.code(), "AGENT_GOAL_INVALID");
    assert_eq!(AgentControllerError::MissingSession.code(), "AGENT_SESSION_REQUIRED");
    assert_eq!(AgentControllerError::NotAwaitingUser.code(), "AGENT_NOT_AWAITING_USER");
    assert_eq!(AgentControllerError::NotAwaitingApproval.code(), "AGENT_NOT_AWAITING_APPROVAL");
    assert_eq!(AgentControllerError::InvalidUserInput.code(), "AGENT_INVALID_USER_INPUT");
    assert_eq!(AgentControllerError::ApprovalNotFound.code(), "AGENT_APPROVAL_NOT_FOUND");
    assert_eq!(AgentControllerError::AlreadyTerminal.code(), "AGENT_ALREADY_TERMINAL");
    let store: AgentControllerError = AgentStoreError::RunNotFound.into();
    assert_eq!(store, AgentControllerError::Store(AgentStoreError::RunNotFound));
    assert_eq!(store.code(), "AGENT_RUN_NOT_FOUND");
    let state: AgentControllerError = AgentStateError {
        from: AgentRunStateV2::Created,
        to: AgentRunStateV2::Completed,
    }
    .into();
    assert_eq!(state.code(), "AGENT_INVALID_TRANSITION");
}

#[test]
fn reasoner_unavailable_has_the_stable_code() {
    assert_eq!(ReasonerError::unavailable().code, AGENT_REASONER_FAILED);
}

#[test]
fn change_set_errors_keep_store_codes() {
    assert_eq!(ChangeSetExecutorError::Store("CHANGESET_NOT_FOUND".into()).code(), "CHANGESET_NOT_FOUND");
    assert_eq!(ChangeSetExecutorError::PolicyBlocked.code(), "CHANGESET_POLICY_BLOCKED");
    assert_eq!(ChangeSetExecutorError::ExecutionFailed.code(), "CHANGESET_EXECUTION_FAILED");
    assert_eq!(ChangeSetExecutorError::InvalidOperation.code(), "INVALID_OPERATION");
}

fn command(risk: CommandRisk) -> PreparedCommandProposal {
    PreparedCommandProposal {
        command_id: new_id(),
        command: "df -h".into(),
        reason_summary: "Inspect filesystem usage".into(),
        observation_analysis: None,
        risk,
        mutability: CommandMutability::ReadIntent,
    }
}

#[test]
fn commands_are_never_auto_authorized() {
    match default_command_authorization(&command(CommandRisk::High)) {
        CommandAuthorization::RequireApproval { risk, policy_version, policy_hash } => {
            assert_eq!(risk, "high");
            assert_eq!(policy_version, 1);
            assert_eq!(policy_hash, "runtime-command-policy-v1");
        }
        other => panic!("expected approval, got {other:?}"),
    }
    match AutoAuthorizationGate.authorize_command(&command(CommandRisk::Low)) {
        CommandAuthorization::RequireApproval { risk, .. } => assert_eq!(risk, "low"),
        other => panic!("expected approval, got {other:?}"),
    }
}

#[test]
fn auto_gate_and_fixed_matcher_answer_deterministically() {
    let call = PreparedToolCall {
        tool_call_id: new_id(),
        tool_name: "system.disk_usage".into(),
        reason_summary: "Collecting evidence".into(),
        invocation: "system.disk_usage".into(),
    };
    assert!(matches!(AutoAuthorizationGate.authorize(&call), Authorization::Auto));
    assert!(FixedPolicyMatcher { matches: true }.matches(3, "hash"));
    assert!(!FixedPolicyMatcher { matches: false }.matches(1, "runtime-command-policy-v1"));
}

#[test]
fn checkpoints_and_pending_calls_round_trip_through_the_stores() {
    let run_id = new_id();
    let approval_id = new_id();
    let mut checkpoints = InMemoryCheckpointStore::new();
    assert!(checkpoints.get(run_id).expect("get").is_none());
    checkpoints
        .save(AgentCheckpoint {
            run_id,
            state: AgentRunStateV2::AwaitingApproval,
            event_cursor: 12,
            pending_interrupt: Some(PendingInterruptRef::Approval { approval_id }),
            budget: BudgetCheckpoint { rounds_used: 3, tool_calls_used: 5, elapsed_ms: 42_000 },
            target_ids: vec![new_id()],
            fact_snapshot: "[]".into(),
            created_at_epoch_ms: 1_725_000_000_000,
        })
        .expect("save");
    let loaded = checkpoints.get(run_id).expect("get").expect("stored");
    assert_eq!(loaded.event_cursor, 12);
    assert_eq!(loaded.budget, BudgetCheckpoint { rounds_used: 3, tool_calls_used: 5, elapsed_ms: 42_000 });
    assert!(matches!(loaded.pending_interrupt, Some(PendingInterruptRef::Approval { approval_id: id }) if id == approval_id));

    let mut pending = InMemoryPendingToolCallStore::new();
    let cmd = command(CommandRisk::Low);
    let command_id = cmd.command_id;
    pending.put_command(cmd).expect("put");
    assert_eq!(pending.get_command(command_id).expect("get").expect("stored").command, "df -h");
    pending.remove_command(command_id).expect("remove");
    assert!(pending.get_command(command_id).expect("get").is_none());
    assert!(pending.get(command_id).expect("get").is_none());
}

#[test]
fn mutating_command_requires_successful_follow_up_verification() {
    assert!(verification_after_command(false, CommandMutability::Mutating, true));
    assert!(verification_after_command(false, CommandMutability::Unknown, false));
    assert!(verification_after_command(true, CommandMutability::ReadIntent, false));
    assert!(!verification_after_command(true, CommandMutability::ReadIntent, true));
    assert!(!verification_after_command(false, CommandMutability::ReadIntent, false));
}

#[test]
fn command_results_become_bounded_observations_and_events() {
    let cmd = command(CommandRisk::Low);
    let mut ok = outcome(" /dev/sda2 94% ".into(), "");
    ok.exit_code = Some(0);
    let observation = command_observation(&cmd, &ok);
    assert_eq!(observation.summary, "Command completed with exit code 0");
    assert_eq!(
        observation.detail.as_deref(),
        Some("Command: df -h\nExit code: 0\nstdout:\n /dev/sda2 94% \nstderr:\n")
    );
    assert_eq!(observation.tool_name.as_deref(), Some("agent.command"));
    match command_result_event(&cmd, &ok) {
        AgentEvent::CommandCompleted { output_preview, exit_code, .. } => {
            assert_eq!(output_preview, "/dev/sda2 94%");
            assert_eq!(exit_code, Some(0));
        }
        other => panic!("expected completion, got {other:?}"),
    }
    let mut failed = outcome(String::new(), "permission denied");
    failed.success = false;
    let observation = command_observation(&cmd, &failed);
    assert_eq!(observation.summary, "Command failed with exit code unavailable");
    match command_result_event(&cmd, &failed) {
        AgentEvent::CommandFailed { error_code, output_preview, .. } => {
            assert_eq!(error_code, "COMMAND_FAILED");
            assert_eq!(output_preview, "permission denied");
        }
        other => panic!("expected failure, got {other:?}"),
    }
}

#[test]
fn tool_outcomes_become_terminal_events_and_observations() {
    match tool_outcome_event(5, true, &None) {
        AgentEvent::ToolCompleted { tool_call_id } => assert_eq!(tool_call_id, 5),
        other => panic!("unexpected event {other:?}"),
    }
    match tool_outcome_event(5, false, &None) {
        AgentEvent::ToolFailed { tool_call_id, error_code } => {
            assert_eq!(tool_call_id, 5);
            assert_eq!(error_code, GENERIC_TOOL_FAILURE_CODE);
            assert_eq!(error_code, "TOOL_FAILED");
        }
        other => panic!("unexpected event {other:?}"),
    }
    match tool_outcome_event(5, false, &Some("tool.timeout".into())) {
        AgentEvent::ToolFailed { error_code, .. } => assert_eq!(error_code, "tool.timeout"),
        other => panic!("unexpected event {other:?}"),
    }

    let ok = tool_observation(5, "system.disk", true, &None, "3 disks", Some("raw".into()));
    assert_eq!(ok.summary, "system.disk succeeded: 3 disks");
    assert_eq!(ok.tool_call_id, Some(5));
    assert_eq!(ok.tool_name.as_deref(), Some("system.disk"));
    assert_eq!(ok.detail.as_deref(), Some("raw"));
    let failed = tool_observation(6, "service.logs", false, &Some("E".into()), "no journal", None);
    assert_eq!(failed.summary, "service.logs failed: no journal");
    assert!(!failed.success);
    assert_eq!(failed.error_code.as_deref(), Some("E"));
}

#[test]
fn terminal_outcomes_are_classified_from_output_and_timeouts() {
    let ok = terminal_outcome(1, "Filesystem  Size  Used\n/dev/sda1 100G 40G", false, 12);
    assert!(ok.success);
    assert!(ok.error_code.is_none());
    assert_eq!(ok.duration_ms, 12);
    assert!(ok.stdout.starts_with("Filesystem"));

    let failed = terminal_outcome(1, "bash: foo: Command Not Found", false, 3);
    assert!(!failed.success);
    assert_eq!(failed.error_code.as_deref(), Some(COMMAND_EXIT_NON_ZERO));

    let timed_out = terminal_outcome(1, "partial", true, 30_000);
    assert!(!timed_out.success);
    assert_eq!(timed_out.error_code.as_deref(), Some(COMMAND_TERMINAL_TIMEOUT));

    let cancelled = cancelled_outcome(2, 5);
    assert!(cancelled.cancelled && !cancelled.success);
    assert_eq!(cancelled.error_code.as_deref(), Some(COMMAND_CANCELLED));
    assert!(cancelled.stdout.is_empty());

    let transport = transport_failure_outcome(3, "SESSION_NOT_FOUND", 1);
    assert!(!transport.success && !transport.cancelled);
    assert_eq!(transport.error_code.as_deref(), Some("SESSION_NOT_FOUND"));
    assert_eq!(transport.duration_ms, 1);
}

#[test]
fn refusals_are_explained_to_the_reasoner() {
    let call = PreparedToolCall {
        tool_call_id: 9,
        tool_name: "service.logs".into(),
        reason_summary: "Read logs".into(),
        invocation: "service.logs".into(),
    };
    let cmd = command(CommandRisk::Low);

    let o = blocked_call_observation(&call, "POLICY_DENY");
    assert_eq!(o.summary, "service.logs blocked by policy");
    assert_eq!(o.error_code.as_deref(), Some("POLICY_DENY"));
    assert_eq!(o.tool_call_id, Some(9));
    assert!(!o.success);

    let o = blocked_command_observation(&cmd, "POLICY_DENY");
    assert_eq!(o.summary, "Command proposal blocked by policy (POLICY_DENY)");
    assert_eq!(o.tool_name.as_deref(), Some("agent.command"));

    let o = rejected_call_observation(&call);
    assert_eq!(o.summary, "User rejected service.logs");
    assert!(o.error_code.is_none());

    let o = rejected_command_observation(&cmd);
    assert_eq!(o.summary, "User rejected the proposed command");
    assert_eq!(o.detail.as_deref(), Some("Rejected command: df -h"));

    let o = invalidated_call_observation(&call, "APPROVAL_TARGETS_CHANGED");
    assert_eq!(o.summary, "Approval invalidated (APPROVAL_TARGETS_CHANGED) for service.logs");

    let o = invalidated_command_observation(&cmd, "APPROVAL_POLICY_CHANGED");
    assert_eq!(o.summary, "Command approval invalidated (APPROVAL_POLICY_CHANGED)");
    assert_eq!(o.tool_call_id, Some(cmd.command_id));

    let o = change_rejection_observation("CHANGESET_POLICY_DENIED");
    assert_eq!(o.summary, "Change proposal rejected (CHANGESET_POLICY_DENIED)");
    assert!(o.tool_call_id.is_none());

    let o = rejected_decision_observation(DecisionError::TooManyToolCalls);
    assert_eq!(o.summary, "Decision rejected: decision requested more than 4 tool calls");
    assert_eq!(o.error_code.as_deref(), Some("AGENT_DECISION_INVALID"));
    assert_eq!(DecisionError::UnknownTool.message(), "tool name is not in the native tool registry");
}
