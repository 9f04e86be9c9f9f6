use runory_agent::approval::{ApprovalRequest, ApprovalRequestState};
use runory_agent::checkpoint::{BudgetCheckpoint, PendingInterruptRef};
use runory_agent::command::CommandOutcome;
use runory_agent::controller::RunOutcome;
use runory_agent::gate::CommandAuthorization;
use runory_agent::controller::AgentControllerError;
use runory_agent::decision::{classify_command, PreparedCommandProposal, PreparedToolCall};
use runory_agent::event::AgentEvent;
use runory_agent::metrics::RunMetrics;
use runory_agent::recovery::extract_pending_command_verification;
use runory_agent::recorder::{
    approve_approval, open_run, record_command_result, reject_approval, request_command_approval,
    request_tool_approval, transition_and_save, ApprovalStep, CommandProposalStep, cancel_run,
    record_change_set_execution, record_change_set_finish, record_change_set_verification,
    start_change_set_execution, ChangeSetNext,
};
use runory_agent::facts::{FactProvenance, WorkingFact, WorkingFactSet};
use runory_agent::repository::{
    InMemoryAgentEventRepository, InMemoryAgentRunStore, InMemoryApprovalStore, InMemoryCheckpointStore,
    InMemoryPendingToolCallStore,
};
use runory_agent::run::AgentRun;
use runory_agent::state::AgentRunStateV2;

/// A fresh random identifier.
fn new_id() -> u128 {
    uuid::Uuid::new_v4().as_u128()
}

fn call() -> PreparedToolCall {
    PreparedToolCall {
        tool_call_id: new_id(),
        tool_name: "system.disk_usage".into(),
        reason_summary: "Collecting evidence".into(),
        invocation: "{}".into(),
    }
}

fn command(value: &str) -> PreparedCommandProposal {
    let (risk, mutability) = classify_command(value);
    PreparedCommandProposal {
        command_id: new_id(),
        command: value.into(),
        reason_summary: "Inspect the server".into(),
        observation_analysis: None,
        risk,
        mutability,
    }
}

/// A run waiting on an approval, with its stores.
struct Waiting {
    run: AgentRun,
    events: InMemoryAgentEventRepository,
    runs: InMemoryAgentRunStore,
    approvals: InMemoryApprovalStore,
    pending: InMemoryPendingToolCallStore,
    metrics: RunMetrics,
}

fn waiting() -> Waiting {
    let mut events = InMemoryAgentEventRepository::new();
    let mut runs = InMemoryAgentRunStore::new();
    let mut run = AgentRun::with_created_at(new_id(), 1_000);
    open_run(&mut run, "goal".into(), &mut events, &mut runs, 1).expect("open");
    for next in [AgentRunStateV2::Running, AgentRunStateV2::Reasoning, AgentRunStateV2::AwaitingApproval] {
        transition_and_save(&mut run, &mut runs, next).expect("move");
    }
    let metrics = RunMetrics::new(run.id());
    Waiting {
        run,
        events,
        runs,
        approvals: InMemoryApprovalStore::new(),
        pending: InMemoryPendingToolCallStore::new(),
        metrics,
    }
}

fn reject(w: &mut Waiting, approval_id: u128) -> Result<runory_agent::reasoner::Observation, AgentControllerError> {
    reject_approval(
        &mut w.run,
        &mut w.events,
        &mut w.runs,
        &mut w.approvals,
        &mut w.pending,
        &mut w.metrics,
        approval_id,
        5,
    )
}

fn approve(
    w: &mut Waiting,
    approval_id: u128,
    targets: &[u128],
    session_id: Option<u128>,
    policy_matches: bool,
) -> Result<ApprovalStep, AgentControllerError> {
    approve_approval(
        &mut w.run,
        &mut w.events,
        &mut w.runs,
        &mut w.approvals,
        &mut w.pending,
        &mut w.metrics,
        approval_id,
        targets,
        session_id,
        policy_matches,
        5,
    )
}

fn recorded_since(w: &Waiting, seq: u64) -> Vec<AgentEvent> {
    w.events.events_after(w.run.id(), seq - 1).expect("events").into_iter().map(|e| e.event).collect()
}

#[test]
fn rejecting_a_tool_call_approval_becomes_an_observation_and_reasoning_resumes() {
    let mut w = waiting();
    let target = new_id();
    let pending_call = call();
    let approval = ApprovalRequest::bind(w.run.id(), &pending_call, vec![target], "R1".into(), 1, "h".into());
    let approval_id = approval.id;
    let tool_call_id = pending_call.tool_call_id;
    w.pending.put(pending_call).expect("put");
    w.approvals.insert(approval).expect("insert");
    let seq = w.run.peek_next_event_seq();

    let observation = reject(&mut w, approval_id).expect("reject");
    assert_eq!(observation.summary, "User rejected system.disk_usage");
    assert_eq!(observation.tool_call_id, Some(tool_call_id));
    assert!(!observation.success);
    assert_eq!(w.run.state(), AgentRunStateV2::Reasoning);
    assert_eq!(w.runs.get(w.run.id()).expect("get").expect("stored").state(), AgentRunStateV2::Reasoning);
    assert_eq!(w.approvals.get(approval_id).expect("get").expect("stored").state, ApprovalRequestState::Rejected);
    assert!(w.pending.get(tool_call_id).expect("get").is_none());
    assert_eq!(w.metrics.rejections, 1);
    let recorded = recorded_since(&w, seq);
    assert_eq!(recorded.len(), 3);
    assert!(matches!(recorded[0], AgentEvent::ApprovalRejected { approval_id: id } if id == approval_id));
    assert!(matches!(&recorded[1], AgentEvent::ObservationAdded { summary } if summary == "User rejected system.disk_usage"));
    assert!(matches!(recorded[2], AgentEvent::RunResumed));
}

#[test]
fn rejecting_a_command_approval_drops_the_pending_command() {
    let mut w = waiting();
    let proposed = command("systemctl restart nginx");
    let approval = ApprovalRequest::bind_command(w.run.id(), &proposed, vec![], new_id(), 1, "h".into());
    let approval_id = approval.id;
    let command_id = proposed.command_id;
    w.pending.put_command(proposed).expect("put");
    w.approvals.insert(approval).expect("insert");

    let observation = reject(&mut w, approval_id).expect("reject");
    assert_eq!(observation.summary, "User rejected the proposed command");
    assert_eq!(observation.detail.as_deref(), Some("Rejected command: systemctl restart nginx"));
    assert_eq!(observation.tool_name.as_deref(), Some("agent.command"));
    assert!(w.pending.get_command(command_id).expect("get").is_none());
    assert_eq!(w.metrics.rejections, 1);
    assert_eq!(w.run.state(), AgentRunStateV2::Reasoning);
}

#[test]
fn rejecting_a_change_set_approval_names_the_change_set_and_is_not_counted() {
    let mut w = waiting();
    let change_set = uuid::Uuid::new_v4();
    let approval = ApprovalRequest::bind_change_set(
        w.run.id(),
        new_id(),
        change_set.as_u128(),
        2,
        "Restart nginx",
        vec![],
        "high".into(),
        1,
        "p".into(),
        None,
    );
    let approval_id = approval.id;
    w.approvals.insert(approval).expect("insert");

    let observation = reject(&mut w, approval_id).expect("reject");
    assert_eq!(observation.summary, format!("User rejected ChangeSet {change_set}"));
    assert_eq!(observation.tool_name.as_deref(), Some("Restart nginx"));
    assert_eq!(w.metrics.rejections, 0);
    assert_eq!(w.run.state(), AgentRunStateV2::Reasoning);
}

#[test]
fn a_rejection_is_refused_unless_the_run_waits_on_a_known_approval() {
    let mut w = waiting();
    let pending_call = call();
    let approval = ApprovalRequest::bind(w.run.id(), &pending_call, vec![], "R1".into(), 1, "h".into());
    let approval_id = approval.id;
    w.approvals.insert(approval).expect("insert");
    let seq = w.run.peek_next_event_seq();

    assert!(matches!(reject(&mut w, new_id()), Err(AgentControllerError::ApprovalNotFound)));
    // The call it was bound to is no longer pending.
    assert!(matches!(reject(&mut w, approval_id), Err(AgentControllerError::ApprovalNotFound)));
    assert_eq!(w.approvals.get(approval_id).expect("get").expect("stored").state, ApprovalRequestState::Pending);
    assert_eq!(w.run.peek_next_event_seq(), seq);

    w.pending.put(pending_call).expect("put");
    transition_and_save(&mut w.run, &mut w.runs, AgentRunStateV2::Reasoning).expect("move");
    assert!(matches!(reject(&mut w, approval_id), Err(AgentControllerError::NotAwaitingApproval)));
    assert_eq!(w.metrics.rejections, 0);
}

#[test]
fn approving_a_valid_call_grants_it_and_hands_it_back_to_run() {
    let mut w = waiting();
    let target = new_id();
    let pending_call = call();
    let approval = ApprovalRequest::bind(w.run.id(), &pending_call, vec![target], "R1".into(), 1, "h".into());
    let approval_id = approval.id;
    let tool_call_id = pending_call.tool_call_id;
    w.pending.put(pending_call).expect("put");
    w.approvals.insert(approval).expect("insert");
    let seq = w.run.peek_next_event_seq();

    match approve(&mut w, approval_id, &[target], None, true).expect("approve") {
        ApprovalStep::RunCall(c) => assert_eq!(c.tool_call_id, tool_call_id),
        _ => panic!("expected the call to run"),
    }
    assert_eq!(w.run.state(), AgentRunStateV2::Acting);
    assert_eq!(w.approvals.get(approval_id).expect("get").expect("stored").state, ApprovalRequestState::Granted);
    assert!(w.pending.get(tool_call_id).expect("get").is_none());
    let recorded = recorded_since(&w, seq);
    assert_eq!(recorded.len(), 2);
    assert!(matches!(recorded[0], AgentEvent::ApprovalGranted { approval_id: id } if id == approval_id));
    assert!(matches!(recorded[1], AgentEvent::ToolStarted { tool_call_id: id } if id == tool_call_id));
}

#[test]
fn approving_after_a_policy_change_invalidates_and_resumes_reasoning() {
    let mut w = waiting();
    let target = new_id();
    let pending_call = call();
    let approval = ApprovalRequest::bind(w.run.id(), &pending_call, vec![target], "R1".into(), 1, "h".into());
    let approval_id = approval.id;
    let tool_call_id = pending_call.tool_call_id;
    w.pending.put(pending_call).expect("put");
    w.approvals.insert(approval).expect("insert");
    let seq = w.run.peek_next_event_seq();

    let observation = match approve(&mut w, approval_id, &[target], None, false).expect("approve") {
        ApprovalStep::Resumed(o) => o,
        _ => panic!("expected the approval to be invalidated"),
    };
    assert_eq!(observation.summary, "Approval invalidated (APPROVAL_POLICY_CHANGED) for system.disk_usage");
    assert_eq!(observation.error_code.as_deref(), Some("APPROVAL_POLICY_CHANGED"));
    assert_eq!(w.run.state(), AgentRunStateV2::Reasoning);
    assert_eq!(w.approvals.get(approval_id).expect("get").expect("stored").state, ApprovalRequestState::Invalidated);
    assert!(w.pending.get(tool_call_id).expect("get").is_none());
    assert_eq!(w.metrics.recovery_attempts, 1);
    let recorded = recorded_since(&w, seq);
    assert_eq!(recorded.len(), 3);
    assert!(matches!(&recorded[0],
        AgentEvent::ApprovalInvalidated { approval_id: id, reason_code }
            if *id == approval_id && reason_code == "APPROVAL_POLICY_CHANGED"));
    assert!(matches!(recorded[2], AgentEvent::RunResumed));
}

#[test]
fn approving_a_call_for_other_targets_invalidates_it() {
    let mut w = waiting();
    let pending_call = call();
    let approval = ApprovalRequest::bind(w.run.id(), &pending_call, vec![new_id()], "R1".into(), 1, "h".into());
    let approval_id = approval.id;
    w.pending.put(pending_call).expect("put");
    w.approvals.insert(approval).expect("insert");

    match approve(&mut w, approval_id, &[new_id()], None, true).expect("approve") {
        ApprovalStep::Resumed(o) => assert_eq!(o.error_code.as_deref(), Some("APPROVAL_TARGETS_CHANGED")),
        _ => panic!("expected the approval to be invalidated"),
    }
}

#[test]
fn approving_a_command_needs_the_session_it_was_bound_to() {
    let mut w = waiting();
    let session = new_id();
    let proposed = command("df -h");
    let approval = ApprovalRequest::bind_command(w.run.id(), &proposed, vec![], session, 1, "h".into());
    let approval_id = approval.id;
    let command_id = proposed.command_id;
    w.pending.put_command(proposed).expect("put");
    w.approvals.insert(approval).expect("insert");

    assert!(matches!(approve(&mut w, approval_id, &[], None, true), Err(AgentControllerError::MissingSession)));
    assert_eq!(w.approvals.get(approval_id).expect("get").expect("stored").state, ApprovalRequestState::Pending);

    let seq = w.run.peek_next_event_seq();
    match approve(&mut w, approval_id, &[], Some(session), true).expect("approve") {
        ApprovalStep::RunCommand(c) => assert_eq!(c.command, "df -h"),
        _ => panic!("expected the command to run"),
    }
    assert_eq!(w.run.state(), AgentRunStateV2::Acting);
    assert!(w.pending.get_command(command_id).expect("get").is_none());
    let recorded = recorded_since(&w, seq);
    assert!(matches!(recorded[1], AgentEvent::CommandStarted { command_id: id } if id == command_id));
}

#[test]
fn approving_a_command_from_another_session_invalidates_it() {
    let mut w = waiting();
    let proposed = command("df -h");
    let approval = ApprovalRequest::bind_command(w.run.id(), &proposed, vec![], new_id(), 1, "h".into());
    let approval_id = approval.id;
    w.pending.put_command(proposed).expect("put");
    w.approvals.insert(approval).expect("insert");

    match approve(&mut w, approval_id, &[], Some(new_id()), true).expect("approve") {
        ApprovalStep::Resumed(o) => {
            assert_eq!(o.summary, "Command approval invalidated (APPROVAL_SESSION_CHANGED)");
        },
        _ => panic!("expected the approval to be invalidated"),
    }
    assert_eq!(w.run.state(), AgentRunStateV2::Reasoning);
    assert_eq!(w.metrics.recovery_attempts, 0);
}

#[test]
fn approving_a_change_set_records_the_approved_version() {
    let mut w = waiting();
    let target = new_id();
    let change_set_id = new_id();
    let approval = ApprovalRequest::bind_change_set(
        w.run.id(),
        new_id(),
        change_set_id,
        4,
        "Restart nginx",
        vec![target],
        "high".into(),
        1,
        "p".into(),
        None,
    );
    let approval_id = approval.id;
    w.approvals.insert(approval).expect("insert");
    let seq = w.run.peek_next_event_seq();

    match approve(&mut w, approval_id, &[target], None, true).expect("approve") {
        ApprovalStep::ApproveChangeSet { change_set_id: id, version } => {
            assert_eq!(id, change_set_id);
            assert_eq!(version, 4);
        },
        _ => panic!("expected the change set to be approved"),
    }
    assert_eq!(w.run.state(), AgentRunStateV2::AwaitingApproval);
    let recorded = recorded_since(&w, seq);
    assert!(matches!(recorded[1], AgentEvent::ChangeSetApproved { change_set_id: id, version: 4 } if id == change_set_id));
}

#[test]
fn approving_a_change_set_for_other_targets_invalidates_it() {
    let mut w = waiting();
    let approval = ApprovalRequest::bind_change_set(
        w.run.id(),
        new_id(),
        new_id(),
        4,
        "Restart nginx",
        vec![new_id()],
        "high".into(),
        1,
        "p".into(),
        None,
    );
    let approval_id = approval.id;
    w.approvals.insert(approval).expect("insert");

    match approve(&mut w, approval_id, &[new_id()], None, true).expect("approve") {
        ApprovalStep::Resumed(o) => {
            assert_eq!(o.summary, "ChangeSet approval invalidated (APPROVAL_TARGETS_CHANGED)");
            assert_eq!(o.tool_name.as_deref(), Some("Restart nginx"));
        },
        _ => panic!("expected the approval to be invalidated"),
    }
    assert_eq!(w.run.state(), AgentRunStateV2::Reasoning);
}

fn finished(command_id: u128, success: bool, exit_code: Option<u32>) -> CommandOutcome {
    CommandOutcome {
        command_id,
        success,
        exit_code,
        stdout: "ok".into(),
        stderr: String::new(),
        error_code: if success { None } else { Some("COMMAND_EXIT_NONZERO".into()) },
        duration_ms: 12,
        cancelled: false,
    }
}

#[test]
fn a_command_result_is_recorded_with_its_metrics_and_verification_duty() {
    let mut w = waiting();
    transition_and_save(&mut w.run, &mut w.runs, AgentRunStateV2::Acting).expect("acting");
    let restart = command("systemctl restart nginx");
    let seq = w.run.peek_next_event_seq();
    let (observation, pending) = record_command_result(
        &mut w.run,
        &mut w.events,
        &mut w.runs,
        &mut w.metrics,
        &restart,
        &finished(restart.command_id, true, Some(0)),
        false,
        40,
        9,
    )
    .expect("record");
    assert!(pending, "a mutating command must be verified by a read");
    assert_eq!(observation.summary, "Command completed with exit code 0");
    assert_eq!(w.metrics.time_to_first_observation_ms, Some(40));
    let recorded = recorded_since(&w, seq);
    assert!(matches!(&recorded[0],
        AgentEvent::CommandCompleted { command_id, exit_code: Some(0), duration_ms: 12, .. } if *command_id == restart.command_id));

    let read = command("systemctl status nginx");
    let (failed, still_pending) = record_command_result(
        &mut w.run,
        &mut w.events,
        &mut w.runs,
        &mut w.metrics,
        &read,
        &finished(read.command_id, false, Some(3)),
        pending,
        80,
        10,
    )
    .expect("record");
    assert!(still_pending, "a failed read does not verify anything");
    assert_eq!(failed.summary, "Command failed with exit code 3");
    assert_eq!(w.metrics.tool_failures, 1);
    assert_eq!(w.metrics.recovery_attempts, 1);
    assert_eq!(w.metrics.time_to_first_observation_ms, Some(40));
    let recorded = recorded_since(&w, seq + 1);
    assert!(matches!(&recorded[0],
        AgentEvent::CommandFailed { error_code, .. } if error_code == "COMMAND_EXIT_NONZERO"));

    let (_, verified) = record_command_result(
        &mut w.run,
        &mut w.events,
        &mut w.runs,
        &mut w.metrics,
        &read,
        &finished(read.command_id, true, Some(0)),
        still_pending,
        90,
        11,
    )
    .expect("record");
    assert!(!verified, "a successful read verifies the change");
}

fn budget() -> BudgetCheckpoint {
    BudgetCheckpoint { rounds_used: 2, tool_calls_used: 1, elapsed_ms: 300 }
}

/// A run about to act, with its stores.
fn acting() -> Waiting {
    let mut w = waiting();
    transition_and_save(&mut w.run, &mut w.runs, AgentRunStateV2::Acting).expect("acting");
    w
}

#[test]
fn a_tool_call_requiring_approval_interrupts_the_run_until_approved() {
    let mut w = acting();
    let mut checkpoints = InMemoryCheckpointStore::new();
    let target = new_id();
    let targets = vec![target];
    let requested = call();
    let tool_call_id = requested.tool_call_id;
    let seq = w.run.peek_next_event_seq();
    let outcome = request_tool_approval(
        &mut w.run,
        &mut w.events,
        &mut w.runs,
        &mut w.approvals,
        &mut w.pending,
        &mut w.metrics,
        &mut checkpoints,
        requested,
        &targets,
        "high".into(),
        3,
        "policy-hash".into(),
        budget(),
        "[]".into(),
        7,
    )
    .expect("request");
    let approval_id = match outcome {
        RunOutcome::AwaitingApproval { approval_id, tool_call_id: id } => {
            assert_eq!(id, tool_call_id);
            approval_id
        },
        _ => panic!("expected the run to wait for approval"),
    };
    assert_eq!(w.run.state(), AgentRunStateV2::AwaitingApproval);
    assert_eq!(w.metrics.approval_interrupts, 1);
    let stored = w.approvals.get(approval_id).expect("get").expect("stored");
    assert_eq!(stored.state, ApprovalRequestState::Pending);
    assert_eq!(stored.tool_call_id, tool_call_id);
    assert_eq!(stored.target_ids, targets);
    assert_eq!(stored.policy_version, 3);
    assert!(w.pending.get(tool_call_id).expect("get").is_some());
    let recorded = recorded_since(&w, seq);
    assert_eq!(recorded.len(), 1);
    assert!(matches!(recorded[0], AgentEvent::ToolApprovalRequired { tool_call_id: id } if id == tool_call_id));
    let checkpoint = checkpoints.get(w.run.id()).expect("get").expect("saved");
    assert_eq!(checkpoint.state, AgentRunStateV2::AwaitingApproval);
    assert_eq!(checkpoint.event_cursor, seq);
    assert!(matches!(checkpoint.pending_interrupt, Some(PendingInterruptRef::Approval { approval_id: id }) if id == approval_id));
    assert_eq!(checkpoint.budget, budget());
    assert_eq!(checkpoint.fact_snapshot, "[]");

    match approve(&mut w, approval_id, &targets, None, true).expect("approve") {
        ApprovalStep::RunCall(c) => assert_eq!(c.tool_call_id, tool_call_id),
        _ => panic!("expected the approved call to run"),
    }
    assert_eq!(w.run.state(), AgentRunStateV2::Acting);
}

fn propose(
    w: &mut Waiting,
    checkpoints: &mut InMemoryCheckpointStore,
    proposed: PreparedCommandProposal,
    authorization: CommandAuthorization,
    session_id: Option<u128>,
) -> Result<CommandProposalStep, AgentControllerError> {
    request_command_approval(
        &mut w.run,
        &mut w.events,
        &mut w.runs,
        &mut w.approvals,
        &mut w.pending,
        checkpoints,
        proposed,
        authorization,
        &vec![],
        session_id,
        budget(),
        "[]".into(),
        8,
    )
}

fn require_approval() -> CommandAuthorization {
    CommandAuthorization::RequireApproval { risk: "high".into(), policy_version: 1, policy_hash: "h".into() }
}

#[test]
fn a_blocked_command_proposal_becomes_an_observation() {
    let mut w = waiting();
    transition_and_save(&mut w.run, &mut w.runs, AgentRunStateV2::Reasoning).expect("reasoning");
    let mut checkpoints = InMemoryCheckpointStore::new();
    let proposed = command("rm -rf /var/cache");
    let seq = w.run.peek_next_event_seq();
    let blocked = CommandAuthorization::Blocked { reason_code: "POLICY_DENY".into() };
    match propose(&mut w, &mut checkpoints, proposed, blocked, Some(new_id())).expect("propose") {
        CommandProposalStep::Blocked(o) => {
            assert_eq!(o.summary, "Command proposal blocked by policy (POLICY_DENY)");
            assert_eq!(o.error_code.as_deref(), Some("POLICY_DENY"));
        },
        _ => panic!("expected the proposal to be blocked"),
    }
    assert_eq!(w.run.state(), AgentRunStateV2::Reasoning);
    let recorded = recorded_since(&w, seq);
    assert_eq!(recorded.len(), 3);
    assert!(matches!(&recorded[0], AgentEvent::ProgressUpdated { summary } if summary == "Inspect the server"));
    assert!(matches!(&recorded[1],
        AgentEvent::CommandProposed { command, risk, mutability, .. }
            if command == "rm -rf /var/cache" && risk == "critical" && mutability == "mutating"));
    assert!(matches!(recorded[2], AgentEvent::ObservationAdded { .. }));
    assert!(checkpoints.get(w.run.id()).expect("get").is_none());
}

#[test]
fn a_command_proposal_needs_a_session_to_bind_its_approval_to() {
    let mut w = waiting();
    transition_and_save(&mut w.run, &mut w.runs, AgentRunStateV2::Reasoning).expect("reasoning");
    let mut checkpoints = InMemoryCheckpointStore::new();
    let seq = w.run.peek_next_event_seq();
    assert!(matches!(
        propose(&mut w, &mut checkpoints, command("df -h"), require_approval(), None),
        Err(AgentControllerError::MissingSession)
    ));
    assert_eq!(w.run.state(), AgentRunStateV2::Reasoning);
    assert_eq!(recorded_since(&w, seq).len(), 2);
}

#[test]
fn a_command_proposal_waits_for_approval_bound_to_its_session() {
    let mut w = waiting();
    transition_and_save(&mut w.run, &mut w.runs, AgentRunStateV2::Reasoning).expect("reasoning");
    let mut checkpoints = InMemoryCheckpointStore::new();
    let session = new_id();
    let proposed = command("df -h");
    let command_id = proposed.command_id;
    let seq = w.run.peek_next_event_seq();
    let approval_id = match propose(&mut w, &mut checkpoints, proposed, require_approval(), Some(session))
        .expect("propose")
    {
        CommandProposalStep::Interrupted(RunOutcome::AwaitingApproval { approval_id, tool_call_id }) => {
            assert_eq!(tool_call_id, command_id);
            approval_id
        },
        _ => panic!("expected the run to wait for approval"),
    };
    assert_eq!(w.run.state(), AgentRunStateV2::AwaitingApproval);
    let recorded = recorded_since(&w, seq);
    assert!(matches!(recorded[2],
        AgentEvent::CommandApprovalRequired { approval_id: a, command_id: c } if a == approval_id && c == command_id));
    assert!(w.pending.get_command(command_id).expect("get").is_some());
    assert_eq!(checkpoints.get(w.run.id()).expect("get").expect("saved").event_cursor, seq + 2);

    match approve(&mut w, approval_id, &[], Some(session), true).expect("approve") {
        ApprovalStep::RunCommand(c) => assert_eq!(c.command_id, command_id),
        _ => panic!("expected the approved command to run"),
    }
}

/// Proposes a command, approves it in the session and records its result;
/// returns the live verification duty afterwards.
fn run_command(
    w: &mut Waiting,
    checkpoints: &mut InMemoryCheckpointStore,
    text: &str,
    session: u128,
    success: bool,
    pending_before: bool,
) -> bool {
    transition_and_save(&mut w.run, &mut w.runs, AgentRunStateV2::Reasoning).expect("reasoning");
    let proposed = command(text);
    let approval_id = match propose(w, checkpoints, proposed, require_approval(), Some(session)).expect("propose") {
        CommandProposalStep::Interrupted(RunOutcome::AwaitingApproval { approval_id, .. }) => approval_id,
        _ => panic!("expected the run to wait for approval"),
    };
    let approved = match approve(w, approval_id, &[], Some(session), true).expect("approve") {
        ApprovalStep::RunCommand(c) => c,
        _ => panic!("expected the command to run"),
    };
    let (_, pending) = record_command_result(
        &mut w.run,
        &mut w.events,
        &mut w.runs,
        &mut w.metrics,
        &approved,
        &finished(approved.command_id, success, Some(if success { 0 } else { 1 })),
        pending_before,
        10,
        12,
    )
    .expect("record");
    transition_and_save(&mut w.run, &mut w.runs, AgentRunStateV2::Observing).expect("observing");
    pending
}

#[test]
fn replaying_the_log_recovers_the_live_verification_duty() {
    let mut w = waiting();
    let mut checkpoints = InMemoryCheckpointStore::new();
    let session = new_id();
    let replayed = |w: &Waiting| {
        let log = w.events.events_after(w.run.id(), 0).expect("events");
        extract_pending_command_verification(&log)
    };

    let pending = run_command(&mut w, &mut checkpoints, "systemctl restart nginx", session, true, false);
    assert!(pending);
    assert_eq!(replayed(&w), pending);

    let pending = run_command(&mut w, &mut checkpoints, "systemctl status nginx", session, false, pending);
    assert!(pending);
    assert_eq!(replayed(&w), pending);

    let pending = run_command(&mut w, &mut checkpoints, "systemctl status nginx", session, true, pending);
    assert!(!pending);
    assert_eq!(replayed(&w), pending);
}

fn target_fact(target: u128) -> WorkingFact {
    WorkingFact {
        id: new_id(),
        key: "service.nginx".into(),
        value: "active".into(),
        source_event_seq: Some(1),
        source_tool: Some("service.status".into()),
        tool_call_id: Some(new_id()),
        target_id: Some(target),
        observed_at_epoch_ms: 1,
        ttl_ms: 30_000,
        provenance: FactProvenance::ToolObservation,
    }
}

/// Approves a change set and starts its execution; returns its id.
fn executing(w: &mut Waiting, target: u128) -> u128 {
    let change_set_id = new_id();
    let approval = ApprovalRequest::bind_change_set(
        w.run.id(), new_id(), change_set_id, 1, "Restart nginx", vec![target], "high".into(), 1, "p".into(), None,
    );
    let approval_id = approval.id;
    w.approvals.insert(approval).expect("insert");
    match approve(w, approval_id, &[target], None, true).expect("approve") {
        ApprovalStep::ApproveChangeSet { .. } => {},
        _ => panic!("expected the change set to be approved"),
    }
    start_change_set_execution(&mut w.run, &mut w.events, &mut w.runs, change_set_id, 9).expect("start");
    assert_eq!(w.run.state(), AgentRunStateV2::ExecutingChange);
    change_set_id
}

#[test]
fn a_change_set_that_fails_verification_is_rolled_back_and_reasoning_resumes() {
    let mut w = waiting();
    let target = new_id();
    let other = new_id();
    let mut facts = WorkingFactSet::new();
    facts.upsert_many(vec![target_fact(target), target_fact(other)]);
    let change_set_id = executing(&mut w, target);
    let seq = w.run.peek_next_event_seq();

    let next = record_change_set_execution(&mut w.run, &mut w.events, &mut w.runs, change_set_id, true, 9)
        .expect("executed");
    assert_eq!(next, ChangeSetNext::Verify);
    assert_eq!(w.run.state(), AgentRunStateV2::Verifying);
    let next = record_change_set_verification(&mut w.run, &mut w.events, &mut w.runs, &mut w.metrics, true, false, 9)
        .expect("verified");
    assert_eq!(next, ChangeSetNext::Rollback);
    assert_eq!(w.run.state(), AgentRunStateV2::RollingBack);
    assert_eq!(w.metrics.verification_result, Some(false));
    let observation = record_change_set_finish(
        &mut w.run, &mut w.events, &mut w.runs, &mut w.metrics, &mut facts, &[target], change_set_id, false, Some(true), 9,
    )
    .expect("finished");
    assert_eq!(observation.summary, format!("ChangeSet {} failed verification", uuid::Uuid::from_u128(change_set_id)));
    assert_eq!(observation.error_code.as_deref(), Some("CHANGESET_EXECUTION_FAILED"));
    assert_eq!(observation.tool_name.as_deref(), Some("change_set"));
    assert!(!observation.success);
    assert_eq!(w.metrics.rollback_result, Some(true));
    assert_eq!(w.run.state(), AgentRunStateV2::Reasoning);
    assert_eq!(facts.len(), 1);
    assert_eq!(facts.all()[0].target_id, Some(other));
    let recorded = recorded_since(&w, seq);
    assert_eq!(recorded.len(), 7);
    assert!(matches!(recorded[0], AgentEvent::ChangeSetExecutionCompleted { success: true, .. }));
    assert!(matches!(recorded[1], AgentEvent::VerificationStarted));
    assert!(matches!(recorded[2], AgentEvent::VerificationCompleted { success: false }));
    assert!(matches!(recorded[3], AgentEvent::RollbackStarted));
    assert!(matches!(recorded[4], AgentEvent::RollbackCompleted { success: true }));
    assert!(matches!(recorded[5], AgentEvent::ObservationAdded { .. }));
    assert!(matches!(recorded[6], AgentEvent::RunResumed));
}

#[test]
fn a_verified_change_set_finishes_without_rollback() {
    let mut w = waiting();
    let target = new_id();
    let mut facts = WorkingFactSet::new();
    let change_set_id = executing(&mut w, target);
    assert_eq!(
        record_change_set_execution(&mut w.run, &mut w.events, &mut w.runs, change_set_id, true, 9).expect("executed"),
        ChangeSetNext::Verify
    );
    assert_eq!(
        record_change_set_verification(&mut w.run, &mut w.events, &mut w.runs, &mut w.metrics, true, true, 9)
            .expect("verified"),
        ChangeSetNext::Finish(true)
    );
    let observation = record_change_set_finish(
        &mut w.run, &mut w.events, &mut w.runs, &mut w.metrics, &mut facts, &[target], change_set_id, true, None, 9,
    )
    .expect("finished");
    assert_eq!(observation.summary, format!("ChangeSet {} verified successfully", uuid::Uuid::from_u128(change_set_id)));
    assert!(observation.error_code.is_none());
    assert_eq!(w.metrics.rollback_result, None);
    assert_eq!(w.run.state(), AgentRunStateV2::Reasoning);
}

#[test]
fn a_change_set_that_did_not_commit_is_not_verified_or_rolled_back() {
    let mut w = waiting();
    let target = new_id();
    let change_set_id = executing(&mut w, target);
    assert_eq!(
        record_change_set_execution(&mut w.run, &mut w.events, &mut w.runs, change_set_id, false, 9).expect("executed"),
        ChangeSetNext::Finish(false)
    );
    assert_eq!(
        record_change_set_verification(&mut w.run, &mut w.events, &mut w.runs, &mut w.metrics, false, false, 9)
            .expect("recorded"),
        ChangeSetNext::Finish(false)
    );
    assert_eq!(w.run.state(), AgentRunStateV2::Verifying);
}

#[test]
fn steps_of_a_run_the_store_does_not_know_are_refused() {
    let mut w = waiting();
    let mut stranger = AgentRun::with_created_at(new_id(), 1_000);
    let seq = stranger.peek_next_event_seq();
    assert!(matches!(
        cancel_run(&mut stranger, &mut w.events, &mut w.runs, 3),
        Err(AgentControllerError::Store(runory_agent::repository::AgentStoreError::RunNotFound))
    ));
    assert_eq!(stranger.state(), AgentRunStateV2::Created);
    assert_eq!(stranger.peek_next_event_seq(), seq);
}
