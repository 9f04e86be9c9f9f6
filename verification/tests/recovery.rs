use runory_agent::checkpoint::{AgentCheckpoint, BudgetCheckpoint};
use runory_agent::event::{AgentEvent, AgentEventEnvelope};
use runory_agent::facts::{FactProvenance, WorkingFact, WorkingFactSet};
use runory_agent::fleet_facts::{
    comparison_kind, comparison_status, FleetComparisonKind, FleetComparisonStatus,
    FleetComparisonValue,
};
use runory_agent::persistence::{
    approval_state_name, checked_u64, checked_usize, parse_approval_state, parse_state,
    recover_on_startup_state, resumable_runs, state_name, RecoveredRun,
};
use runory_agent::recovery::{
    checkpoint_budget, extract_goal, extract_loop_state, extract_pending_command_verification,
};
use runory_agent::approval::ApprovalRequestState;
use runory_agent::repository::AgentStoreError;
use runory_agent::run::AgentRun;
use runory_agent::state::AgentRunStateV2 as S;

/// A fresh random identifier.
fn new_id() -> u128 {
    uuid::Uuid::new_v4().as_u128()
}

fn envelope(run_id: u128, seq: u64, event: AgentEvent) -> AgentEventEnvelope {
    AgentEventEnvelope {
        run_id,
        seq,
        timestamp_epoch_ms: seq,
        event,
    }
}

#[test]
fn recovery_preserves_mutating_command_verification_requirement() {
    let run_id = new_id();
    let write_id = new_id();
    let read_id = new_id();
    let mut events = vec![
        envelope(
            run_id,
            1,
            AgentEvent::CommandProposed {
                command_id: write_id,
                command: "systemctl restart nginx".into(),
                reason: "Restart nginx".into(),
                risk: "high".into(),
                mutability: "mutating".into(),
            },
        ),
        envelope(
            run_id,
            2,
            AgentEvent::CommandCompleted {
                command_id: write_id,
                exit_code: Some(0),
                output_preview: String::new(),
                duration_ms: 1,
            },
        ),
    ];
    assert!(extract_pending_command_verification(&events));

    events.extend([
        envelope(
            run_id,
            3,
            AgentEvent::CommandProposed {
                command_id: read_id,
                command: "systemctl is-active nginx".into(),
                reason: "Verify nginx".into(),
                risk: "low".into(),
                mutability: "read".into(),
            },
        ),
        envelope(
            run_id,
            4,
            AgentEvent::CommandCompleted {
                command_id: read_id,
                exit_code: Some(0),
                output_preview: "active".into(),
                duration_ms: 1,
            },
        ),
    ]);
    assert!(!extract_pending_command_verification(&events));
}

#[test]
fn failed_unknown_commands_still_require_verification() {
    let run_id = new_id();
    let id = new_id();
    let events = vec![
        envelope(
            run_id,
            1,
            AgentEvent::CommandProposed {
                command_id: id,
                command: "deploy.sh".into(),
                reason: "Deploy".into(),
                risk: "medium".into(),
                mutability: "unknown".into(),
            },
        ),
        envelope(
            run_id,
            2,
            AgentEvent::CommandFailed {
                command_id: id,
                exit_code: None,
                output_preview: String::new(),
                error_code: "COMMAND_EXIT_NON_ZERO".into(),
                duration_ms: 1,
            },
        ),
    ];
    assert!(extract_pending_command_verification(&events));
    assert!(!extract_pending_command_verification(&[]));
}

#[test]
fn loop_state_is_rebuilt_from_the_event_log() {
    let run_id = new_id();
    let id = new_id();
    let events = vec![
        envelope(run_id, 1, AgentEvent::UserMessageAdded { content: "Check disk".into() }),
        envelope(
            run_id,
            2,
            AgentEvent::CommandProposed {
                command_id: id,
                command: "df -h".into(),
                reason: "Inspect".into(),
                risk: "low".into(),
                mutability: "read".into(),
            },
        ),
        envelope(
            run_id,
            3,
            AgentEvent::CommandCompleted {
                command_id: id,
                exit_code: Some(0),
                output_preview: "/dev/sda2 94%".into(),
                duration_ms: 5,
            },
        ),
        envelope(
            run_id,
            4,
            AgentEvent::CommandFailed {
                command_id: new_id(),
                exit_code: None,
                output_preview: "x".into(),
                error_code: "COMMAND_EXIT_NON_ZERO".into(),
                duration_ms: 5,
            },
        ),
        envelope(run_id, 5, AgentEvent::ObservationAdded { summary: "noted".into() }),
        envelope(run_id, 6, AgentEvent::AssistantMessageAdded { content: "Disk is full".into() }),
        envelope(run_id, 7, AgentEvent::UserMessageAdded { content: "Thanks".into() }),
        envelope(run_id, 8, AgentEvent::RunStarted),
    ];
    assert_eq!(extract_goal(&events).as_deref(), Some("Check disk"));
    let (observations, replies) = extract_loop_state(&events);
    assert_eq!(replies, vec!["Check disk".to_string(), "Thanks".to_string()]);
    assert_eq!(observations.len(), 4);
    assert_eq!(observations[0].summary, "Terminal command completed with exit code 0");
    assert_eq!(
        observations[0].detail.as_deref(),
        Some("Command: df -h\nOutput preview:\n/dev/sda2 94%")
    );
    assert_eq!(observations[0].tool_call_id, Some(id));
    assert!(observations[0].success);
    assert_eq!(observations[1].summary, "Command failed with exit code unavailable");
    assert_eq!(observations[1].detail.as_deref(), Some("Command: unknown\nOutput preview:\nx"));
    assert_eq!(observations[1].error_code.as_deref(), Some("COMMAND_EXIT_NON_ZERO"));
    assert!(!observations[1].success);
    assert_eq!(observations[2].summary, "noted");
    assert!(observations[2].detail.is_none());
    assert_eq!(observations[3].summary, "Previous assistant response (historical context)");
    assert_eq!(observations[3].detail.as_deref(), Some("Disk is full"));
    assert!(extract_goal(&events[1..4]).is_none());
}

#[test]
fn checkpoint_budget_defaults_to_nothing_consumed() {
    assert_eq!(
        checkpoint_budget(None),
        BudgetCheckpoint { rounds_used: 0, tool_calls_used: 0, elapsed_ms: 0 }
    );
    let checkpoint = AgentCheckpoint {
        run_id: new_id(),
        state: S::AwaitingUser,
        event_cursor: 3,
        pending_interrupt: None,
        budget: BudgetCheckpoint { rounds_used: 2, tool_calls_used: 1, elapsed_ms: 9 },
        target_ids: Vec::new(),
        fact_snapshot: "[]".into(),
        created_at_epoch_ms: 1,
    };
    assert_eq!(checkpoint_budget(Some(&checkpoint)).rounds_used, 2);
}

#[test]
fn serialization_uses_stable_snake_case_names() {
    assert_eq!(state_name(S::AwaitingApproval), "awaiting_approval");
    assert_eq!(state_name(S::AwaitingUser), "awaiting_user");
    assert_eq!(state_name(S::PlanningChange), "planning_change");
    assert_eq!(state_name(S::ExecutingChange), "executing_change");
    assert_eq!(state_name(S::RollingBack), "rolling_back");
}

#[test]
fn serialization_round_trips_every_state() {
    for state in S::ALL {
        assert_eq!(parse_state(state_name(state)), Ok(state));
    }
    assert_eq!(parse_state("Running"), Err(AgentStoreError::StoreCorrupt));
    for state in [
        ApprovalRequestState::Pending,
        ApprovalRequestState::Granted,
        ApprovalRequestState::Rejected,
        ApprovalRequestState::Invalidated,
    ] {
        assert_eq!(parse_approval_state(approval_state_name(state)), Ok(state));
    }
    assert_eq!(parse_approval_state("approved"), Err(AgentStoreError::StoreCorrupt));
}

#[test]
fn startup_recovery_keeps_interrupts_and_pauses_active_runs() {
    let id = new_id();
    assert_eq!(recover_on_startup_state(id, S::Completed), None);
    assert_eq!(
        recover_on_startup_state(id, S::AwaitingApproval),
        Some(RecoveredRun { run_id: id, state: S::AwaitingApproval, interrupted: false })
    );
    assert_eq!(
        recover_on_startup_state(id, S::Created),
        Some(RecoveredRun { run_id: id, state: S::Created, interrupted: false })
    );
    assert_eq!(
        recover_on_startup_state(id, S::ExecutingChange),
        Some(RecoveredRun { run_id: id, state: S::Paused, interrupted: true })
    );
    let runs = vec![
        AgentRun::from_persisted(1, S::Running, 1, 1, 1),
        AgentRun::from_persisted(2, S::Failed, 1, 1, 1),
        AgentRun::from_persisted(3, S::Paused, 1, 1, 1),
    ];
    let ids: Vec<u128> = resumable_runs(&runs).iter().map(|run| run.id()).collect();
    assert_eq!(ids, vec![1, 3]);
}

#[test]
fn stored_integers_are_checked() {
    assert_eq!(checked_u64(5), Ok(5));
    assert_eq!(checked_u64(-1), Err(AgentStoreError::StoreCorrupt));
    assert_eq!(checked_usize(7), Ok(7));
    assert_eq!(checked_usize(-7), Err(AgentStoreError::StoreCorrupt));
}

fn fact(target: u128, key: &str, value: &str, observed: u64) -> WorkingFact {
    WorkingFact {
        id: new_id(),
        key: key.into(),
        value: value.into(),
        source_event_seq: Some(1),
        source_tool: Some("service.status".into()),
        tool_call_id: Some(new_id()),
        target_id: Some(target),
        observed_at_epoch_ms: observed,
        ttl_ms: 10,
        provenance: FactProvenance::ToolObservation,
    }
}

#[test]
fn facts_upsert_by_target_and_key_and_writes_invalidate_target() {
    let target = new_id();
    let other = new_id();
    let mut set = WorkingFactSet::new();
    let changed = set.upsert_many(vec![
        fact(target, "service.nginx.status", "active", 0),
        fact(other, "service.nginx.status", "active", 0),
    ]);
    assert_eq!(changed, vec!["service.nginx.status".to_string(), "service.nginx.status".to_string()]);
    assert_eq!(set.len(), 2);
    assert!(set.upsert_many(vec![fact(target, "service.nginx.status", "active", 0)]).is_empty());
    assert_eq!(
        set.upsert_many(vec![fact(target, "service.nginx.status", "inactive", 0)]),
        vec!["service.nginx.status".to_string()]
    );
    assert_eq!(set.len(), 2);
    assert_eq!(set.all()[0].value, "inactive");
    assert_eq!(set.invalidate_target(target), 1);
    assert_eq!(set.len(), 1);
    assert_eq!(set.all()[0].target_id, Some(other));
    assert_eq!(set.invalidate_target(target), 0);
    assert!(!set.is_empty());
}

fn value(v: Option<&str>) -> FleetComparisonValue {
    FleetComparisonValue {
        target_id: new_id(),
        role: None,
        value: v.map(str::to_owned),
        evidence_id: None,
    }
}

#[test]
fn fleet_facts_are_compared_by_kind_and_value() {
    assert_eq!(comparison_kind("kernel"), Some(FleetComparisonKind::Version));
    assert_eq!(comparison_kind("os"), Some(FleetComparisonKind::Version));
    assert_eq!(comparison_kind("nginx.version"), Some(FleetComparisonKind::Version));
    assert_eq!(comparison_kind("service.mysql.status"), Some(FleetComparisonKind::Service));
    assert_eq!(comparison_kind("mysql.config_digest"), Some(FleetComparisonKind::ConfigurationDigest));
    assert_eq!(comparison_kind("disk.root.usage"), None);
    assert_eq!(comparison_status(&[value(Some("6.8")), value(Some("6.8"))]), FleetComparisonStatus::Uniform);
    assert_eq!(
        comparison_status(&[value(Some("active")), value(Some("inactive"))]),
        FleetComparisonStatus::Divergent
    );
    assert_eq!(comparison_status(&[value(Some("6.8")), value(None)]), FleetComparisonStatus::Missing);
    assert_eq!(comparison_status(&[]), FleetComparisonStatus::Uniform);
}
