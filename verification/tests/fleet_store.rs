use runory_agent::fleet_run::{
    FleetExecutionStrategyV2, FleetFailurePolicyV2, FleetRecoveryStateV2, FleetRunDraft,
    FleetRunStateV2, FleetRunV2, FleetStageDraft, FleetStageStateV2,
};
use runory_agent::fleet_store::{
    fleet_run_from_rows, fleet_run_rows, recover_fleet_row, recover_fleet_rows, parse_run_state, parse_stage_state, run_state_str,
};
use runory_agent::fleet_target::FleetTargetBinding;
use runory_agent::repository::AgentStoreError;

/// A fresh random identifier.
fn new_id() -> u128 {
    uuid::Uuid::new_v4().as_u128()
}

fn fleet_run() -> FleetRunV2 {
    let targets = (0..2)
        .map(|ordinal| FleetTargetBinding {
            profile_id: new_id(),
            session_id: new_id(),
            role: Some(format!("node-{ordinal}")),
            ordinal,
        })
        .collect::<Vec<_>>();
    FleetRunV2::draft(
        FleetRunDraft {
            production: true,
            failure_policy: FleetFailurePolicyV2::PauseForReview,
            stages: vec![FleetStageDraft {
                id: new_id(),
                summary: "Inspect secret-free summary".into(),
                target_ids: vec![targets[0].profile_id],
                depends_on: vec![],
                execution_strategy: FleetExecutionStrategyV2::Sequential,
                concurrency_limit: 1,
            }],
            targets,
        },
        10,
    )
    .expect("draft")
}

#[test]
fn fleet_metadata_round_trips_without_stage_summary() {
    let mut run = fleet_run();
    run.state = FleetRunStateV2::AwaitingApproval;
    let record = fleet_run_rows(&run).expect("rows");
    assert_eq!(record.header.state, "awaiting_approval");
    assert_eq!(record.header.failure_policy, "pause_for_review");
    assert_eq!(record.stages[0].execution_strategy, "sequential");
    let back = fleet_run_from_rows(&record.header, &record.targets, &record.stages, &record.children)
        .expect("decode");
    assert_eq!(back.id, run.id);
    assert_eq!(back.state, FleetRunStateV2::AwaitingApproval);
    assert_eq!(back.targets, run.targets);
    assert_eq!(back.graph_digest, run.graph_digest);
    assert_eq!(back.recovery_state, FleetRecoveryStateV2::MetadataOnly);
    assert!(back.stages[0].summary.is_empty());
    assert_eq!(back.stages[0].target_ids, run.stages[0].target_ids);
    assert_eq!(back.stages[0].state, run.stages[0].state);
}

#[test]
fn corrupt_fleet_graph_fails_closed() {
    let run = fleet_run();
    let mut record = fleet_run_rows(&run).expect("rows");
    record.header.graph_digest = "not-a-digest".into();
    assert_eq!(
        fleet_run_from_rows(&record.header, &record.targets, &record.stages, &record.children).map(|run| run.id),
        Err(AgentStoreError::StoreCorrupt)
    );
    let mut record = fleet_run_rows(&run).expect("rows");
    record.stages[0].state = "exploded".into();
    assert!(fleet_run_from_rows(&record.header, &record.targets, &record.stages, &record.children).is_err());
    let mut record = fleet_run_rows(&run).expect("rows");
    record.header.production = 2;
    assert!(fleet_run_from_rows(&record.header, &record.targets, &record.stages, &record.children).is_err());
    let mut record = fleet_run_rows(&run).expect("rows");
    record.stages[0].dependency_ids = format!("[\"{}\"]", record.stages[0].id);
    assert!(fleet_run_from_rows(&record.header, &record.targets, &record.stages, &record.children).is_err());
}

#[test]
fn inconsistent_runs_are_never_written() {
    let mut run = fleet_run();
    run.targets[1].ordinal = 7;
    assert_eq!(fleet_run_rows(&run).map(|record| record.header.id), Err(AgentStoreError::StoreCorrupt));
}

#[test]
fn fleet_state_names_are_stable() {
    assert_eq!(run_state_str(FleetRunStateV2::PausedForReview), "paused_for_review");
    assert_eq!(parse_run_state("rolled_back"), Ok(FleetRunStateV2::RolledBack));
    assert_eq!(parse_stage_state("rollback_pending"), Ok(FleetStageStateV2::RollbackPending));
    assert_eq!(parse_run_state("Draft"), Err(AgentStoreError::StoreCorrupt));
}

#[test]
fn fleet_rows_store_identifiers_as_uuid_text() {
    let run = fleet_run();
    let record = fleet_run_rows(&run).expect("rows");
    assert_eq!(record.header.id, uuid::Uuid::from_u128(run.id).to_string());
    assert_eq!(
        record.stages[0].target_ids,
        format!("[\"{}\"]", uuid::Uuid::from_u128(run.stages[0].target_ids[0]))
    );
    assert_eq!(record.stages[0].dependency_ids, "[]");
    let mut bad = fleet_run_rows(&run).expect("rows");
    bad.targets[0].profile_id = "not-a-uuid".into();
    assert_eq!(
        fleet_run_from_rows(&bad.header, &bad.targets, &bad.stages, &bad.children).map(|run| run.id),
        Err(AgentStoreError::StoreCorrupt)
    );
    let mut bad = fleet_run_rows(&run).expect("rows");
    bad.stages[0].target_ids = "{}".into();
    assert!(fleet_run_from_rows(&bad.header, &bad.targets, &bad.stages, &bad.children).is_err());
}

#[test]
fn startup_recovery_interrupts_in_flight_fleet_and_invalidates_live_payload() {
    let mut run = fleet_run();
    run.state = FleetRunStateV2::Executing;
    let record = fleet_run_rows(&run).expect("rows");
    let mut headers = vec![record.header];
    assert_eq!(recover_fleet_rows(&mut headers, 99), 1);
    let header = headers.pop().expect("header");
    let loaded = fleet_run_from_rows(&header, &record.targets, &record.stages, &record.children)
        .expect("load fleet");
    assert_eq!(loaded.state, FleetRunStateV2::Interrupted);
    assert_eq!(loaded.recovery_state, FleetRecoveryStateV2::MetadataOnly);
    assert_eq!(loaded.updated_at_epoch_ms, 99);
}

#[test]
fn startup_recovery_keeps_settled_and_waiting_runs() {
    let mut run = fleet_run();
    run.state = FleetRunStateV2::AwaitingApproval;
    let mut header = fleet_run_rows(&run).expect("rows").header;
    header.recovery_state = "live".into();
    assert!(!recover_fleet_row(&mut header, 5));
    assert_eq!(header.state, "awaiting_approval");
    assert_eq!(header.recovery_state, "metadata_only");
    assert_eq!(header.updated_at, 10);
}
