use runory_agent::fleet_control::{
    decide_fleet_approval, next_fleet_event_seq, request_fleet_approval, FleetApprovalStepError,
    FleetEventEnvelopeV2, FleetEventKindV2, FleetApprovalStateV2, FleetApprovalV2, FLEET_APPROVAL_GRAPH_CHANGED,
    FLEET_APPROVAL_POLICY_CHANGED, FLEET_APPROVAL_RECOVERED, FLEET_APPROVAL_TARGETS_CHANGED,
};
use runory_agent::fleet_coordinator::{FleetChildOutcomeV2, FleetCoordinatorError, FleetCoordinatorV2};
use runory_agent::fleet_run::{
    FleetExecutionStrategyV2, FleetFailurePolicyV2, FleetPlanError, FleetRecoveryStateV2,
    FleetRunDraft, FleetRunStateV2, FleetRunV2, FleetStageDraft, FleetStageStateV2,
};
use runory_agent::fleet_target::{
    validate_fleet_target_shape, FleetTargetBinding, FleetTargetError, FleetTargetRequest,
    MAX_FLEET_TARGETS,
};
use runory_agent::fleet_changeset::{
    check_fleet_change_request, validate_parent, FleetChangeError, FleetChangeExecutionStrategy,
    FleetChangeSetDraftRequest, FleetTargetChangeDraft,
};

/// A fresh random identifier.
fn new_id() -> u128 {
    uuid::Uuid::new_v4().as_u128()
}

fn binding(ordinal: usize, role: &str) -> FleetTargetBinding {
    FleetTargetBinding {
        profile_id: new_id(),
        session_id: new_id(),
        role: Some(role.into()),
        ordinal,
    }
}

fn draft(targets: Vec<FleetTargetBinding>, stages: Vec<FleetStageDraft>) -> FleetRunDraft {
    FleetRunDraft {
        production: true,
        failure_policy: FleetFailurePolicyV2::PauseForReview,
        targets,
        stages,
    }
}

#[test]
fn creates_an_exact_acyclic_goal_graph_and_digest() {
    let targets = vec![binding(0, "source"), binding(1, "replica")];
    let prepare = new_id();
    let verify = new_id();
    let run = FleetRunV2::draft(
        draft(
            targets.clone(),
            vec![
                FleetStageDraft {
                    id: prepare,
                    summary: "Prepare source".into(),
                    target_ids: vec![targets[0].profile_id],
                    depends_on: vec![],
                    execution_strategy: FleetExecutionStrategyV2::Sequential,
                    concurrency_limit: 1,
                },
                FleetStageDraft {
                    id: verify,
                    summary: "Join replica".into(),
                    target_ids: vec![targets[1].profile_id],
                    depends_on: vec![prepare],
                    execution_strategy: FleetExecutionStrategyV2::Sequential,
                    concurrency_limit: 1,
                },
            ],
        ),
        100,
    )
    .expect("valid fleet run");

    assert_eq!(run.version, 1);
    assert_eq!(run.graph_digest.len(), 64);
    assert_eq!(run.state, FleetRunStateV2::Draft);
    assert_eq!(run.stages[1].depends_on, vec![prepare]);
}

#[test]
fn rejects_cycles_unknown_targets_and_production_parallelism() {
    let targets = vec![binding(0, "source"), binding(1, "replica")];
    let first = new_id();
    let second = new_id();
    let cyclic = FleetRunV2::draft(
        draft(
            targets.clone(),
            vec![
                FleetStageDraft {
                    id: first,
                    summary: "First".into(),
                    target_ids: vec![targets[0].profile_id],
                    depends_on: vec![second],
                    execution_strategy: FleetExecutionStrategyV2::Sequential,
                    concurrency_limit: 1,
                },
                FleetStageDraft {
                    id: second,
                    summary: "Second".into(),
                    target_ids: vec![targets[1].profile_id],
                    depends_on: vec![first],
                    execution_strategy: FleetExecutionStrategyV2::Sequential,
                    concurrency_limit: 1,
                },
            ],
        ),
        100,
    );
    assert!(matches!(cyclic, Err(FleetPlanError::DependencyCycle)));

    let unknown = FleetRunV2::draft(
        draft(
            targets.clone(),
            vec![FleetStageDraft {
                id: first,
                summary: "Unknown target".into(),
                target_ids: vec![new_id()],
                depends_on: vec![],
                execution_strategy: FleetExecutionStrategyV2::Sequential,
                concurrency_limit: 1,
            }],
        ),
        100,
    );
    assert!(matches!(unknown, Err(FleetPlanError::UnknownTarget)));

    let parallel = FleetRunV2::draft(
        draft(
            targets.clone(),
            vec![FleetStageDraft {
                id: first,
                summary: "Parallel".into(),
                target_ids: targets.iter().map(|target| target.profile_id).collect(),
                depends_on: vec![],
                execution_strategy: FleetExecutionStrategyV2::Parallel,
                concurrency_limit: 2,
            }],
        ),
        100,
    );
    assert!(matches!(parallel, Err(FleetPlanError::ProductionParallel)));
}

#[test]
fn recovered_metadata_cannot_transition_or_execute() {
    let targets = vec![binding(0, "source"), binding(1, "replica")];
    let stage_id = new_id();
    let mut run = FleetRunV2::draft(
        draft(
            targets.clone(),
            vec![FleetStageDraft {
                id: stage_id,
                summary: "Inspect".into(),
                target_ids: vec![targets[0].profile_id],
                depends_on: vec![],
                execution_strategy: FleetExecutionStrategyV2::Sequential,
                concurrency_limit: 1,
            }],
        ),
        100,
    )
    .expect("valid fleet run");
    run.recovery_state = FleetRecoveryStateV2::MetadataOnly;

    assert!(matches!(
        run.transition_to(FleetRunStateV2::ValidatingTargets, 200),
        Err(FleetPlanError::InvalidTransition)
    ));
}

#[test]
fn transition_table_blocks_terminal_resumption() {
    assert!(FleetRunStateV2::Draft.can_transition_to(FleetRunStateV2::ValidatingTargets));
    assert!(!FleetRunStateV2::Draft.can_transition_to(FleetRunStateV2::Executing));
    for terminal in [
        FleetRunStateV2::Succeeded,
        FleetRunStateV2::Failed,
        FleetRunStateV2::Interrupted,
        FleetRunStateV2::Cancelled,
    ] {
        assert!(!terminal.can_transition_to(FleetRunStateV2::Executing));
    }
}

fn target(profile_id: u128, session_id: u128, role: Option<&str>) -> FleetTargetRequest {
    FleetTargetRequest {
        profile_id,
        session_id,
        role: role.map(str::to_owned),
    }
}

#[test]
fn exact_target_shape_normalizes_roles() {
    let roles = validate_fleet_target_shape(&[
        target(new_id(), new_id(), Some(" Source ")),
        target(new_id(), new_id(), Some("REPLICA-1")),
    ])
    .expect("valid targets");

    assert_eq!(roles, vec![Some("source".into()), Some("replica-1".into())]);
}

#[test]
fn exact_target_shape_rejects_duplicate_profiles_or_sessions() {
    let profile = new_id();
    let session = new_id();
    assert!(matches!(
        validate_fleet_target_shape(&[target(profile, session, None), target(profile, new_id(), None)]),
        Err(FleetTargetError::Invalid)
    ));
    assert!(matches!(
        validate_fleet_target_shape(&[target(new_id(), session, None), target(new_id(), session, None)]),
        Err(FleetTargetError::Invalid)
    ));
}

#[test]
fn exact_target_shape_enforces_bounds_and_role_syntax() {
    assert!(matches!(
        validate_fleet_target_shape(&[target(new_id(), new_id(), None)]),
        Err(FleetTargetError::Invalid)
    ));
    let too_many = (0..=MAX_FLEET_TARGETS)
        .map(|_| target(new_id(), new_id(), None))
        .collect::<Vec<_>>();
    assert!(matches!(
        validate_fleet_target_shape(&too_many),
        Err(FleetTargetError::Limit)
    ));
    assert!(matches!(
        validate_fleet_target_shape(&[
            target(new_id(), new_id(), Some("source/root")),
            target(new_id(), new_id(), None),
        ]),
        Err(FleetTargetError::Invalid)
    ));
}

fn awaiting_run() -> FleetRunV2 {
    let targets = (0..2)
        .map(|ordinal| FleetTargetBinding {
            profile_id: new_id(),
            session_id: new_id(),
            role: Some(format!("node-{ordinal}")),
            ordinal,
        })
        .collect::<Vec<_>>();
    let mut run = FleetRunV2::draft(
        FleetRunDraft {
            production: true,
            failure_policy: FleetFailurePolicyV2::PauseForReview,
            stages: vec![FleetStageDraft {
                id: new_id(),
                summary: "Inspect".into(),
                target_ids: vec![targets[0].profile_id],
                depends_on: vec![],
                execution_strategy: FleetExecutionStrategyV2::Sequential,
                concurrency_limit: 1,
            }],
            targets,
        },
        10,
    )
    .expect("draft");
    run.state = FleetRunStateV2::AwaitingApproval;
    run
}

#[test]
fn approval_is_bound_to_graph_targets_and_policy() {
    let run = awaiting_run();
    let approval = FleetApprovalV2::bind(&run, 7, "policy".into(), 20).expect("bind");
    assert_eq!(approval.validate(&run, 7, "policy"), Ok(()));

    let mut changed = run.clone();
    changed.version += 1;
    assert_eq!(
        approval.validate(&changed, 7, "policy"),
        Err(FLEET_APPROVAL_GRAPH_CHANGED)
    );
    let mut changed = run.clone();
    changed.targets[0].session_id = new_id();
    assert_eq!(
        approval.validate(&changed, 7, "policy"),
        Err(FLEET_APPROVAL_TARGETS_CHANGED)
    );
    assert_eq!(
        approval.validate(&run, 8, "policy-2"),
        Err(FLEET_APPROVAL_POLICY_CHANGED)
    );
}

#[test]
fn recovered_metadata_cannot_create_or_use_approval() {
    let mut run = awaiting_run();
    let approval = FleetApprovalV2::bind(&run, 1, "policy".into(), 20).expect("bind");
    run.recovery_state = FleetRecoveryStateV2::MetadataOnly;
    assert_eq!(
        approval.validate(&run, 1, "policy"),
        Err(FLEET_APPROVAL_RECOVERED)
    );
    assert_eq!(
        FleetApprovalV2::bind(&run, 1, "policy".into(), 20),
        Err(FLEET_APPROVAL_RECOVERED)
    );
}

fn node(ordinal: usize) -> FleetTargetBinding {
    FleetTargetBinding {
        profile_id: new_id(),
        session_id: new_id(),
        role: Some(format!("node-{ordinal}")),
        ordinal,
    }
}

fn approved_run(strategy: FleetExecutionStrategyV2) -> (FleetRunV2, FleetApprovalV2) {
    let targets = vec![node(0), node(1), node(2)];
    let mut run = FleetRunV2::draft(
        FleetRunDraft {
            production: strategy != FleetExecutionStrategyV2::Parallel,
            failure_policy: FleetFailurePolicyV2::PauseForReview,
            stages: vec![FleetStageDraft {
                id: new_id(),
                summary: "Configure nodes".into(),
                target_ids: targets.iter().map(|target| target.profile_id).collect(),
                depends_on: vec![],
                execution_strategy: strategy,
                concurrency_limit: 2,
            }],
            targets,
        },
        1,
    )
    .expect("draft");
    run.state = FleetRunStateV2::AwaitingApproval;
    let mut approval = FleetApprovalV2::bind(&run, 4, "policy".into(), 2).expect("approval");
    approval.decide(FleetApprovalStateV2::Granted, 3);
    run.state = FleetRunStateV2::Approved;
    (run, approval)
}

#[test]
fn canary_claims_one_then_releases_bounded_batch() {
    let (mut run, approval) = approved_run(FleetExecutionStrategyV2::Canary);
    let first = FleetCoordinatorV2::claim_ready(&mut run, &approval, 4, "policy", 10, 4)
        .expect("claim canary");
    assert_eq!(first.len(), 1);
    assert_eq!(first[0].target, run.targets[0]);
    FleetCoordinatorV2::record_outcome(
        &mut run,
        first[0].agent_run_id,
        FleetChildOutcomeV2::Succeeded,
        None,
        5,
    )
    .expect("canary succeeds");
    let next = FleetCoordinatorV2::claim_ready(&mut run, &approval, 4, "policy", 10, 6)
        .expect("claim batch");
    assert_eq!(next.len(), 2);
}

#[test]
fn policy_or_target_drift_blocks_all_claims() {
    let (mut run, approval) = approved_run(FleetExecutionStrategyV2::RollingBatch);
    assert_eq!(
        FleetCoordinatorV2::claim_ready(&mut run, &approval, 5, "changed", 2, 4),
        Err(FleetCoordinatorError::InvalidAuthority)
    );
    run.targets[0].session_id = new_id();
    assert_eq!(
        FleetCoordinatorV2::claim_ready(&mut run, &approval, 4, "policy", 2, 4),
        Err(FleetCoordinatorError::InvalidAuthority)
    );
    assert!(run.children.is_empty());
}

#[test]
fn pause_and_cancel_return_only_owned_child_runs() {
    let (mut first_run, approval) = approved_run(FleetExecutionStrategyV2::RollingBatch);
    let first = FleetCoordinatorV2::claim_ready(&mut first_run, &approval, 4, "policy", 2, 4)
        .expect("claim first fleet");
    let (mut other_run, other_approval) = approved_run(FleetExecutionStrategyV2::RollingBatch);
    let other = FleetCoordinatorV2::claim_ready(&mut other_run, &other_approval, 4, "policy", 2, 4)
        .expect("claim other fleet");

    let paused = FleetCoordinatorV2::pause(&mut first_run, 5).expect("pause");
    assert_eq!(paused.len(), first.len());
    assert!(first_run
        .children
        .iter()
        .all(|child| child.state == FleetStageStateV2::Blocked));
    assert!(paused
        .iter()
        .all(|id| !other.iter().any(|lease| lease.agent_run_id == *id)));
    let continued = FleetCoordinatorV2::continue_after_review(&mut first_run, &approval, 4, "policy", 6)
        .expect("continue exact approved fleet");
    assert_eq!(continued, paused);
    let fresh = FleetCoordinatorV2::claim_ready(&mut first_run, &approval, 4, "policy", 2, 7)
        .expect("claim fresh attempts");
    assert_eq!(fresh.len(), first.len());
    assert!(fresh.iter().all(|lease| lease.attempt == 2));
    let cancelled = FleetCoordinatorV2::cancel(&mut other_run, 6).expect("cancel");
    assert_eq!(cancelled.len(), other.len());
    assert_eq!(other_run.state, FleetRunStateV2::Cancelled);
}

#[test]
fn continue_never_retries_a_failed_target_implicitly() {
    let (mut run, approval) = approved_run(FleetExecutionStrategyV2::RollingBatch);
    let first = FleetCoordinatorV2::claim_ready(&mut run, &approval, 4, "policy", 2, 4)
        .expect("claim first batch");
    let failed_target = first[0].target.profile_id;
    FleetCoordinatorV2::record_outcome(
        &mut run,
        first[0].agent_run_id,
        FleetChildOutcomeV2::Failed,
        Some("COMMAND_FAILED".into()),
        5,
    )
    .expect("pause after failure");
    assert_eq!(run.state, FleetRunStateV2::PausedForReview);
    assert_eq!(
        run.children
            .iter()
            .find(|child| child.agent_run_id == Some(first[1].agent_run_id))
            .map(|child| child.state),
        Some(FleetStageStateV2::Blocked)
    );

    FleetCoordinatorV2::continue_after_review(&mut run, &approval, 4, "policy", 6)
        .expect("continue independent targets");
    let next = FleetCoordinatorV2::claim_ready(&mut run, &approval, 4, "policy", 3, 7)
        .expect("claim remaining targets");
    assert!(!next
        .iter()
        .any(|lease| lease.target.profile_id == failed_target));
}

fn draft_run() -> FleetRunV2 {
    let targets = vec![node(0), node(1)];
    FleetRunV2::draft(
        FleetRunDraft {
            production: true,
            failure_policy: FleetFailurePolicyV2::PauseForReview,
            stages: vec![FleetStageDraft {
                id: new_id(),
                summary: "Inspect".into(),
                target_ids: vec![targets[0].profile_id],
                depends_on: vec![],
                execution_strategy: FleetExecutionStrategyV2::Sequential,
                concurrency_limit: 1,
            }],
            targets,
        },
        10,
    )
    .expect("draft")
}

#[test]
fn requesting_approval_walks_a_draft_to_awaiting_approval() {
    let mut run = draft_run();
    let version = run.version;
    let approval = request_fleet_approval(&mut run, version, 7, "policy".into(), 30).expect("approval");
    assert_eq!(run.state, FleetRunStateV2::AwaitingApproval);
    assert_eq!(run.updated_at_epoch_ms, 30);
    assert_eq!(approval.state, FleetApprovalStateV2::Pending);
    assert_eq!(approval.created_at_epoch_ms, 30);
    assert_eq!(approval.validate(&run, 7, "policy"), Ok(()));
}

#[test]
fn requesting_approval_refuses_stale_versions_and_non_drafts() {
    let mut run = draft_run();
    let before = run.clone();
    let stale = run.version + 1;
    assert_eq!(
        request_fleet_approval(&mut run, stale, 7, "policy".into(), 30),
        Err(FleetApprovalStepError::InvalidOperation)
    );
    assert_eq!(run.state, before.state);
    assert_eq!(run.version, before.version);
    assert_eq!(run.updated_at_epoch_ms, before.updated_at_epoch_ms);

    let mut awaiting = awaiting_run();
    let version = awaiting.version;
    assert_eq!(
        request_fleet_approval(&mut awaiting, version, 7, "policy".into(), 30),
        Err(FleetApprovalStepError::Plan(FleetPlanError::InvalidTransition))
    );

    let mut recovered = draft_run();
    recovered.recovery_state = FleetRecoveryStateV2::MetadataOnly;
    let version = recovered.version;
    assert_eq!(
        request_fleet_approval(&mut recovered, version, 7, "policy".into(), 30),
        Err(FleetApprovalStepError::InvalidOperation)
    );
}

#[test]
fn deciding_a_valid_approval_grants_or_rejects() {
    let mut run = awaiting_run();
    let mut approval = FleetApprovalV2::bind(&run, 7, "policy".into(), 20).expect("bind");
    assert_eq!(
        decide_fleet_approval(&mut approval, &mut run, true, 7, "policy", 40),
        Ok((FleetEventKindV2::ApprovalGranted, None))
    );
    assert_eq!(approval.state, FleetApprovalStateV2::Granted);
    assert_eq!(approval.decided_at_epoch_ms, Some(40));
    assert_eq!(run.state, FleetRunStateV2::Approved);

    let mut run = awaiting_run();
    let mut approval = FleetApprovalV2::bind(&run, 7, "policy".into(), 20).expect("bind");
    assert_eq!(
        decide_fleet_approval(&mut approval, &mut run, false, 7, "policy", 41),
        Ok((FleetEventKindV2::ApprovalRejected, None))
    );
    assert_eq!(approval.state, FleetApprovalStateV2::Rejected);
    assert_eq!(run.state, FleetRunStateV2::Planning);
}

#[test]
fn deciding_a_drifted_approval_invalidates_it_and_replans() {
    let mut run = awaiting_run();
    let mut approval = FleetApprovalV2::bind(&run, 7, "policy".into(), 20).expect("bind");
    assert_eq!(
        decide_fleet_approval(&mut approval, &mut run, true, 8, "policy-2", 50),
        Ok((FleetEventKindV2::ApprovalInvalidated, Some(FLEET_APPROVAL_POLICY_CHANGED)))
    );
    assert_eq!(approval.state, FleetApprovalStateV2::Invalidated);
    assert_eq!(approval.invalidation_code.as_deref(), Some(FLEET_APPROVAL_POLICY_CHANGED));
    assert_eq!(run.state, FleetRunStateV2::Planning);

    let source = awaiting_run();
    let mut other = awaiting_run();
    let mut approval = FleetApprovalV2::bind(&source, 7, "policy".into(), 20).expect("bind");
    let before = approval.clone();
    let other_before = other.clone();
    assert_eq!(
        decide_fleet_approval(&mut approval, &mut other, true, 7, "policy", 50),
        Err(FleetApprovalStepError::InvalidOperation)
    );
    assert_eq!(approval, before);
    assert_eq!(other.state, other_before.state);
    assert_eq!(other.updated_at_epoch_ms, other_before.updated_at_epoch_ms);
}

#[test]
fn next_fleet_event_seq_follows_the_last_event() {
    assert_eq!(next_fleet_event_seq(&[]), 1);
    let event = FleetEventEnvelopeV2 {
        fleet_run_id: 1,
        seq: 4,
        timestamp_ms: 9,
        kind: FleetEventKindV2::StateChanged,
        state: FleetRunStateV2::Planning,
        approval_id: None,
        code: None,
    };
    assert_eq!(next_fleet_event_seq(&[event]), 5);
}

#[test]
fn only_a_live_approved_run_may_own_change_sets() {
    let (run, _) = approved_run(FleetExecutionStrategyV2::Canary);
    assert_eq!(validate_parent(&run, run.id, run.version), Ok(()));
    assert_eq!(
        validate_parent(&run, run.id, run.version + 1),
        Err(FleetChangeError::InvalidOperation)
    );
    assert_eq!(
        validate_parent(&run, new_id(), run.version),
        Err(FleetChangeError::InvalidOperation)
    );
    let mut planning = run.clone();
    planning.state = FleetRunStateV2::Planning;
    assert_eq!(
        validate_parent(&planning, run.id, run.version),
        Err(FleetChangeError::InvalidOperation)
    );
    let mut paused = run.clone();
    paused.state = FleetRunStateV2::PausedForReview;
    assert_eq!(validate_parent(&paused, run.id, run.version), Ok(()));
    let mut recovered = run.clone();
    recovered.recovery_state = FleetRecoveryStateV2::MetadataOnly;
    assert_eq!(
        validate_parent(&recovered, run.id, run.version),
        Err(FleetChangeError::InvalidOperation)
    );
}

#[test]
fn in_flight_states_are_the_working_ones() {
    for state in [
        FleetRunStateV2::ValidatingTargets,
        FleetRunStateV2::Investigating,
        FleetRunStateV2::Planning,
        FleetRunStateV2::Executing,
        FleetRunStateV2::Verifying,
        FleetRunStateV2::RollingBack,
    ] {
        assert!(state.is_in_flight(), "{state:?}");
        assert!(!state.is_terminal(), "{state:?}");
    }
    for state in [
        FleetRunStateV2::Draft,
        FleetRunStateV2::AwaitingApproval,
        FleetRunStateV2::Approved,
        FleetRunStateV2::PausedForReview,
        FleetRunStateV2::Cancelled,
    ] {
        assert!(!state.is_in_flight(), "{state:?}");
    }
}

fn change_request(run: &FleetRunV2, order: &[usize], strategy: FleetChangeExecutionStrategy) -> FleetChangeSetDraftRequest {
    FleetChangeSetDraftRequest {
        fleet_run_id: run.id,
        fleet_run_version: run.version,
        title: "  Rotate logs  ".into(),
        targets: order
            .iter()
            .map(|&k| FleetTargetChangeDraft { profile_id: run.targets[k].profile_id, title: format!("node {k}") })
            .collect(),
        execution_strategy: strategy,
        batch_size: 1,
        canary_count: 1,
        service_verification: None,
        cross_target_verification: false,
    }
}

#[test]
fn a_fleet_change_request_binds_one_change_per_target_in_run_order() {
    let (run, _) = approved_run(FleetExecutionStrategyV2::Canary);
    let request = change_request(&run, &[2, 0, 1], FleetChangeExecutionStrategy::RollingBatch);
    let drafts = check_fleet_change_request(&run, &request).expect("checked");
    assert_eq!(drafts.len(), 3);
    for (i, draft) in drafts.iter().enumerate() {
        assert_eq!(draft.session_id, run.targets[i].session_id);
        assert_eq!(draft.title, format!("node {i}"));
        assert_eq!(request.targets[draft.request_index].profile_id, run.targets[i].profile_id);
    }
}

#[test]
fn a_fleet_change_request_is_refused_when_it_does_not_bind_exactly() {
    let (run, _) = approved_run(FleetExecutionStrategyV2::Canary);
    let refused = Err(FleetChangeError::InvalidOperation);
    // Production runs never change every target at once.
    let parallel = change_request(&run, &[0, 1, 2], FleetChangeExecutionStrategy::Parallel);
    assert_eq!(check_fleet_change_request(&run, &parallel).map(|d| d.len()), refused);
    // A target asked for twice leaves another without a change.
    let twice = change_request(&run, &[0, 0, 1], FleetChangeExecutionStrategy::Sequential);
    assert_eq!(check_fleet_change_request(&run, &twice).map(|d| d.len()), refused);
    let short = change_request(&run, &[0, 1], FleetChangeExecutionStrategy::Sequential);
    assert_eq!(check_fleet_change_request(&run, &short).map(|d| d.len()), refused);
    let mut blank = change_request(&run, &[0, 1, 2], FleetChangeExecutionStrategy::Sequential);
    blank.title = "   ".into();
    assert_eq!(check_fleet_change_request(&run, &blank).map(|d| d.len()), refused);
    let mut long = change_request(&run, &[0, 1, 2], FleetChangeExecutionStrategy::Sequential);
    long.title = "x".repeat(257);
    assert_eq!(check_fleet_change_request(&run, &long).map(|d| d.len()), refused);
    let mut stale = change_request(&run, &[0, 1, 2], FleetChangeExecutionStrategy::Sequential);
    stale.fleet_run_version += 1;
    assert_eq!(check_fleet_change_request(&run, &stale).map(|d| d.len()), refused);
    let mut unknown = change_request(&run, &[0, 1, 2], FleetChangeExecutionStrategy::Sequential);
    unknown.targets[1].profile_id = new_id();
    assert_eq!(check_fleet_change_request(&run, &unknown).map(|d| d.len()), refused);
    long.title = "x".repeat(256);
    assert_eq!(check_fleet_change_request(&run, &long).map(|d| d.len()), Ok(3));
}
