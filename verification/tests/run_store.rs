use runory_agent::event::{AgentEvent, AgentEventEnvelope};
use runory_agent::metrics::RunMetrics;
use runory_agent::repository::{
    AgentStoreError, InMemoryAgentEventRepository, InMemoryAgentRunStore, InMemoryApprovalStore,
    AGENT_EVENT_SEQUENCE_INVALID, AGENT_RUN_ALREADY_EXISTS, AGENT_RUN_NOT_FOUND,
};
use runory_agent::approval::{ApprovalRequest, ApprovalRequestState};
use runory_agent::facts::{FactProvenance, WorkingFact, WorkingFactSet};
use runory_agent::recorder::{
    accept_user_input, cancel_run, emit, fail_run, open_run, pause_run, start_new_turn, transition_and_save,
};
use runory_agent::run::AgentRun;
use runory_agent::controller::{check_goal, RunOutcome, AgentControllerError, AGENT_GOAL_INVALID, MAX_GOAL_BYTES};
use runory_agent::state::{AgentRunStateV2, AGENT_INVALID_TRANSITION};

/// A fresh random identifier.
fn new_id() -> u128 {
    uuid::Uuid::new_v4().as_u128()
}

fn run() -> AgentRun {
    AgentRun::with_created_at(new_id(), 1_000)
}

fn envelope(run_id: u128, seq: u64) -> AgentEventEnvelope {
    AgentEventEnvelope {
        run_id,
        seq,
        timestamp_epoch_ms: 1_725_000_000_000 + seq,
        event: AgentEvent::ProgressUpdated {
            summary: format!("step {seq}"),
        },
    }
}

#[test]
fn a_new_run_starts_in_created_with_seq_one() {
    let run = run();
    assert_eq!(run.state(), AgentRunStateV2::Created);
    assert_eq!(run.peek_next_event_seq(), 1);
    assert_eq!(run.created_at_epoch_ms(), 1_000);
    assert_eq!(run.updated_at_epoch_ms(), 1_000);
}

#[test]
fn valid_transitions_advance_the_run() {
    let mut run = run();
    run.transition_to(AgentRunStateV2::Running)
        .expect("Created -> Running");
    run.transition_to(AgentRunStateV2::Reasoning)
        .expect("Running -> Reasoning");
    assert_eq!(run.state(), AgentRunStateV2::Reasoning);
    assert!(run.updated_at_epoch_ms() >= run.created_at_epoch_ms());
}

#[test]
fn invalid_transitions_leave_the_run_unchanged() {
    let mut run = run();
    let error = run
        .transition_to(AgentRunStateV2::Completed)
        .expect_err("Created -> Completed must fail");
    assert_eq!(error.code(), AGENT_INVALID_TRANSITION);
    assert_eq!(run.state(), AgentRunStateV2::Created);
}

#[test]
fn terminal_runs_reject_reactivation() {
    let mut run = run();
    run.transition_to(AgentRunStateV2::Cancelled)
        .expect("Created -> Cancelled");
    for next in AgentRunStateV2::ALL {
        assert!(run.transition_to(next).is_err());
    }
    assert_eq!(run.state(), AgentRunStateV2::Cancelled);
}

#[test]
fn event_sequence_is_monotonic_from_one() {
    let mut run = run();
    assert_eq!(run.next_event_sequence(), 1);
    assert_eq!(run.next_event_sequence(), 2);
    assert_eq!(run.next_event_sequence(), 3);
    assert_eq!(run.peek_next_event_seq(), 4);
}

#[test]
fn event_sequences_never_repeat_over_many_allocations() {
    let mut run = run();
    let mut previous = 0;
    for _ in 0..10_000 {
        let seq = run.next_event_sequence();
        assert!(seq > previous, "sequence must strictly increase");
        previous = seq;
    }
}

#[test]
fn event_sequence_saturates_at_the_ceiling() {
    let mut run = AgentRun::from_persisted(new_id(), AgentRunStateV2::Running, 1, 2, u64::MAX);
    assert_eq!(run.next_event_sequence(), u64::MAX);
    assert_eq!(run.peek_next_event_seq(), u64::MAX);
}

#[test]
fn persisted_runs_never_restart_their_sequence_at_zero() {
    let run = AgentRun::from_persisted(7, AgentRunStateV2::Paused, 10, 20, 0);
    assert_eq!(run.peek_next_event_seq(), 1);
    assert_eq!(run.id(), 7);
    assert_eq!(run.state(), AgentRunStateV2::Paused);
    assert_eq!(run.updated_at_epoch_ms(), 20);
}

#[test]
fn a_new_user_turn_reopens_only_finished_runs() {
    let mut run = run();
    let error = run.begin_user_turn().expect_err("created run is not finished");
    assert_eq!(error.from, AgentRunStateV2::Created);
    assert_eq!(error.to, AgentRunStateV2::Reasoning);
    run.transition_to(AgentRunStateV2::Running).expect("start");
    run.transition_to(AgentRunStateV2::Reasoning).expect("reason");
    run.transition_to(AgentRunStateV2::Completed).expect("complete");
    run.begin_user_turn().expect("completed conversation reopens");
    assert_eq!(run.state(), AgentRunStateV2::Reasoning);
}

#[test]
fn metrics_accumulate_without_overflow_panic() {
    let mut metrics = RunMetrics::new(new_id());
    metrics.record_reasoner_round(512);
    metrics.record_tool_call(true);
    metrics.record_tool_failure();
    metrics.record_approval_interrupt();
    metrics.record_rejection();
    metrics.record_recovery_attempt();
    metrics.record_artifact_bytes(8192);
    metrics.maybe_record_first_observation(42);
    metrics.record_verification(true);
    metrics.record_rollback(false);
    assert_eq!(metrics.reasoner_rounds, 1);
    assert_eq!(metrics.auto_authorized_tools, 1);
    assert_eq!(metrics.tool_failures, 1);
    assert_eq!(metrics.verification_result, Some(true));
}

#[test]
fn metrics_saturate_and_keep_first_latencies() {
    let mut metrics = RunMetrics::new(1);
    metrics.tool_calls = u32::MAX;
    metrics.record_tool_call(false);
    assert_eq!(metrics.tool_calls, u32::MAX);
    assert_eq!(metrics.auto_authorized_tools, 0);
    metrics.artifact_bytes = u64::MAX - 1;
    metrics.record_artifact_bytes(10);
    assert_eq!(metrics.artifact_bytes, u64::MAX);
    metrics.record_reasoner_round(300);
    metrics.record_reasoner_round(100);
    assert_eq!(metrics.context_tokens, 300);
    assert_eq!(metrics.model_calls, 2);
    metrics.maybe_record_first_observation(5);
    metrics.maybe_record_first_observation(9);
    assert_eq!(metrics.time_to_first_observation_ms, Some(5));
    metrics.maybe_record_diagnosis(11);
    metrics.maybe_record_diagnosis(12);
    assert_eq!(metrics.time_to_diagnosis_ms, Some(11));
    metrics.record_resolution(20);
    metrics.record_resolution(21);
    assert_eq!(metrics.time_to_resolution_ms, Some(21));
    assert_eq!(RunMetrics::default(), RunMetrics::new(0));
}

#[test]
fn run_store_inserts_gets_and_saves() {
    let mut store = InMemoryAgentRunStore::new();
    let mut run = AgentRun::with_created_at(new_id(), 1_000);
    let run_id = run.id();
    store.insert(run.clone()).expect("insert");

    run.transition_to(AgentRunStateV2::Running)
        .expect("Created -> Running");
    store.save(&run).expect("save");

    let loaded = store.get(run_id).expect("get").expect("run exists");
    assert_eq!(loaded.state(), AgentRunStateV2::Running);
}

#[test]
fn run_store_rejects_duplicate_insert_and_unknown_save() {
    let mut store = InMemoryAgentRunStore::new();
    let run = AgentRun::with_created_at(new_id(), 1_000);
    store.insert(run.clone()).expect("first insert");

    let duplicate = store.insert(run.clone()).expect_err("duplicate insert");
    assert_eq!(duplicate.code(), AGENT_RUN_ALREADY_EXISTS);

    let unknown = AgentRun::with_created_at(new_id(), 1_000);
    let missing = store.save(&unknown).expect_err("save of unknown run");
    assert_eq!(missing.code(), AGENT_RUN_NOT_FOUND);

    assert!(store.get(unknown.id()).expect("get").is_none());
}

#[test]
fn append_keeps_sequences_strictly_increasing() {
    let mut repository = InMemoryAgentEventRepository::new();
    let run_id = new_id();
    for seq in 1..=5 {
        repository.append(envelope(run_id, seq)).expect("append");
    }
    let all = repository.all_events(run_id).expect("all_events");
    let sequences: Vec<u64> = all.iter().map(|event| event.seq).collect();
    assert_eq!(sequences, vec![1, 2, 3, 4, 5]);
}

#[test]
fn append_rejects_duplicate_and_out_of_order_sequences() {
    let mut repository = InMemoryAgentEventRepository::new();
    let run_id = new_id();
    repository.append(envelope(run_id, 3)).expect("seq 3");

    let duplicate = repository
        .append(envelope(run_id, 3))
        .expect_err("duplicate seq");
    assert_eq!(duplicate.code(), AGENT_EVENT_SEQUENCE_INVALID);

    let out_of_order = repository
        .append(envelope(run_id, 2))
        .expect_err("out-of-order seq");
    assert_eq!(
        out_of_order,
        AgentStoreError::EventSequenceInvalid {
            last: 3,
            attempted: 2
        }
    );

    let zero = repository
        .append(envelope(run_id, 0))
        .expect_err("seq zero");
    assert_eq!(zero.code(), AGENT_EVENT_SEQUENCE_INVALID);

    let all = repository.all_events(run_id).expect("all_events");
    assert_eq!(all.len(), 1);
}

#[test]
fn events_after_returns_only_later_events_in_order() {
    let mut repository = InMemoryAgentEventRepository::new();
    let run_id = new_id();
    for seq in 1..=15 {
        repository.append(envelope(run_id, seq)).expect("append");
    }
    let tail = repository.events_after(run_id, 10).expect("events_after");
    let sequences: Vec<u64> = tail.iter().map(|event| event.seq).collect();
    assert_eq!(sequences, vec![11, 12, 13, 14, 15]);
    match &tail[0].event {
        AgentEvent::ProgressUpdated { summary } => assert_eq!(summary, "step 11"),
        _ => panic!("events are returned as stored"),
    }

    let unknown = repository
        .events_after(new_id(), 0)
        .expect("unknown run yields empty log");
    assert!(unknown.is_empty());
}

#[test]
fn runs_keep_independent_sequences() {
    let mut repository = InMemoryAgentEventRepository::new();
    let run_a = new_id();
    let run_b = new_id();

    repository.append(envelope(run_a, 1)).expect("a1");
    repository.append(envelope(run_b, 1)).expect("b1");
    repository.append(envelope(run_a, 2)).expect("a2");
    repository.append(envelope(run_b, 2)).expect("b2");

    assert_eq!(repository.all_events(run_a).expect("a").len(), 2);
    assert_eq!(repository.all_events(run_b).expect("b").len(), 2);
}

#[test]
fn store_error_codes_are_stable() {
    assert_eq!(AgentStoreError::RunNotFound.code(), "AGENT_RUN_NOT_FOUND");
    assert_eq!(AgentStoreError::ApprovalNotFound.code(), "AGENT_APPROVAL_NOT_FOUND");
    assert_eq!(AgentStoreError::StoreCorrupt.code(), "AGENT_STORE_CORRUPT");
    assert_eq!(AgentStoreError::MigrationFailed.code(), "AGENT_STORE_MIGRATION_FAILED");
    assert_eq!(AgentStoreError::PersistenceFailed.code(), "AGENT_PERSISTENCE_FAILED");
    assert_eq!(AgentStoreError::StoreUnavailable.code(), "AGENT_STORE_UNAVAILABLE");
}

#[test]
fn emitted_events_have_contiguous_sequences() {
    let mut events = InMemoryAgentEventRepository::new();
    let mut runs = InMemoryAgentRunStore::new();
    let mut run = run();
    runs.insert(run.clone()).expect("insert");
    for _ in 0..3 {
        emit(&mut run, &mut events, &mut runs, AgentEvent::RunStarted, 5).expect("emit");
    }
    let log = events.events_after(run.id(), 0).expect("events");
    let seqs: Vec<u64> = log.iter().map(|e| e.seq).collect();
    assert_eq!(seqs, vec![1, 2, 3]);
    assert_eq!(run.peek_next_event_seq(), 4);
    let saved = runs.get(run.id()).expect("get").expect("saved");
    assert_eq!(saved.peek_next_event_seq(), 4);
}

#[test]
fn emitting_for_an_unknown_run_still_logs_but_reports_not_found() {
    let mut events = InMemoryAgentEventRepository::new();
    let mut runs = InMemoryAgentRunStore::new();
    let mut run = run();
    assert_eq!(
        emit(&mut run, &mut events, &mut runs, AgentEvent::RunStarted, 5),
        Err(AgentControllerError::Store(AgentStoreError::RunNotFound))
    );
    assert_eq!(events.events_after(run.id(), 0).expect("events").len(), 1);
}

#[test]
fn refused_transitions_leave_the_store_unchanged() {
    let mut runs = InMemoryAgentRunStore::new();
    let mut run = run();
    runs.insert(run.clone()).expect("insert");
    assert!(transition_and_save(&mut run, &mut runs, AgentRunStateV2::Completed).is_err());
    assert_eq!(run.state(), AgentRunStateV2::Created);
    transition_and_save(&mut run, &mut runs, AgentRunStateV2::Running).expect("start");
    let saved = runs.get(run.id()).expect("get").expect("saved");
    assert_eq!(saved.state(), AgentRunStateV2::Running);
}

#[test]
fn empty_goal_is_rejected_before_a_run_exists() {
    let error = match check_goal("   ") {
        Err(error) => error,
        Ok(_) => panic!("blank goal must be rejected"),
    };
    assert_eq!(error.code(), AGENT_GOAL_INVALID);
    assert_eq!(check_goal(&"x".repeat(MAX_GOAL_BYTES + 1)), Err(AgentControllerError::InvalidGoal));
    assert_eq!(check_goal(&"x".repeat(MAX_GOAL_BYTES)).map(|g| g.len()), Ok(MAX_GOAL_BYTES));
    assert_eq!(check_goal("  check disk \n"), Ok("check disk".to_string()));
}

#[test]
fn a_new_run_starts_its_log_with_creation_and_the_goal() {
    let mut events = InMemoryAgentEventRepository::new();
    let mut runs = InMemoryAgentRunStore::new();
    let mut run = run();
    let goal = check_goal(" check disk ").expect("goal");
    open_run(&mut run, goal, &mut events, &mut runs, 7).expect("open");
    let log = events.events_after(run.id(), 0).expect("events");
    assert_eq!(log.len(), 2);
    assert_eq!(log[0].seq, 1);
    assert!(matches!(log[0].event, AgentEvent::RunCreated));
    assert_eq!(log[1].seq, 2);
    assert!(matches!(&log[1].event, AgentEvent::UserMessageAdded { content } if content == "check disk"));
    assert_eq!(run.peek_next_event_seq(), 3);
    assert_eq!(runs.get(run.id()).expect("get").expect("stored").peek_next_event_seq(), 3);

    let mut again = AgentRun::with_created_at(run.id(), 1);
    let mut other_events = InMemoryAgentEventRepository::new();
    assert_eq!(
        open_run(&mut again, "x".into(), &mut other_events, &mut runs, 8),
        Err(AgentControllerError::Store(AgentStoreError::RunAlreadyExists))
    );
}

fn opened() -> (AgentRun, InMemoryAgentEventRepository, InMemoryAgentRunStore) {
    let mut events = InMemoryAgentEventRepository::new();
    let mut runs = InMemoryAgentRunStore::new();
    let mut run = run();
    open_run(&mut run, "goal".into(), &mut events, &mut runs, 1).expect("open");
    (run, events, runs)
}

#[test]
fn cancelling_ends_the_same_run_and_cannot_repeat() {
    let (mut run, mut events, mut runs) = opened();
    assert!(matches!(cancel_run(&mut run, &mut events, &mut runs, 2), Ok(RunOutcome::Cancelled)));
    assert_eq!(run.state(), AgentRunStateV2::Cancelled);
    let log = events.events_after(run.id(), 2).expect("events");
    assert_eq!(log.len(), 1);
    assert_eq!(log[0].seq, 3);
    assert!(matches!(log[0].event, AgentEvent::RunCancelled));
    assert!(matches!(
        cancel_run(&mut run, &mut events, &mut runs, 3),
        Err(AgentControllerError::AlreadyTerminal)
    ));
    assert_eq!(events.events_after(run.id(), 0).expect("events").len(), 3);
}

#[test]
fn failing_records_the_stable_code() {
    let (mut run, mut events, mut runs) = opened();
    match fail_run(&mut run, &mut events, &mut runs, "AGENT_BUDGET_EXCEEDED", 2) {
        Ok(RunOutcome::Failed { error_code }) => assert_eq!(error_code, "AGENT_BUDGET_EXCEEDED"),
        other => panic!("unexpected {other:?}"),
    }
    let log = events.events_after(run.id(), 2).expect("events");
    assert!(matches!(&log[0].event, AgentEvent::RunFailed { error_code } if error_code == "AGENT_BUDGET_EXCEEDED"));
    assert!(fail_run(&mut run, &mut events, &mut runs, "X", 3).is_err());
    assert_eq!(runs.get(run.id()).expect("get").expect("run").state(), AgentRunStateV2::Failed);
}

#[test]
fn pausing_is_only_allowed_in_read_and_reasoning_phases() {
    let (mut run, mut events, mut runs) = opened();
    assert!(pause_run(&mut run, &mut events, &mut runs, 2).is_err());
    assert_eq!(run.state(), AgentRunStateV2::Created);
    transition_and_save(&mut run, &mut runs, AgentRunStateV2::Running).expect("start");
    pause_run(&mut run, &mut events, &mut runs, 3).expect("pause");
    assert_eq!(run.state(), AgentRunStateV2::Paused);
    let log = events.events_after(run.id(), 2).expect("events");
    assert!(matches!(log[0].event, AgentEvent::RunPaused));
    assert!(pause_run(&mut run, &mut events, &mut runs, 4).is_err());
}

#[test]
fn ask_user_resume_continues_the_same_run_with_the_reply() {
    let (mut run, mut events, mut runs) = opened();
    let id = run.id();
    assert!(matches!(
        accept_user_input(&mut run, &mut events, &mut runs, "yes", "yes".into(), 2),
        Err(AgentControllerError::NotAwaitingUser)
    ));
    for next in [AgentRunStateV2::Running, AgentRunStateV2::Reasoning, AgentRunStateV2::AwaitingUser] {
        transition_and_save(&mut run, &mut runs, next).expect("move");
    }
    assert!(matches!(
        accept_user_input(&mut run, &mut events, &mut runs, "   ", "".into(), 2),
        Err(AgentControllerError::InvalidUserInput)
    ));
    let observation =
        accept_user_input(&mut run, &mut events, &mut runs, "  use /var/log  ", "use /var/log".into(), 3)
            .expect("resume");
    assert_eq!(run.id(), id);
    assert_eq!(run.state(), AgentRunStateV2::Reasoning);
    assert_eq!(observation.summary, "User replied: use /var/log");
    assert_eq!(observation.detail.as_deref(), Some("use /var/log"));
    let log = events.events_after(id, 2).expect("events");
    assert_eq!(log.iter().map(|e| e.seq).collect::<Vec<_>>(), vec![3, 4, 5]);
    assert!(matches!(&log[0].event, AgentEvent::UserMessageAdded { content } if content == "use /var/log"));
    assert!(matches!(log[1].event, AgentEvent::UserInputReceived));
    assert!(matches!(log[2].event, AgentEvent::RunResumed));
}

fn change_set_approval(run_id: u128) -> ApprovalRequest {
    ApprovalRequest::bind_change_set(run_id, new_id(), new_id(), 1, "Restart nginx", vec![7], "high".into(), 1, "p".into(), None)
}

#[test]
fn a_new_turn_invalidates_pending_approvals_and_resumes_a_finished_run() {
    let (mut run, mut events, mut runs) = opened();
    let id = run.id();
    let mut approvals = InMemoryApprovalStore::new();
    let pending = change_set_approval(id);
    let pending_id = pending.id;
    let mut granted = change_set_approval(id);
    granted.decide(ApprovalRequestState::Granted);
    let granted_id = granted.id;
    let other = change_set_approval(new_id());
    let other_id = other.id;
    approvals.insert(pending).expect("insert");
    approvals.insert(granted).expect("insert");
    approvals.insert(other).expect("insert");
    let target = new_id();
    let other_target = new_id();
    let targets = vec![target];
    let mut facts = WorkingFactSet::new();
    facts.upsert_many(vec![fact(target, "disk.usage", "91%"), fact(other_target, "disk.usage", "40%")]);

    assert!(matches!(
        start_new_turn(&mut run, &mut events, &mut runs, &mut approvals, &mut facts, &targets, "again", "again".into(), 2),
        Err(AgentControllerError::NotAwaitingUser)
    ));
    cancel_run(&mut run, &mut events, &mut runs, 2).expect("cancel");
    assert!(matches!(
        start_new_turn(&mut run, &mut events, &mut runs, &mut approvals, &mut facts, &targets, "  ", "".into(), 3),
        Err(AgentControllerError::InvalidUserInput)
    ));
    assert_eq!(approvals.get(pending_id).expect("get").expect("stored").state, ApprovalRequestState::Pending);

    let before = run.peek_next_event_seq();
    let (observation, invalidated) =
        start_new_turn(&mut run, &mut events, &mut runs, &mut approvals, &mut facts, &targets, " check disk ", "check disk".into(), 4)
            .expect("new turn");
    assert_eq!(invalidated, vec![pending_id]);
    assert_eq!(run.state(), AgentRunStateV2::Reasoning);
    assert_eq!(run.peek_next_event_seq(), before + 3);
    assert_eq!(runs.get(id).expect("get").expect("stored").state(), AgentRunStateV2::Reasoning);
    assert_eq!(observation.summary, "User replied: check disk");
    assert_eq!(approvals.get(pending_id).expect("get").expect("stored").state, ApprovalRequestState::Invalidated);
    assert_eq!(approvals.get(granted_id).expect("get").expect("stored").state, ApprovalRequestState::Granted);
    assert_eq!(approvals.get(other_id).expect("get").expect("stored").state, ApprovalRequestState::Pending);

    let log = events.events_after(id, before - 1).expect("events");
    assert_eq!(log.iter().map(|e| e.seq).collect::<Vec<_>>(), vec![before, before + 1, before + 2]);
    assert!(matches!(&log[0].event,
        AgentEvent::ApprovalInvalidated { approval_id, reason_code }
            if *approval_id == pending_id && reason_code == "APPROVAL_NEW_USER_TURN"));
    assert!(matches!(&log[1].event, AgentEvent::UserMessageAdded { content } if content == "check disk"));
    assert!(matches!(log[2].event, AgentEvent::RunResumed));
    assert!(log.iter().all(|e| e.timestamp_epoch_ms == 4));
    assert_eq!(facts.len(), 1, "the facts of the run's targets are dropped for the new turn");
    assert_eq!(facts.all()[0].target_id, Some(other_target));
}

fn fact(target: u128, key: &str, value: &str) -> WorkingFact {
    WorkingFact {
        id: new_id(),
        key: key.into(),
        value: value.into(),
        source_event_seq: Some(1),
        source_tool: Some("system.disk_usage".into()),
        tool_call_id: Some(new_id()),
        target_id: Some(target),
        observed_at_epoch_ms: 1,
        ttl_ms: 10,
        provenance: FactProvenance::ToolObservation,
    }
}
