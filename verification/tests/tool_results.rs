use runory_agent::artifact::{store_large_output, InMemoryArtifactStore};
use runory_agent::decision::PreparedToolCall;
use runory_agent::dispatch::ToolOutcome;
use runory_agent::event::AgentEvent;
use runory_agent::metrics::RunMetrics;
use runory_agent::recorder::{open_run, record_tool_result, transition_and_save};
use runory_agent::repository::{InMemoryAgentEventRepository, InMemoryAgentRunStore};
use runory_agent::run::AgentRun;
use runory_agent::state::AgentRunStateV2;

/// A fresh random identifier.
fn new_id() -> u128 {
    uuid::Uuid::new_v4().as_u128()
}

fn observing() -> (AgentRun, InMemoryAgentEventRepository, InMemoryAgentRunStore) {
    let mut events = InMemoryAgentEventRepository::new();
    let mut runs = InMemoryAgentRunStore::new();
    let mut run = AgentRun::with_created_at(new_id(), 1_000);
    open_run(&mut run, "goal".into(), &mut events, &mut runs, 1).expect("open");
    for next in [AgentRunStateV2::Running, AgentRunStateV2::Reasoning, AgentRunStateV2::Acting, AgentRunStateV2::Observing] {
        transition_and_save(&mut run, &mut runs, next).expect("move");
    }
    (run, events, runs)
}

fn outcome(success: bool, data: Option<String>) -> ToolOutcome {
    ToolOutcome {
        tool_call_id: new_id(),
        tool_name: "system.disk_usage".into(),
        success,
        summary: "disk usage collected".into(),
        error_code: None,
        duration_ms: 30,
        cancelled: false,
        from_cache: false,
        untrusted_remote_data: true,
        sanitized_data: data,
    }
}

#[test]
fn a_small_tool_result_is_observed_inline() {
    let (mut run, mut events, mut runs) = observing();
    let mut metrics = RunMetrics::new(run.id());
    let mut artifacts = InMemoryArtifactStore::new();
    let result = outcome(true, Some("{\"used\":\"91%\"}".into()));
    let seq = run.peek_next_event_seq();
    let (observation, reference) = record_tool_result(
        &mut run, &mut events, &mut runs, &mut metrics, &mut artifacts, &result, 25, 2_000, 3,
    )
    .expect("record");
    assert!(reference.is_none());
    assert_eq!(observation.summary, "system.disk_usage succeeded: disk usage collected");
    assert_eq!(observation.detail.as_deref(), Some("{\"used\":\"91%\"}"));
    assert_eq!(metrics.time_to_first_observation_ms, Some(25));
    assert!(artifacts.list_for_run(run.id()).expect("list").is_empty());
    let recorded = events.events_after(run.id(), seq - 1).expect("events");
    assert_eq!(recorded.len(), 2);
    assert!(matches!(recorded[0].event, AgentEvent::ToolCompleted { tool_call_id } if tool_call_id == result.tool_call_id));
    assert!(matches!(&recorded[1].event,
        AgentEvent::ObservationAdded { summary } if summary == "system.disk_usage succeeded: disk usage collected"));
    assert_eq!(run.state(), AgentRunStateV2::Observing);
}

#[test]
fn a_large_tool_result_is_stored_as_an_artifact_and_referenced() {
    let (mut run, mut events, mut runs) = observing();
    let mut metrics = RunMetrics::new(run.id());
    let mut artifacts = InMemoryArtifactStore::new();
    let large = "x".repeat(5_000);
    let result = outcome(true, Some(large.clone()));
    let (observation, reference) = record_tool_result(
        &mut run, &mut events, &mut runs, &mut metrics, &mut artifacts, &result, 25, 2_000, 3,
    )
    .expect("record");
    let reference = reference.expect("artifact reference");
    assert_eq!(reference.byte_len, 5_000);
    assert_eq!(reference.summary, "disk usage collected");
    let expected = format!(
        "artifact:{} bytes=5000 summary=disk usage collected",
        uuid::Uuid::from_u128(reference.artifact_id)
    );
    assert_eq!(observation.detail.as_deref(), Some(expected.as_str()));
    assert_eq!(metrics.artifact_bytes, 5_000);
    let stored = artifacts.get(reference.artifact_id).expect("get").expect("stored");
    assert_eq!(stored.content, large);
    assert_eq!(stored.run_id, run.id());
    assert_eq!(stored.tool_call_id, Some(result.tool_call_id));
    assert_eq!(stored.created_at_epoch_ms, 2_000);
}

#[test]
fn a_failed_tool_result_is_counted_and_recorded_with_the_generic_code() {
    let (mut run, mut events, mut runs) = observing();
    let mut metrics = RunMetrics::new(run.id());
    let mut artifacts = InMemoryArtifactStore::new();
    let call = PreparedToolCall {
        tool_call_id: new_id(),
        tool_name: "service.logs".into(),
        reason_summary: "read logs".into(),
        invocation: "{}".into(),
    };
    let mut failed = ToolOutcome::failure(&call, "TOOL_TIMEOUT");
    failed.error_code = None;
    let seq = run.peek_next_event_seq();
    let (observation, reference) = record_tool_result(
        &mut run, &mut events, &mut runs, &mut metrics, &mut artifacts, &failed, 25, 2_000, 3,
    )
    .expect("record");
    assert!(reference.is_none());
    assert!(!observation.success);
    assert_eq!(observation.summary, "service.logs failed: tool execution failed");
    assert!(observation.detail.is_none());
    assert_eq!(metrics.tool_failures, 1);
    assert_eq!(metrics.recovery_attempts, 1);
    assert_eq!(metrics.time_to_first_observation_ms, None);
    let recorded = events.events_after(run.id(), seq - 1).expect("events");
    assert!(matches!(&recorded[0].event,
        AgentEvent::ToolFailed { tool_call_id, error_code } if *tool_call_id == call.tool_call_id && error_code == "TOOL_FAILED"));
}

#[test]
fn a_stored_output_keeps_its_content_and_a_bounded_summary() {
    let mut artifacts = InMemoryArtifactStore::new();
    let run_id = new_id();
    let tool_call_id = new_id();
    let summary = "s".repeat(400);
    let artifact = store_large_output(&mut artifacts, run_id, tool_call_id, "system.logs", &summary, "line one\nline two", 9)
        .expect("store");
    assert_eq!(artifact.summary, format!("{}…", "s".repeat(300)));
    assert_eq!(artifact.byte_len, 17);
    assert_eq!(artifact.tool_call_id, Some(tool_call_id));
    assert_eq!(artifacts.get(artifact.id).expect("get").expect("stored").content, "line one\nline two");
}
