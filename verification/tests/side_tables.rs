use runory_agent::event::{AgentEvent, AgentEventEnvelope};
use runory_agent::persistence::{side_table_writes, MessageRole, SideTableWrite};

fn envelope(event: AgentEvent) -> AgentEventEnvelope {
    AgentEventEnvelope {
        run_id: 7,
        seq: 12,
        timestamp_epoch_ms: 1_000,
        event,
    }
}

#[test]
fn messages_and_observations_become_rows_of_the_run() {
    let writes = side_table_writes(&envelope(AgentEvent::UserMessageAdded {
        content: "check disk".into(),
    }));
    assert_eq!(writes.len(), 1);
    match &writes[0] {
        SideTableWrite::InsertMessage { run_id, role, content, created_at_epoch_ms } => {
            assert_eq!(*run_id, 7);
            assert_eq!(*role, MessageRole::User);
            assert_eq!(role.as_str(), "user");
            assert_eq!(content, "check disk");
            assert_eq!(*created_at_epoch_ms, 1_000);
        }
        other => panic!("unexpected write {other:?}"),
    }
    assert!(writes[0].must_succeed());

    let writes = side_table_writes(&envelope(AgentEvent::AssistantMessageAdded {
        content: "done".into(),
    }));
    assert!(matches!(
        &writes[0],
        SideTableWrite::InsertMessage { role: MessageRole::Assistant, .. }
    ));
    assert_eq!(MessageRole::Assistant.as_str(), "assistant");

    let writes = side_table_writes(&envelope(AgentEvent::ObservationAdded {
        summary: "disk 94%".into(),
    }));
    match &writes[0] {
        SideTableWrite::InsertObservation { run_id, source_event_seq, summary, .. } => {
            assert_eq!(*run_id, 7);
            assert_eq!(*source_event_seq, 12);
            assert_eq!(summary, "disk 94%");
        }
        other => panic!("unexpected write {other:?}"),
    }
}

#[test]
fn tool_calls_are_tracked_from_request_to_result() {
    let writes = side_table_writes(&envelope(AgentEvent::ToolRequested {
        tool_call_id: 3,
        tool_name: "system.disk".into(),
    }));
    assert!(matches!(
        &writes[..],
        [SideTableWrite::InsertToolCall { tool_call_id: 3, run_id: 7, requested_seq: 12, .. }]
    ));

    let writes = side_table_writes(&envelope(AgentEvent::ToolAutoAuthorized { tool_call_id: 3 }));
    assert!(matches!(&writes[..], [SideTableWrite::MarkToolAutoAuthorized { tool_call_id: 3 }]));
    assert!(!writes[0].must_succeed());

    let writes = side_table_writes(&envelope(AgentEvent::ToolApprovalRequired { tool_call_id: 3 }));
    assert!(matches!(&writes[..], [SideTableWrite::MarkToolAwaitingApproval { tool_call_id: 3 }]));

    let writes = side_table_writes(&envelope(AgentEvent::ToolCompleted { tool_call_id: 3 }));
    assert!(matches!(
        &writes[..],
        [
            SideTableWrite::MarkToolFinished { tool_call_id: 3, success: true },
            SideTableWrite::RecordToolResult { tool_call_id: 3, success: true, error_code: None, completed_at_epoch_ms: 1_000 },
        ]
    ));
    assert!(!writes[0].must_succeed());
    assert!(writes[1].must_succeed());

    let writes = side_table_writes(&envelope(AgentEvent::ToolFailed {
        tool_call_id: 3,
        error_code: "tool.timeout".into(),
    }));
    match &writes[..] {
        [SideTableWrite::MarkToolFinished { success: false, .. }, SideTableWrite::RecordToolResult { success: false, error_code: Some(code), .. }] => {
            assert_eq!(code, "tool.timeout")
        }
        other => panic!("unexpected writes {other:?}"),
    }
}

#[test]
fn other_events_write_nothing_beside_the_log() {
    assert!(side_table_writes(&envelope(AgentEvent::RunStarted)).is_empty());
    assert!(side_table_writes(&envelope(AgentEvent::ToolStarted { tool_call_id: 1 })).is_empty());
    assert!(side_table_writes(&envelope(AgentEvent::ProgressUpdated { summary: "x".into() })).is_empty());
}
