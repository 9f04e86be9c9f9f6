use runory_agent::approval::{ApprovalRequest, ApprovalRequestState};
use runory_agent::persistence::{
    approval_from_row, approval_row, parse_stored_id, parse_stored_id_list, run_from_row, run_row,
    stored_id_list_text, stored_id_text,
    ApprovalRow, RunRow,
};
use runory_agent::repository::AgentStoreError;
use runory_agent::run::AgentRun;
use runory_agent::state::AgentRunStateV2;

#[test]
fn identifiers_are_stored_as_hyphenated_uuid_text() {
    let id: u128 = 0x67e5_5044_10b1_426f_9247_bb68_0e5f_e0c8;
    let text = stored_id_text(id);
    assert_eq!(text, "67e55044-10b1-426f-9247-bb680e5fe0c8");
    assert_eq!(parse_stored_id(&text), Ok(id));
    assert_eq!(parse_stored_id("67e5504410b1426f9247bb680e5fe0c8"), Ok(id));
    assert_eq!(parse_stored_id("not-a-uuid"), Err(AgentStoreError::StoreCorrupt));
}

#[test]
fn runs_read_back_as_written() {
    let mut run = AgentRun::with_created_at(42, 1_000);
    run.transition_to(AgentRunStateV2::Running).expect("start");
    let seq = run.next_event_sequence();
    assert_eq!(seq, 1);
    let row = run_row(&run);
    assert_eq!(row.state, "running");
    assert_eq!(row.next_event_seq, 2);
    let back = run_from_row(&row).expect("row parses");
    assert_eq!(back.id(), 42);
    assert_eq!(back.state(), AgentRunStateV2::Running);
    assert_eq!(back.created_at_epoch_ms(), 1_000);
    assert_eq!(back.updated_at_epoch_ms(), run.updated_at_epoch_ms());
    assert_eq!(back.peek_next_event_seq(), 2);
}

#[test]
fn corrupt_run_rows_fail_closed() {
    let row = RunRow {
        id: stored_id_text(7),
        state: "sleeping".into(),
        created_at: 1,
        updated_at: 1,
        next_event_seq: 1,
    };
    assert!(matches!(run_from_row(&row), Err(AgentStoreError::StoreCorrupt)));
    let row = RunRow {
        id: "7".into(),
        state: "running".into(),
        created_at: 1,
        updated_at: 1,
        next_event_seq: 0,
    };
    assert!(matches!(run_from_row(&row), Err(AgentStoreError::StoreCorrupt)));
    let row = RunRow {
        id: stored_id_text(7),
        state: "paused".into(),
        created_at: 1,
        updated_at: 1,
        next_event_seq: 0,
    };
    assert_eq!(run_from_row(&row).expect("parses").peek_next_event_seq(), 1);
}

fn approval() -> ApprovalRequest {
    ApprovalRequest {
        id: 1,
        run_id: 2,
        tool_call_id: 3,
        tool_name: "service.logs".into(),
        arguments_hash: "abc".into(),
        target_ids: vec![4, 5],
        risk: "low".into(),
        policy_version: 9,
        policy_hash: "policy".into(),
        precondition_ref: None,
        change_set_id: Some(6),
        change_set_version: Some(3),
        state: ApprovalRequestState::Granted,
        created_at_epoch_ms: 10,
        decided_at_epoch_ms: Some(11),
    }
}

#[test]
fn approvals_read_back_as_written() {
    let a = approval();
    let row = approval_row(&a).expect("row");
    assert_eq!(row.state, "granted");
    assert_eq!(
        row.target_ids,
        "[\"00000000-0000-0000-0000-000000000004\",\"00000000-0000-0000-0000-000000000005\"]"
    );
    let back = approval_from_row(row).expect("parses");
    assert_eq!(back.id, 1);
    assert_eq!(back.run_id, 2);
    assert_eq!(back.tool_call_id, 3);
    assert_eq!(back.target_ids, vec![4, 5]);
    assert_eq!(back.change_set_id, Some(6));
    assert_eq!(back.change_set_version, Some(3));
    assert_eq!(back.state, ApprovalRequestState::Granted);
    assert_eq!(back.decided_at_epoch_ms, Some(11));
    assert_eq!(back.policy_hash, "policy");
}

#[test]
fn corrupt_approval_rows_fail_closed() {
    let mut row: ApprovalRow = approval_row(&approval()).expect("row");
    row.target_ids = "not json".into();
    assert!(matches!(approval_from_row(row), Err(AgentStoreError::StoreCorrupt)));
    let mut row = approval_row(&approval()).expect("row");
    row.state = "maybe".into();
    assert!(matches!(approval_from_row(row), Err(AgentStoreError::StoreCorrupt)));
    let mut row = approval_row(&approval()).expect("row");
    row.change_set_id = Some("x".into());
    assert!(matches!(approval_from_row(row), Err(AgentStoreError::StoreCorrupt)));
}

#[test]
fn an_identifier_list_is_stored_as_a_compact_json_array_of_uuid_texts() {
    let a = uuid::Uuid::new_v4();
    let b = uuid::Uuid::new_v4();
    let text = stored_id_list_text(&[a.as_u128(), b.as_u128()]).expect("written");
    assert_eq!(text, format!("[\"{a}\",\"{b}\"]"));
    assert_eq!(stored_id_list_text(&[]).expect("written"), "[]");
    assert_eq!(parse_stored_id_list(&text), Ok(vec![a.as_u128(), b.as_u128()]));
}
