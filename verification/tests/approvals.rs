use runory_agent::approval::{
    arguments_hash, validate_pending_approval, validate_pending_change_set_approval, validate_pending_command_approval,
    ApprovalInvalidationReason, ApprovalRequest, ApprovalRequestState,
};
use runory_agent::decision::{classify_command, PreparedCommandProposal, PreparedToolCall};
use runory_agent::repository::{InMemoryApprovalStore, AGENT_APPROVAL_NOT_FOUND};

/// A fresh random identifier.
fn new_id() -> u128 {
    uuid::Uuid::new_v4().as_u128()
}

fn call(tool_name: &str, invocation: &str) -> PreparedToolCall {
    PreparedToolCall {
        tool_call_id: new_id(),
        tool_name: tool_name.into(),
        reason_summary: "Collecting evidence".into(),
        invocation: invocation.into(),
    }
}

fn command(value: &str) -> PreparedCommandProposal {
    let (risk, mutability) = classify_command(value);
    PreparedCommandProposal {
        command_id: new_id(),
        command: value.into(),
        reason_summary: "Inspect the server".into(),
        observation_analysis: None,
        risk,
        mutability,
    }
}

#[test]
fn arguments_hash_is_deterministic_and_argument_sensitive() {
    let first = call("service.logs", "{\"lines\":100,\"service\":\"nginx\"}");
    let second = call("service.logs", "{\"lines\":100,\"service\":\"nginx\"}");
    assert_eq!(
        arguments_hash(&first),
        arguments_hash(&second),
        "equal invocations must hash equally"
    );

    let different = call("service.logs", "{\"lines\":200,\"service\":\"nginx\"}");
    assert_ne!(
        arguments_hash(&first),
        arguments_hash(&different),
        "changed arguments must change the hash"
    );
}

#[test]
fn binding_captures_the_exact_action() {
    let run_id = new_id();
    let target = new_id();
    let bound_call = call("system.disk_usage", "{}");
    let approval = ApprovalRequest::bind(run_id, &bound_call, vec![target], "R1".into(), 7, "abc123".into());

    assert_eq!(approval.run_id, run_id);
    assert_eq!(approval.tool_call_id, bound_call.tool_call_id);
    assert_eq!(approval.tool_name, "system.disk_usage");
    assert_eq!(approval.target_ids, vec![target]);
    assert_eq!(approval.state, ApprovalRequestState::Pending);
    assert!(approval.decided_at_epoch_ms.is_none());
    assert_eq!(approval.arguments_hash, arguments_hash(&bound_call));
    assert_eq!(approval.arguments_hash.len(), 64);
}

#[test]
fn validate_pending_approval_rejects_drift() {
    let run_id = new_id();
    let target = new_id();
    let bound_call = call("service.logs", "{\"lines\":100,\"service\":\"nginx\"}");
    let approval = ApprovalRequest::bind(run_id, &bound_call, vec![target], "R1".into(), 1, "hash".into());
    assert!(validate_pending_approval(&approval, &bound_call, &[target], true).is_ok());

    let mut wrong_targets = approval.clone();
    wrong_targets.target_ids.push(new_id());
    assert_eq!(
        validate_pending_approval(&wrong_targets, &bound_call, &[target], true),
        Err(ApprovalInvalidationReason::TargetsChanged)
    );

    let mut wrong_call = call("service.logs", "{\"lines\":200,\"service\":\"nginx\"}");
    wrong_call.tool_call_id = bound_call.tool_call_id;
    assert_eq!(
        validate_pending_approval(&approval, &wrong_call, &[target], true),
        Err(ApprovalInvalidationReason::ArgumentsChanged)
    );

    assert_eq!(
        validate_pending_approval(&approval, &bound_call, &[target], false),
        Err(ApprovalInvalidationReason::PolicyChanged)
    );
}

#[test]
fn deciding_an_approval_stamps_the_decision_time() {
    let bound_call = call("system.disk_usage", "{}");
    let mut approval = ApprovalRequest::bind(new_id(), &bound_call, Vec::new(), "R1".into(), 1, "h".into());
    approval.decide(ApprovalRequestState::Rejected);
    assert_eq!(approval.state, ApprovalRequestState::Rejected);
    assert!(approval.decided_at_epoch_ms.is_some());
    assert_eq!(
        validate_pending_approval(&approval, &bound_call, &[], true),
        Err(ApprovalInvalidationReason::NotPending)
    );
}

#[test]
fn command_approval_binds_exact_command_and_target() {
    let run_id = new_id();
    let target = new_id();
    let approved = command("df -h");
    let session_id = new_id();
    let approval = ApprovalRequest::bind_command(run_id, &approved, vec![target], session_id, 7, "policy-hash".into());
    assert!(validate_pending_command_approval(&approval, &approved, &[target], session_id, true).is_ok());

    let mut changed = command("df -i");
    changed.command_id = approved.command_id;
    assert_eq!(
        validate_pending_command_approval(&approval, &changed, &[target], session_id, true),
        Err(ApprovalInvalidationReason::ArgumentsChanged)
    );
    assert_eq!(
        validate_pending_command_approval(&approval, &approved, &[new_id()], session_id, true),
        Err(ApprovalInvalidationReason::TargetsChanged)
    );
    assert_eq!(
        validate_pending_command_approval(&approval, &approved, &[target], new_id(), true),
        Err(ApprovalInvalidationReason::SessionChanged)
    );
}

#[test]
fn approval_store_saves_known_records_and_finds_pending_ones() {
    let mut store = InMemoryApprovalStore::new();
    let run_id = new_id();
    let bound_call = call("system.disk_usage", "{}");
    let approval = ApprovalRequest::bind(run_id, &bound_call, Vec::new(), "R1".into(), 1, "h".into());
    let id = approval.id;
    assert!(store.pending_for_run(run_id).expect("pending").is_none());

    let unknown = approval.clone();
    assert_eq!(store.save(&unknown).map_err(|e| e.code()), Err(AGENT_APPROVAL_NOT_FOUND));

    store.insert(approval).expect("insert");
    let pending = store.pending_for_run(run_id).expect("pending").expect("found");
    assert_eq!(pending.id, id);
    assert!(store.pending_for_run(new_id()).expect("other run").is_none());

    let mut decided = store.get(id).expect("get").expect("stored");
    decided.decide(ApprovalRequestState::Granted);
    store.save(&decided).expect("save");
    assert_eq!(store.get(id).expect("get").expect("stored").state, ApprovalRequestState::Granted);
    assert!(store.pending_for_run(run_id).expect("pending").is_none());
}

#[test]
fn change_set_approvals_are_bound_to_the_exact_version_targets_and_policy() {
    let run_id = new_id();
    let change_set_id = new_id();
    let approval = ApprovalRequest::bind_change_set(
        run_id,
        new_id(),
        change_set_id,
        3,
        "Restart nginx",
        vec![7, 8],
        "high".into(),
        2,
        "policy".into(),
        Some("pre-1".into()),
    );
    assert!(approval.is_change_set());
    assert!(!approval.is_command());
    assert_eq!(approval.state, ApprovalRequestState::Pending);
    assert_eq!(approval.change_set_version, Some(3));
    assert_eq!(approval.tool_name, "Restart nginx");
    assert_eq!(
        validate_pending_change_set_approval(&approval, change_set_id, 3, &[7, 8], true),
        Ok(())
    );
    assert_eq!(
        validate_pending_change_set_approval(&approval, change_set_id, 4, &[7, 8], true),
        Err(ApprovalInvalidationReason::ArgumentsChanged)
    );
    assert_eq!(
        validate_pending_change_set_approval(&approval, new_id(), 3, &[7, 8], true),
        Err(ApprovalInvalidationReason::ArgumentsChanged)
    );
    assert_eq!(
        validate_pending_change_set_approval(&approval, change_set_id, 3, &[8, 7], true),
        Err(ApprovalInvalidationReason::TargetsChanged)
    );
    assert_eq!(
        validate_pending_change_set_approval(&approval, change_set_id, 3, &[7, 8], false),
        Err(ApprovalInvalidationReason::PolicyChanged)
    );
    let mut decided = approval.clone();
    decided.decide(ApprovalRequestState::Granted);
    assert_eq!(
        validate_pending_change_set_approval(&decided, change_set_id, 3, &[7, 8], true),
        Err(ApprovalInvalidationReason::NotPending)
    );
}
