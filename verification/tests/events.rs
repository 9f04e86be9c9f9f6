use runory_agent::event::AgentEvent;

/// A fresh random identifier.
fn new_id() -> u128 {
    uuid::Uuid::new_v4().as_u128()
}

fn sample_events() -> Vec<AgentEvent> {
    let id = new_id();
    vec![
        AgentEvent::RunCreated,
        AgentEvent::RunStarted,
        AgentEvent::RunResumed,
        AgentEvent::RunPaused,
        AgentEvent::RunCancelled,
        AgentEvent::RunCompleted,
        AgentEvent::RunFailed {
            error_code: "AGENT_BUDGET_EXCEEDED".into(),
        },
        AgentEvent::UserMessageAdded {
            content: "Check disk usage and diagnose issues.".into(),
        },
        AgentEvent::AssistantMessageAdded {
            content: "Root filesystem usage is high.".into(),
        },
        AgentEvent::ReasoningStarted,
        AgentEvent::ProgressUpdated {
            summary: "Checking nginx service logs".into(),
        },
        AgentEvent::ToolRequested {
            tool_call_id: id,
            tool_name: "system.disk_usage".into(),
        },
        AgentEvent::ToolAutoAuthorized { tool_call_id: id },
        AgentEvent::ToolApprovalRequired { tool_call_id: id },
        AgentEvent::ToolStarted { tool_call_id: id },
        AgentEvent::ToolOutputChunk {
            tool_call_id: id,
            chunk: "/dev/sda2 94%".into(),
        },
        AgentEvent::ToolCompleted { tool_call_id: id },
        AgentEvent::ToolFailed {
            tool_call_id: id,
            error_code: "EXEC_TIMED_OUT".into(),
        },
        AgentEvent::CommandProposed {
            command_id: id,
            command: "df -h".into(),
            reason: "Inspect filesystem usage".into(),
            risk: "low".into(),
            mutability: "read".into(),
        },
        AgentEvent::CommandApprovalRequired {
            approval_id: id,
            command_id: id,
        },
        AgentEvent::CommandStarted { command_id: id },
        AgentEvent::CommandCompleted {
            command_id: id,
            exit_code: Some(0),
            output_preview: "/dev/sda2 12%".into(),
            duration_ms: 10,
        },
        AgentEvent::CommandFailed {
            command_id: id,
            exit_code: Some(1),
            output_preview: "permission denied".into(),
            error_code: "COMMAND_EXIT_NON_ZERO".into(),
            duration_ms: 10,
        },
        AgentEvent::CommandAnalysisUpdated {
            command_id: id,
            summary: "The configured Nginx log directory does not exist.".into(),
        },
        AgentEvent::ObservationAdded {
            summary: "/var/log/nginx does not exist.".into(),
        },
        AgentEvent::FactsUpdated {
            fact_keys: vec!["disk.root.usage".into()],
        },
        AgentEvent::UserInputRequired {
            question: "Which site should I diagnose?".into(),
        },
        AgentEvent::UserInputReceived,
        AgentEvent::ApprovalGranted { approval_id: id },
        AgentEvent::ApprovalRejected { approval_id: id },
        AgentEvent::ApprovalInvalidated {
            approval_id: id,
            reason_code: "PRECONDITION_CHANGED".into(),
        },
        AgentEvent::DiagnosisUpdated {
            summary: "Docker container logs consume most of /var.".into(),
        },
        AgentEvent::RootCauseIdentified {
            summary: "Unrotated container logs filled the root filesystem.".into(),
        },
        AgentEvent::ChangeSetProposed { change_set_id: id },
        AgentEvent::ChangeSetApproved {
            change_set_id: id,
            version: 3,
        },
        AgentEvent::ChangeSetExecutionStarted { change_set_id: id },
        AgentEvent::ChangeSetExecutionCompleted {
            change_set_id: id,
            success: true,
        },
        AgentEvent::VerificationStarted,
        AgentEvent::VerificationCompleted { success: true },
        AgentEvent::RollbackStarted,
        AgentEvent::RollbackCompleted { success: false },
    ]
}


#[test]
fn the_contract_defines_all_event_types() {
    let samples = sample_events();
    assert_eq!(samples.len(), 41);
    let mut names: Vec<&'static str> = samples.iter().map(AgentEvent::event_type).collect();
    names.sort_unstable();
    names.dedup();
    assert_eq!(names.len(), 41, "event type names must be unique");
}

#[test]
fn event_type_names_are_snake_case_tags() {
    assert_eq!(AgentEvent::RunStarted.event_type(), "run_started");
    assert_eq!(
        AgentEvent::ProgressUpdated {
            summary: "Checking nginx service logs".into()
        }
        .event_type(),
        "progress_updated"
    );
    assert_eq!(
        AgentEvent::ChangeSetExecutionCompleted {
            change_set_id: 1,
            success: true
        }
        .event_type(),
        "change_set_execution_completed"
    );
}

#[test]
fn cloned_events_are_equal_copies() {
    for event in sample_events() {
        let copy = event.clone();
        assert_eq!(format!("{copy:?}"), format!("{event:?}"));
    }
}
