use runory_agent::state::{AgentRunStateV2 as S, AGENT_INVALID_TRANSITION};

#[test]
fn authoritative_state_count_is_sixteen() {
    assert_eq!(S::ALL.len(), 16);
}

#[test]
fn every_state_has_exactly_one_classification() {
    for state in S::ALL {
        let classes = [
            state.is_terminal(),
            state.is_interrupt(),
            state.is_active(),
            state == S::Created,
        ];
        let count = classes.iter().filter(|is_in| **is_in).count();
        assert_eq!(count, 1, "state {state:?} must be in exactly one class");
    }
}

#[test]
fn only_interrupt_states_can_resume() {
    for state in S::ALL {
        assert_eq!(state.can_resume(), state.is_interrupt());
    }
}

#[test]
fn created_running_reasoning_is_the_valid_start_path() {
    assert_eq!(S::Created.transition_to(S::Running), Ok(S::Running));
    assert_eq!(S::Running.transition_to(S::Reasoning), Ok(S::Reasoning));
}

#[test]
fn created_cannot_jump_to_completed() {
    let error = S::Created
        .transition_to(S::Completed)
        .expect_err("Created -> Completed must be rejected");
    assert_eq!(error.code(), AGENT_INVALID_TRANSITION);
    assert_eq!(error.from, S::Created);
    assert_eq!(error.to, S::Completed);
}

#[test]
fn terminal_states_reject_every_outgoing_transition() {
    for terminal in [S::Completed, S::Failed, S::Cancelled] {
        for next in S::ALL {
            assert!(
                terminal.transition_to(next).is_err(),
                "{terminal:?} -> {next:?} must be rejected"
            );
        }
    }
}

#[test]
fn cancel_and_fail_are_reachable_from_every_non_terminal_state() {
    for state in S::ALL {
        if state.is_terminal() {
            continue;
        }
        assert!(state.can_transition_to(S::Cancelled), "{state:?} -> Cancelled");
        assert!(state.can_transition_to(S::Failed), "{state:?} -> Failed");
    }
}

#[test]
fn approval_interrupt_round_trip_is_valid() {
    assert!(S::Acting.can_transition_to(S::AwaitingApproval));
    assert!(S::AwaitingApproval.can_transition_to(S::Acting));
    assert!(S::AwaitingApproval.can_transition_to(S::ExecutingChange));
    assert!(S::AwaitingApproval.can_transition_to(S::Reasoning));
}

#[test]
fn awaiting_user_round_trip_is_valid() {
    assert!(S::Reasoning.can_transition_to(S::AwaitingUser));
    assert!(S::AwaitingUser.can_transition_to(S::Reasoning));
    assert!(!S::AwaitingUser.can_transition_to(S::Acting));
}

#[test]
fn tool_failure_recovery_path_is_expressible() {
    assert_eq!(S::Acting.transition_to(S::Observing), Ok(S::Observing));
    assert_eq!(S::Observing.transition_to(S::Reasoning), Ok(S::Reasoning));
}

#[test]
fn change_execution_flow_is_expressible() {
    assert!(S::Reasoning.can_transition_to(S::PlanningChange));
    assert!(S::PlanningChange.can_transition_to(S::AwaitingApproval));
    assert!(S::AwaitingApproval.can_transition_to(S::ExecutingChange));
    assert!(S::ExecutingChange.can_transition_to(S::Verifying));
    assert!(S::Verifying.can_transition_to(S::Completed));
    assert!(S::Verifying.can_transition_to(S::RollingBack));
    assert!(S::RollingBack.can_transition_to(S::Reasoning));
}

#[test]
fn pause_is_rejected_while_side_effects_are_in_flight() {
    for state in [S::ExecutingChange, S::Verifying, S::RollingBack] {
        assert!(
            !state.can_transition_to(S::Paused),
            "{state:?} -> Paused must be rejected"
        );
    }
    for state in [S::Running, S::Reasoning, S::Acting, S::Observing] {
        assert!(state.can_transition_to(S::Paused), "{state:?} -> Paused");
    }
}

#[test]
fn paused_resumes_only_into_running_reasoning_or_terminates() {
    assert!(S::Paused.can_transition_to(S::Running));
    assert!(S::Paused.can_transition_to(S::Reasoning));
    assert!(S::Paused.can_transition_to(S::Cancelled));
    assert!(!S::Paused.can_transition_to(S::Acting));
    assert!(!S::Paused.can_transition_to(S::Completed));
}

#[test]
fn no_state_transitions_back_into_created() {
    for state in S::ALL {
        assert!(!state.can_transition_to(S::Created));
    }
}
