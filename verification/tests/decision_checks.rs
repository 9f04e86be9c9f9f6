use runory_agent::decision::{
    bounded_user_text, check_command_text, check_tool_call_count, DecisionError, MAX_COMMAND_BYTES,
    MAX_QUESTION_BYTES, MAX_REASON_SUMMARY_BYTES,
};

#[test]
fn a_turn_requests_between_one_and_four_tool_calls() {
    assert_eq!(check_tool_call_count(0), Err(DecisionError::EmptyToolCalls));
    assert_eq!(check_tool_call_count(1), Ok(()));
    assert_eq!(check_tool_call_count(4), Ok(()));
    assert_eq!(check_tool_call_count(5), Err(DecisionError::TooManyToolCalls));
}

#[test]
fn texts_from_the_model_are_trimmed_and_bounded() {
    assert_eq!(bounded_user_text("  Which service?  ", MAX_QUESTION_BYTES).as_deref(), Some("Which service?"));
    assert_eq!(bounded_user_text(" \n\t ", MAX_QUESTION_BYTES), None);
    let exact = "r".repeat(MAX_REASON_SUMMARY_BYTES);
    assert_eq!(bounded_user_text(&format!(" {exact} "), MAX_REASON_SUMMARY_BYTES).as_deref(), Some(exact.as_str()));
    assert_eq!(bounded_user_text(&format!("{exact}r"), MAX_REASON_SUMMARY_BYTES), None);
}

#[test]
fn a_command_proposal_is_one_bounded_line() {
    assert_eq!(check_command_text("  df -h \n").as_deref(), Ok("df -h"));
    assert_eq!(check_command_text("   "), Err(DecisionError::InvalidCommand));
    assert_eq!(check_command_text("df -h\nrm -rf /"), Err(DecisionError::InvalidCommand));
    assert_eq!(check_command_text("cat\0file"), Err(DecisionError::InvalidCommand));
    assert_eq!(check_command_text(&"x".repeat(MAX_COMMAND_BYTES + 1)), Err(DecisionError::InvalidCommand));
    assert!(check_command_text(&"x".repeat(MAX_COMMAND_BYTES)).is_ok());
    assert_eq!(check_command_text("echo a\rb").as_deref(), Ok("echo a\rb"));
}
