use runory_agent::command::{bounded, looks_like_shell_failure, CommandOutcome, COMMAND_TARGET_MISMATCH, OBSERVATION_TEXT_LIMIT};
use runory_agent::decision::{classify_command, CommandMutability, CommandRisk, DecisionError, AGENT_DECISION_INVALID};
use runory_agent::tool_error::classify_tool_error;

#[test]
fn command_failures_are_content_free() {
    let outcome = CommandOutcome::failure(uuid::Uuid::new_v4().as_u128(), COMMAND_TARGET_MISMATCH);
    assert!(outcome.stdout.is_empty());
    assert!(outcome.stderr.is_empty());
    assert_eq!(outcome.error_code.as_deref(), Some(COMMAND_TARGET_MISMATCH));
}

#[test]
fn common_shell_errors_are_reported_as_failed_execution() {
    assert!(looks_like_shell_failure(
        "find: '/var/log/nginx': No such file or directory"
    ));
    assert!(!looks_like_shell_failure("/dev/sda2 100G 94G 6G 94% /"));
}

#[test]
fn classifies_exec_and_policy_failures() {
    assert_eq!(classify_tool_error("EXEC_FAILED"), "TOOL_EXECUTION_FAILED");
    assert_eq!(classify_tool_error("TOOL_POLICY_DENIED"), "TOOL_POLICY_BLOCKED");
    assert_eq!(classify_tool_error("UNKNOWN"), "TOOL_FAILED");
}

#[test]
fn tool_error_classes_cover_every_family() {
    assert_eq!(classify_tool_error("SFTP_NOT_FOUND"), "TOOL_EXECUTION_FAILED");
    assert_eq!(classify_tool_error("MODEL_RESPONSE_INVALID"), "TOOL_INPUT_INVALID");
    assert_eq!(classify_tool_error("SSH_NOT_CONNECTED"), "TOOL_SESSION_UNAVAILABLE");
    assert_eq!(classify_tool_error("TOOL_CANCELLED"), "TOOL_CANCELLED");
    assert_eq!(classify_tool_error("AGENT_POLICY_DENIED"), "TOOL_POLICY_BLOCKED");
    assert_eq!(classify_tool_error("exec_failed"), "TOOL_FAILED");
}

#[test]
fn command_classification_follows_the_conservative_order() {
    assert_eq!(classify_command("df -h 2>&1"), (CommandRisk::Low, CommandMutability::ReadIntent));
    assert_eq!(classify_command("systemctl restart nginx"), (CommandRisk::High, CommandMutability::Mutating));
    assert_eq!(classify_command("rm -rf /var/lib/example"), (CommandRisk::Critical, CommandMutability::Mutating));
    assert_eq!(classify_command("  RM /tmp/x"), (CommandRisk::High, CommandMutability::Mutating));
    assert_eq!(classify_command("ls && whoami"), (CommandRisk::High, CommandMutability::Unknown));
    assert_eq!(classify_command("echo hi > /tmp/out"), (CommandRisk::Medium, CommandMutability::Mutating));
    assert_eq!(classify_command("ls 2>/dev/null"), (CommandRisk::Low, CommandMutability::ReadIntent));
    assert_eq!(classify_command("curl https://example.com"), (CommandRisk::Medium, CommandMutability::Unknown));
    assert_eq!(CommandRisk::High.as_str(), "high");
    assert_eq!(CommandMutability::ReadIntent.as_str(), "read");
    assert_eq!(DecisionError::InvalidCommand.code(), AGENT_DECISION_INVALID);
}

#[test]
fn bounded_output_keeps_at_most_the_limit_in_characters() {
    let long = "é".repeat(OBSERVATION_TEXT_LIMIT + 10);
    let cut = bounded(&long);
    assert_eq!(cut.chars().count(), OBSERVATION_TEXT_LIMIT);
    assert_eq!(bounded("short"), "short");
}
