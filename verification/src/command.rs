//! Outcome of an approved command and the bounded reading of its output.
use vstd::prelude::*;
use crate::text::{chars_of, contains_any, has_any_infix, lower_chars, lower_text, take_chars, views};

verus! {

pub const COMMAND_EXIT_NON_ZERO: &'static str = "COMMAND_EXIT_NON_ZERO";
pub const COMMAND_CANCELLED: &'static str = "COMMAND_CANCELLED";
pub const COMMAND_TARGET_MISMATCH: &'static str = "COMMAND_TARGET_MISMATCH";
pub const COMMAND_TERMINAL_TIMEOUT: &'static str = "COMMAND_TERMINAL_TIMEOUT";

/// Most characters of command output kept as an observation.
pub const OBSERVATION_TEXT_LIMIT: usize = 65536;

/// Phrases a shell prints when a command fails.
pub const SHELL_FAILURE_MARKERS: [&'static str; 5] = [
    "no such file or directory",
    "command not found",
    "permission denied",
    "operation not permitted",
    "syntax error",
];

#[derive(Clone, Debug)]
pub struct CommandOutcome {
    pub command_id: u128,
    pub success: bool,
    pub exit_code: Option<u32>,
    pub stdout: String,
    pub stderr: String,
    pub error_code: Option<String>,
    pub duration_ms: u64,
    pub cancelled: bool,
}

impl CommandOutcome {
    /// A content-free failed outcome carrying only the error code.
    pub fn failure(command_id: u128, error_code: &str) -> (r: CommandOutcome)
        ensures
            r.command_id == command_id,
            !r.success,
            r.exit_code is None,
            r.stdout@.len() == 0,
            r.stderr@.len() == 0,
            r.error_code is Some && r.error_code->0@ == error_code@,
            r.duration_ms == 0,
            !r.cancelled,
    {
        CommandOutcome {
            command_id,
            success: false,
            exit_code: None,
            stdout: String::new(),
            stderr: String::new(),
            error_code: Some(error_code.to_owned()),
            duration_ms: 0,
            cancelled: false,
        }
    }
}

/// Command output cut to at most `OBSERVATION_TEXT_LIMIT` characters.
pub fn bounded(value: &str) -> (r: String)
    ensures
        r@ == value@.take(
            if value@.len() <= OBSERVATION_TEXT_LIMIT { value@.len() as int } else { OBSERVATION_TEXT_LIMIT as int },
        ),
{
    take_chars(value, OBSERVATION_TEXT_LIMIT)
}

/// Whether the output, case-insensitively, holds a typical shell failure.
pub fn looks_like_shell_failure(value: &str) -> (r: bool)
    ensures
        r == has_any_infix(lower_text(value@), views(SHELL_FAILURE_MARKERS@)),
{
    let chars = chars_of(value);
    let lower = lower_chars(chars.as_slice());
    contains_any(lower.as_slice(), SHELL_FAILURE_MARKERS.as_slice())
}

/// The outcome of a command whose run was cancelled (before it started, or
/// while it ran): a content-free failure marked as cancelled.
pub fn cancelled_outcome(command_id: u128, duration_ms: u64) -> (r: CommandOutcome)
    ensures
        r.command_id == command_id,
        !r.success,
        r.cancelled,
        r.exit_code is None,
        r.stdout@.len() == 0,
        r.stderr@.len() == 0,
        r.error_code is Some && r.error_code->0@ == COMMAND_CANCELLED@,
        r.duration_ms == duration_ms,
{
    let mut outcome = CommandOutcome::failure(command_id, COMMAND_CANCELLED);
    outcome.duration_ms = duration_ms;
    outcome.cancelled = true;
    outcome
}

/// The outcome of a command the terminal could not run (an unbound or
/// mismatched session, a transport error): a content-free failure with the
/// error's code.
pub fn transport_failure_outcome(command_id: u128, error_code: &str, duration_ms: u64) -> (r: CommandOutcome)
    ensures
        r.command_id == command_id,
        !r.success,
        !r.cancelled,
        r.exit_code is None,
        r.stdout@.len() == 0,
        r.stderr@.len() == 0,
        r.error_code is Some && r.error_code->0@ == error_code@,
        r.duration_ms == duration_ms,
{
    let mut outcome = CommandOutcome::failure(command_id, error_code);
    outcome.duration_ms = duration_ms;
    outcome
}

/// The outcome of a command the terminal ran, from its (already redacted)
/// output. It succeeded unless it timed out or the output shows a typical
/// shell failure; an interactive shell exposes no exit status, and the
/// output kept is bounded.
pub fn terminal_outcome(command_id: u128, output: &str, timed_out: bool, duration_ms: u64) -> (r: CommandOutcome)
    ensures
        r.command_id == command_id,
        r.success == (!timed_out && !has_any_infix(lower_text(output@), views(SHELL_FAILURE_MARKERS@))),
        !r.cancelled,
        r.exit_code is None,
        r.stdout@ == output@.take(
            if output@.len() <= OBSERVATION_TEXT_LIMIT { output@.len() as int } else { OBSERVATION_TEXT_LIMIT as int },
        ),
        r.stderr@.len() == 0,
        timed_out ==> r.error_code is Some && r.error_code->0@ == COMMAND_TERMINAL_TIMEOUT@,
        !timed_out && r.success ==> r.error_code is None,
        !timed_out && !r.success ==> r.error_code is Some && r.error_code->0@ == COMMAND_EXIT_NON_ZERO@,
        r.duration_ms == duration_ms,
{
    let success = !timed_out && !looks_like_shell_failure(output);
    let error_code = if timed_out {
        Some(COMMAND_TERMINAL_TIMEOUT.to_owned())
    } else if !success {
        Some(COMMAND_EXIT_NON_ZERO.to_owned())
    } else {
        None
    };
    CommandOutcome {
        command_id,
        success,
        exit_code: None,
        stdout: bounded(output),
        stderr: String::new(),
        error_code,
        duration_ms,
        cancelled: false,
    }
}

} // verus!
