//! Reasoner decision vocabulary: command risk and mutability labels, the
//! structural error codes, and the conservative display classification of
//! proposed shell commands.
use vstd::prelude::*;
use crate::text::{
    chars_of, contains_any, has_any_infix, has_any_prefix, lower_chars, lower_text, remove_all,
    remove_all_exec, starts_with_any, trim_bounds, trim_start, views, byte_len, has_infix, has_prefix, string_from_chars, trim,
    trimmed_chars,
};

verus! {

/// Stable error code for structurally rejected reasoner decisions.
pub const AGENT_DECISION_INVALID: &'static str = "AGENT_DECISION_INVALID";

/// Upper bound of tool calls a single reasoning turn may request.
pub const MAX_TOOL_CALLS_PER_TURN: usize = 4;
/// Longest reason summary of a tool call or command, in bytes.
pub const MAX_REASON_SUMMARY_BYTES: usize = 300;
/// Longest question to the user, in bytes.
pub const MAX_QUESTION_BYTES: usize = 2048;
/// Longest final summary (and command analysis), in bytes.
pub const MAX_FINAL_SUMMARY_BYTES: usize = 16384;
/// Longest proposed command, in bytes.
pub const MAX_COMMAND_BYTES: usize = 16384;

#[derive(Clone, Copy, Debug, PartialEq, Eq, Structural)]
pub enum CommandRisk {
    Low,
    Medium,
    High,
    Critical,
}

/// The stable lowercase name of a risk level.
pub open spec fn risk_name(r: CommandRisk) -> Seq<char> {
    match r {
        CommandRisk::Low => "low"@,
        CommandRisk::Medium => "medium"@,
        CommandRisk::High => "high"@,
        CommandRisk::Critical => "critical"@,
    }
}

impl CommandRisk {
    pub fn as_str(self) -> (r: &'static str)
        ensures
            r@ == risk_name(self),
    {
        match self {
            CommandRisk::Low => "low",
            CommandRisk::Medium => "medium",
            CommandRisk::High => "high",
            CommandRisk::Critical => "critical",
        }
    }
}

#[derive(Clone, Copy, Debug, PartialEq, Eq, Structural)]
pub enum CommandMutability {
    ReadIntent,
    Mutating,
    Unknown,
}

/// The stable name of a mutability class.
pub open spec fn mutability_name(m: CommandMutability) -> Seq<char> {
    match m {
        CommandMutability::ReadIntent => "read"@,
        CommandMutability::Mutating => "mutating"@,
        CommandMutability::Unknown => "unknown"@,
    }
}

impl CommandMutability {
    pub fn as_str(self) -> (r: &'static str)
        ensures
            r@ == mutability_name(self),
    {
        match self {
            CommandMutability::ReadIntent => "read",
            CommandMutability::Mutating => "mutating",
            CommandMutability::Unknown => "unknown",
        }
    }
}

/// Structural rejection reasons; they carry no model-controlled text.
#[derive(Clone, Copy, Debug, PartialEq, Eq, Structural)]
pub enum DecisionError {
    EmptyToolCalls,
    TooManyToolCalls,
    UnknownTool,
    WriteToolRejected,
    InvalidArguments,
    InvalidCommand,
    InvalidReasonSummary,
    InvalidQuestion,
    InvalidFinalSummary,
    InvalidChangeSummary,
    InvalidChangeTitle,
    InvalidChangeSteps,
    InvalidChangeEvidence,
}

/// The message describing a rejection.
pub open spec fn decision_error_message(e: DecisionError) -> &'static str {
    match e {
        DecisionError::EmptyToolCalls => "decision contained no tool calls",
        DecisionError::TooManyToolCalls => "decision requested more than 4 tool calls",
        DecisionError::UnknownTool => "tool name is not in the native tool registry",
        DecisionError::WriteToolRejected => "write tools cannot be requested by the reasoner",
        DecisionError::InvalidArguments => "tool arguments failed structural validation",
        DecisionError::InvalidCommand => "command proposal is empty, multiline, or exceeds the allowed size",
        DecisionError::InvalidReasonSummary => "reason summary is empty or exceeds the allowed size",
        DecisionError::InvalidQuestion => "question is empty or exceeds the allowed size",
        DecisionError::InvalidFinalSummary => "final summary is empty or exceeds the allowed size",
        DecisionError::InvalidChangeSummary => "change proposal summary is empty or exceeds the allowed size",
        DecisionError::InvalidChangeTitle => "change proposal title is empty or exceeds the allowed size",
        DecisionError::InvalidChangeSteps => "change proposal has no steps or exceeds the allowed size",
        DecisionError::InvalidChangeEvidence => "change proposal evidence list is invalid",
    }
}

impl DecisionError {
    /// The message describing the rejection.
    pub fn message(&self) -> (r: &'static str)
        ensures
            r == decision_error_message(*self),
    {
        match self {
            DecisionError::EmptyToolCalls => "decision contained no tool calls",
            DecisionError::TooManyToolCalls => "decision requested more than 4 tool calls",
            DecisionError::UnknownTool => "tool name is not in the native tool registry",
            DecisionError::WriteToolRejected => "write tools cannot be requested by the reasoner",
            DecisionError::InvalidArguments => "tool arguments failed structural validation",
            DecisionError::InvalidCommand => "command proposal is empty, multiline, or exceeds the allowed size",
            DecisionError::InvalidReasonSummary => "reason summary is empty or exceeds the allowed size",
            DecisionError::InvalidQuestion => "question is empty or exceeds the allowed size",
            DecisionError::InvalidFinalSummary => "final summary is empty or exceeds the allowed size",
            DecisionError::InvalidChangeSummary => "change proposal summary is empty or exceeds the allowed size",
            DecisionError::InvalidChangeTitle => "change proposal title is empty or exceeds the allowed size",
            DecisionError::InvalidChangeSteps => "change proposal has no steps or exceeds the allowed size",
            DecisionError::InvalidChangeEvidence => "change proposal evidence list is invalid",
        }
    }

    /// Every rejection shares one stable code.
    pub fn code(&self) -> (r: &'static str)
        ensures
            r@ == AGENT_DECISION_INVALID@,
    {
        AGENT_DECISION_INVALID
    }
}

/// Markers of irreversible, destructive commands.
pub const CRITICAL_MARKERS: [&'static str; 8] = [
    "rm -rf", "mkfs", "wipefs", "dd if=", "shutdown", "poweroff", "reboot", ":(){",
];

/// Markers of state-changing commands anywhere in the text.
pub const MUTATING_MARKERS: [&'static str; 25] = [
    "sudo ",
    " rm ",
    " mv ",
    " cp ",
    " chmod ",
    " chown ",
    " mkdir ",
    " touch ",
    "sed -i",
    "systemctl start",
    "systemctl stop",
    "systemctl restart",
    "systemctl reload",
    "systemctl enable",
    "systemctl disable",
    "docker rm",
    "docker stop",
    "docker restart",
    "docker prune",
    "apt install",
    "apt-get install",
    "dnf install",
    "yum install",
    "pacman -s",
    " tee ",
];

/// State-changing programs when they start the command.
pub const MUTATING_PREFIXES: [&'static str; 7] = [
    "rm ", "mv ", "cp ", "chmod ", "chown ", "mkdir ", "touch ",
];

/// Shell composition that defeats static reading of the command.
pub const COMPOSITION_MARKERS: [&'static str; 9] = [
    "&&", "||", ";", "$(", "`", " -exec ", " xargs ", "sh -c", "bash -c",
];

/// Network fetches whose effect is unknown.
pub const FETCH_MARKERS: [&'static str; 2] = ["curl ", "wget "];

/// The lower-cased command with harmless file-descriptor redirections removed.
pub open spec fn without_fd_redirection(lower: Seq<char>) -> Seq<char> {
    remove_all(
        remove_all(remove_all(remove_all(lower, "2>&1"@), "1>&2"@), "2>/dev/null"@),
        ">/dev/null"@,
    )
}

/// The display classification of a command, checked in order: destructive
/// markers, then state-changing markers or prefixes, then shell composition,
/// then output redirection, then network fetches; anything else is a low-risk
/// read.
pub open spec fn command_class(command: Seq<char>) -> (CommandRisk, CommandMutability) {
    let lower = lower_text(command);
    let rest = without_fd_redirection(lower);
    if has_any_infix(lower, views(CRITICAL_MARKERS@)) {
        (CommandRisk::Critical, CommandMutability::Mutating)
    } else if has_any_infix(lower, views(MUTATING_MARKERS@)) || has_any_prefix(
        trim_start(lower),
        views(MUTATING_PREFIXES@),
    ) {
        (CommandRisk::High, CommandMutability::Mutating)
    } else if has_any_infix(rest, views(COMPOSITION_MARKERS@)) {
        (CommandRisk::High, CommandMutability::Unknown)
    } else if rest.contains('>') {
        (CommandRisk::Medium, CommandMutability::Mutating)
    } else if has_any_infix(lower, views(FETCH_MARKERS@)) {
        (CommandRisk::Medium, CommandMutability::Unknown)
    } else {
        (CommandRisk::Low, CommandMutability::ReadIntent)
    }
}

fn contains_char(s: &[char], c: char) -> (r: bool)
    ensures
        r == s@.contains(c),
{
    let n = s.len();
    for i in 0..n
        invariant
            n == s@.len(),
            forall|j: int| 0 <= j < i ==> s@[j] != c,
    {
        if s[i] == c {
            return true;
        }
    }
    false
}

/// Conservative display classification of a shell command. It is not an
/// authorization decision: every command still requires approval.
pub fn classify_command(command: &str) -> (r: (CommandRisk, CommandMutability))
    ensures
        r == command_class(command@),
{
    let chars = chars_of(command);
    let lower = lower_chars(chars.as_slice());
    if contains_any(lower.as_slice(), CRITICAL_MARKERS.as_slice()) {
        return (CommandRisk::Critical, CommandMutability::Mutating);
    }
    let (start, _end) = trim_bounds(lower.as_slice());
    let mut trimmed: Vec<char> = Vec::new();
    let mut i = start;
    while i < lower.len()
        invariant
            start <= i <= lower@.len(),
            trimmed@ == lower@.subrange(start as int, i as int),
        decreases lower@.len() - i,
    {
        trimmed.push(lower[i]);
        i = i + 1;
    }
    proof {
        assert(trimmed@ =~= trim_start(lower@));
    }
    if contains_any(lower.as_slice(), MUTATING_MARKERS.as_slice()) || starts_with_any(
        trimmed.as_slice(),
        MUTATING_PREFIXES.as_slice(),
    ) {
        return (CommandRisk::High, CommandMutability::Mutating);
    }
    let p1 = chars_of("2>&1");
    let p2 = chars_of("1>&2");
    let p3 = chars_of("2>/dev/null");
    let p4 = chars_of(">/dev/null");
    proof {
        reveal_strlit("2>&1");
        reveal_strlit("1>&2");
        reveal_strlit("2>/dev/null");
        reveal_strlit(">/dev/null");
    }
    let r1 = remove_all_exec(lower.as_slice(), p1.as_slice());
    let r2 = remove_all_exec(r1.as_slice(), p2.as_slice());
    let r3 = remove_all_exec(r2.as_slice(), p3.as_slice());
    let rest = remove_all_exec(r3.as_slice(), p4.as_slice());
    if contains_any(rest.as_slice(), COMPOSITION_MARKERS.as_slice()) {
        return (CommandRisk::High, CommandMutability::Unknown);
    }
    if contains_char(rest.as_slice(), '>') {
        return (CommandRisk::Medium, CommandMutability::Mutating);
    }
    if contains_any(lower.as_slice(), FETCH_MARKERS.as_slice()) {
        return (CommandRisk::Medium, CommandMutability::Unknown);
    }
    (CommandRisk::Low, CommandMutability::ReadIntent)
}

} // verus!

verus! {

/// A bounded command proposal ready to be displayed and bound to approval.
#[derive(Debug)]
pub struct PreparedCommandProposal {
    pub command_id: u128,
    pub command: String,
    pub reason_summary: String,
    pub observation_analysis: Option<String>,
    pub risk: CommandRisk,
    pub mutability: CommandMutability,
}

/// A validated, dispatch-ready read tool call. `invocation` holds the
/// canonical rendering of the typed invocation, which is what approvals bind.
#[derive(Debug)]
pub struct PreparedToolCall {
    pub tool_call_id: u128,
    pub tool_name: String,
    pub reason_summary: String,
    pub invocation: String,
}

/// One shell command proposed by the reasoner.
#[derive(Debug)]
pub struct CommandProposalRequest {
    pub command: String,
    pub reason_summary: String,
    pub observation_analysis: Option<String>,
}

/// A copy of an optional text.
pub fn copy_opt_text(t: &Option<String>) -> (r: Option<String>)
    ensures
        r == *t,
{
    match t {
        Some(s) => Some(s.clone()),
        None => None,
    }
}

impl Clone for PreparedCommandProposal {
    fn clone(&self) -> (r: PreparedCommandProposal)
        ensures
            r == *self,
    {
        PreparedCommandProposal {
            command_id: self.command_id,
            command: self.command.clone(),
            reason_summary: self.reason_summary.clone(),
            observation_analysis: copy_opt_text(&self.observation_analysis),
            risk: self.risk,
            mutability: self.mutability,
        }
    }
}

impl Clone for PreparedToolCall {
    fn clone(&self) -> (r: PreparedToolCall)
        ensures
            r == *self,
    {
        PreparedToolCall {
            tool_call_id: self.tool_call_id,
            tool_name: self.tool_name.clone(),
            reason_summary: self.reason_summary.clone(),
            invocation: self.invocation.clone(),
        }
    }
}

impl Clone for CommandProposalRequest {
    fn clone(&self) -> (r: CommandProposalRequest)
        ensures
            r == *self,
    {
        CommandProposalRequest {
            command: self.command.clone(),
            reason_summary: self.reason_summary.clone(),
            observation_analysis: copy_opt_text(&self.observation_analysis),
        }
    }
}

/// One proposed tool call; `arguments` is the JSON text of its arguments.
#[derive(Debug)]
pub struct ToolCallRequest {
    pub tool_name: String,
    pub arguments: String,
    pub reason_summary: String,
}

/// A decision as a reasoner proposes it: untrusted until validated.
#[derive(Debug)]
pub enum AgentDecision {
    ToolCalls(Vec<ToolCallRequest>),
    CommandProposal(CommandProposalRequest),
    AskUser { question: String },
    Final { summary: String },
}


/// A text from the model is usable: not blank once trimmed, and its trimmed
/// form at most `max_bytes` long.
pub open spec fn user_text_ok(raw: Seq<char>, max_bytes: usize) -> bool {
    trim(raw).len() > 0 && byte_len(trim(raw)) <= max_bytes
}

/// Trims and bounds a text from the model: `None` when it is blank or too
/// long. Redacting secrets from it is the caller's step.
pub fn bounded_user_text(raw: &str, max_bytes: usize) -> (r: Option<String>)
    ensures
        r is Some <==> user_text_ok(raw@, max_bytes),
        r matches Some(t) ==> t@ == trim(raw@),
{
    let chars = trimmed_chars(raw);
    let text = string_from_chars(chars.as_slice());
    if text.as_str().is_empty() || text.as_str().len() > max_bytes {
        return None;
    }
    Some(text)
}

/// How many tool calls one turn may request: at least one, at most
/// `MAX_TOOL_CALLS_PER_TURN`.
pub fn check_tool_call_count(count: usize) -> (r: Result<(), DecisionError>)
    ensures
        r == (if count == 0 {
            Err(DecisionError::EmptyToolCalls)
        } else if count > MAX_TOOL_CALLS_PER_TURN {
            Err(DecisionError::TooManyToolCalls)
        } else {
            Ok::<(), DecisionError>(())
        }),
{
    if count == 0 {
        Err(DecisionError::EmptyToolCalls)
    } else if count > MAX_TOOL_CALLS_PER_TURN {
        Err(DecisionError::TooManyToolCalls)
    } else {
        Ok(())
    }
}

/// A proposed command is one usable line: trimmed, it is not blank, at most
/// `MAX_COMMAND_BYTES` long, and holds neither a NUL nor a line break.
pub open spec fn command_text_ok(command: Seq<char>) -> bool {
    let t = trim(command);
    &&& t.len() > 0
    &&& byte_len(t) <= MAX_COMMAND_BYTES
    &&& !t.contains('\0')
    &&& !t.contains('\n')
}

/// Checks the text of a proposed command and returns it trimmed; anything
/// else is an invalid command. Whether it carries a secret is checked by
/// the caller.
pub fn check_command_text(command: &str) -> (r: Result<String, DecisionError>)
    ensures
        command_text_ok(command@) ==> r is Ok && r->Ok_0@ == trim(command@),
        !command_text_ok(command@) ==> r == Err::<String, DecisionError>(DecisionError::InvalidCommand),
{
    let chars = trimmed_chars(command);
    let mut i: usize = 0;
    while i < chars.len()
        invariant
            chars@ == trim(command@),
            i <= chars@.len(),
            forall|k: int| 0 <= k < i ==> chars@[k] != '\0' && chars@[k] != '\n',
        decreases chars@.len() - i,
    {
        if chars[i] == '\0' || chars[i] == '\n' {
            proof {
                let c = chars@[i as int];
                assert(chars@[i as int] == c);
                assert(chars@.contains(c));
                if c == '\0' {
                    assert(trim(command@).contains('\0'));
                } else {
                    assert(trim(command@).contains('\n'));
                }
            }
            return Err(DecisionError::InvalidCommand);
        }
        i = i + 1;
    }
    let text = string_from_chars(chars.as_slice());
    if text.as_str().is_empty() || text.as_str().len() > MAX_COMMAND_BYTES {
        return Err(DecisionError::InvalidCommand);
    }
    Ok(text)
}


/// A command that mentions a destructive marker anywhere is critical and
/// mutating.
pub proof fn lemma_critical_marker_anywhere(command: Seq<char>, k: int)
    requires
        0 <= k < CRITICAL_MARKERS@.len(),
        has_infix(lower_text(command), CRITICAL_MARKERS@[k]@),
    ensures
        command_class(command) == (CommandRisk::Critical, CommandMutability::Mutating),
{
    assert(views(CRITICAL_MARKERS@)[k] == CRITICAL_MARKERS@[k]@);
}

/// A command that mentions a state-changing marker anywhere in its text
/// (after a pipe too, as in `... | sudo tee FILE`), and no destructive one,
/// is high risk and mutating.
pub proof fn lemma_mutating_marker_anywhere(command: Seq<char>, k: int)
    requires
        0 <= k < MUTATING_MARKERS@.len(),
        has_infix(lower_text(command), MUTATING_MARKERS@[k]@),
        forall|c: int| 0 <= c < CRITICAL_MARKERS@.len() ==> !has_infix(lower_text(command), #[trigger] CRITICAL_MARKERS@[c]@),
    ensures
        command_class(command) == (CommandRisk::High, CommandMutability::Mutating),
{
    assert(views(MUTATING_MARKERS@)[k] == MUTATING_MARKERS@[k]@);
    assert forall|c: int| 0 <= c < views(CRITICAL_MARKERS@).len() implies !has_infix(
        lower_text(command),
        #[trigger] views(CRITICAL_MARKERS@)[c],
    ) by {
        assert(views(CRITICAL_MARKERS@)[c] == CRITICAL_MARKERS@[c]@);
    }
}

/// A command counts as a harmless read only when it mentions no destructive
/// or state-changing marker anywhere.
pub proof fn lemma_reads_mention_no_marker(command: Seq<char>)
    requires
        command_class(command) == (CommandRisk::Low, CommandMutability::ReadIntent),
    ensures
        forall|k: int| 0 <= k < MUTATING_MARKERS@.len() ==> !has_infix(lower_text(command), #[trigger] MUTATING_MARKERS@[k]@),
        forall|k: int| 0 <= k < CRITICAL_MARKERS@.len() ==> !has_infix(lower_text(command), #[trigger] CRITICAL_MARKERS@[k]@),
{
    assert forall|k: int| 0 <= k < CRITICAL_MARKERS@.len() implies !has_infix(lower_text(command), #[trigger] CRITICAL_MARKERS@[k]@) by {
        if has_infix(lower_text(command), CRITICAL_MARKERS@[k]@) {
            lemma_critical_marker_anywhere(command, k);
        }
    }
    assert forall|k: int| 0 <= k < MUTATING_MARKERS@.len() implies !has_infix(lower_text(command), #[trigger] MUTATING_MARKERS@[k]@) by {
        if has_infix(lower_text(command), MUTATING_MARKERS@[k]@) {
            lemma_mutating_marker_anywhere(command, k);
        }
    }
}


/// A command that starts (after leading whitespace) with a state-changing
/// program, and mentions no destructive marker, is high risk and mutating.
pub proof fn lemma_mutating_program_first(command: Seq<char>, k: int)
    requires
        0 <= k < MUTATING_PREFIXES@.len(),
        has_prefix(trim_start(lower_text(command)), MUTATING_PREFIXES@[k]@),
        forall|c: int| 0 <= c < CRITICAL_MARKERS@.len() ==> !has_infix(lower_text(command), #[trigger] CRITICAL_MARKERS@[c]@),
    ensures
        command_class(command) == (CommandRisk::High, CommandMutability::Mutating),
{
    assert(views(MUTATING_PREFIXES@)[k] == MUTATING_PREFIXES@[k]@);
    assert forall|c: int| 0 <= c < views(CRITICAL_MARKERS@).len() implies !has_infix(
        lower_text(command),
        #[trigger] views(CRITICAL_MARKERS@)[c],
    ) by {
        assert(views(CRITICAL_MARKERS@)[c] == CRITICAL_MARKERS@[c]@);
    }
}

/// A command whose classification is a plain read uses no shell
/// composition: once harmless descriptor redirections are removed, it holds
/// none of the composition markers.
pub proof fn lemma_reads_are_not_composed(command: Seq<char>, k: int)
    requires
        command_class(command) == (CommandRisk::Low, CommandMutability::ReadIntent),
        0 <= k < COMPOSITION_MARKERS@.len(),
    ensures
        !has_infix(without_fd_redirection(lower_text(command)), COMPOSITION_MARKERS@[k]@),
{
    assert(views(COMPOSITION_MARKERS@)[k] == COMPOSITION_MARKERS@[k]@);
}

} // verus!
