//! Rebuilding a run's loop state from its event log after a restart: the
//! goal, the observations and user replies the reasoner saw, whether a
//! mutating or unknown command still needs a verification command, and the
//! budget already consumed.
use vstd::prelude::*;
use std::collections::HashMap;
use crate::checkpoint::{AgentCheckpoint, BudgetCheckpoint};
use crate::command::CommandOutcome;
use crate::controller::{command_result, verification_after_spec};
use crate::decision::{mutability_name, CommandMutability, PreparedCommandProposal};
use crate::encoding::{decimal, decimal_text};
use crate::event::{AgentEvent, AgentEventEnvelope};
use crate::fleet_digest::push_str;
use crate::reasoner::Observation;
use crate::text::{string_from_chars, text_eq};

verus! {

broadcast use vstd::std_specs::hash::group_hash_axioms;

/// Tool name of command observations.
pub const COMMAND_TOOL_NAME: &'static str = "agent.command";
/// Summary of a replayed assistant answer.
pub const HISTORICAL_ANSWER_SUMMARY: &'static str = "Previous assistant response (historical context)";

/// The budget recorded in a checkpoint, or nothing consumed without one.
pub fn checkpoint_budget(checkpoint: Option<&AgentCheckpoint>) -> (r: BudgetCheckpoint)
    ensures
        r == (match checkpoint {
            Some(c) => c.budget,
            None => BudgetCheckpoint { rounds_used: 0, tool_calls_used: 0, elapsed_ms: 0 },
        }),
{
    match checkpoint {
        Some(c) => c.budget,
        None => BudgetCheckpoint { rounds_used: 0, tool_calls_used: 0, elapsed_ms: 0 },
    }
}

/// Index of the first user message at or after `k`, or the length.
pub open spec fn first_user_message_from(events: Seq<AgentEventEnvelope>, k: int) -> int
    decreases events.len() - k,
{
    if k < 0 || k >= events.len() {
        events.len() as int
    } else if events[k].event is UserMessageAdded {
        k
    } else {
        first_user_message_from(events, k + 1)
    }
}

/// The goal of a run: the content of its first user message.
pub fn extract_goal(events: &[AgentEventEnvelope]) -> (r: Option<String>)
    ensures
        match r {
            Some(goal) => {
                let i = first_user_message_from(events@, 0);
                &&& i < events@.len()
                &&& events@[i].event matches AgentEvent::UserMessageAdded { content }
                &&& goal == content
            },
            None => first_user_message_from(events@, 0) >= events@.len(),
        },
{
    let mut i: usize = 0;
    while i < events.len()
        invariant
            i <= events@.len(),
            first_user_message_from(events@, i as int) == first_user_message_from(events@, 0),
        decreases events@.len() - i,
    {
        match &events[i].event {
            AgentEvent::UserMessageAdded { content } => return Some(content.clone()),
            _ => {},
        }
        i = i + 1;
    }
    None
}

/// Whether a mutability label asks for a follow-up verification.
pub open spec fn needs_verification(label: Seq<char>) -> bool {
    label == "mutating"@ || label == "unknown"@
}

/// Replay of the verification requirement: the mutability proposed for each
/// command, and whether a verification is still owed. A completed read
/// command settles it; a completed or failed mutating or unknown command
/// makes it owed.
pub open spec fn verification_scan(events: Seq<AgentEventEnvelope>) -> (Map<u128, String>, bool)
    decreases events.len(),
{
    if events.len() == 0 {
        (Map::empty(), false)
    } else {
        let (m, required) = verification_scan(events.drop_last());
        match events.last().event {
            AgentEvent::CommandProposed { command_id, mutability, .. } => (m.insert(command_id, mutability), required),
            AgentEvent::CommandCompleted { command_id, .. } => if m.contains_key(command_id) && m[command_id]@
                == "read"@ {
                (m, false)
            } else if m.contains_key(command_id) && needs_verification(m[command_id]@) {
                (m, true)
            } else {
                (m, required)
            },
            AgentEvent::CommandFailed { command_id, .. } => if m.contains_key(command_id) && needs_verification(
                m[command_id]@,
            ) {
                (m, true)
            } else {
                (m, required)
            },
            _ => (m, required),
        }
    }
}

/// Replaying the proposal of a command registers its mutability and leaves
/// the owed verification as it was.
pub proof fn lemma_replayed_proposal_registers_mutability(
    log: Seq<AgentEventEnvelope>,
    command: PreparedCommandProposal,
    e: AgentEventEnvelope,
)
    requires
        e.event matches AgentEvent::CommandProposed { command_id, mutability, .. }
            && command_id == command.command_id && mutability@ == mutability_name(command.mutability),
    ensures
        verification_scan(log.push(e)).0.contains_key(command.command_id),
        verification_scan(log.push(e)).0[command.command_id]@ == mutability_name(command.mutability),
        verification_scan(log.push(e)).1 == verification_scan(log).1,
{
    assert(log.push(e).drop_last() =~= log);
}

/// Replaying an event that neither proposes a command nor reports one's
/// result changes nothing of the verification replay.
pub proof fn lemma_replay_ignores_other_events(log: Seq<AgentEventEnvelope>, e: AgentEventEnvelope)
    requires
        !(e.event is CommandProposed),
        !(e.event is CommandCompleted),
        !(e.event is CommandFailed),
    ensures
        verification_scan(log.push(e)) == verification_scan(log),
{
    assert(log.push(e).drop_last() =~= log);
}

/// Replaying a command's recorded result gives back the verification duty
/// the live run derived from it: once the command's proposal is in the
/// log, appending the result's event leaves the replayed duty equal to the
/// live one.
pub proof fn lemma_replayed_result_matches_live_duty(
    log: Seq<AgentEventEnvelope>,
    command: PreparedCommandProposal,
    outcome: CommandOutcome,
    e: AgentEventEnvelope,
)
    requires
        verification_scan(log).0.contains_key(command.command_id),
        verification_scan(log).0[command.command_id]@ == mutability_name(command.mutability),
        command_result(e.event, command, outcome),
    ensures
        verification_scan(log.push(e)).1 == verification_after_spec(
            verification_scan(log).1,
            command.mutability,
            outcome.success,
        ),
        verification_scan(log.push(e)).0 == verification_scan(log).0,
{
    reveal_strlit("read");
    reveal_strlit("mutating");
    reveal_strlit("unknown");
    let pushed = log.push(e);
    assert(pushed.drop_last() =~= log);
    assert(pushed.last() == e);
    let label = verification_scan(log).0[command.command_id]@;
    match command.mutability {
        CommandMutability::ReadIntent => {
            assert(label =~= "read"@);
            assert(!needs_verification(label));
        },
        CommandMutability::Mutating => {
            assert(label =~= "mutating"@);
            assert(label != "read"@);
        },
        CommandMutability::Unknown => {
            assert(label =~= "unknown"@);
            assert(label != "read"@);
        },
    }
}

/// Whether the replayed run still owes a verification command.
pub fn extract_pending_command_verification(events: &[AgentEventEnvelope]) -> (r: bool)
    ensures
        r == verification_scan(events@).1,
{
    proof {
        reveal_strlit("read");
        reveal_strlit("mutating");
        reveal_strlit("unknown");
    }
    let mut by_command: HashMap<u128, String> = HashMap::new();
    let mut required = false;
    let mut i: usize = 0;
    while i < events.len()
        invariant
            i <= events@.len(),
            (by_command@, required) == verification_scan(events@.take(i as int)),
        decreases events@.len() - i,
    {
        proof {
            assert(events@.take(i + 1).drop_last() =~= events@.take(i as int));
        }
        match &events[i].event {
            AgentEvent::CommandProposed { command_id, mutability, .. } => {
                by_command.insert(*command_id, mutability.clone());
            },
            AgentEvent::CommandCompleted { command_id, .. } => {
                match by_command.get(command_id) {
                    Some(label) => {
                        if text_eq(label.as_str(), "read") {
                            required = false;
                        } else if text_eq(label.as_str(), "mutating") || text_eq(label.as_str(), "unknown") {
                            required = true;
                        }
                    },
                    None => {},
                }
            },
            AgentEvent::CommandFailed { command_id, .. } => {
                match by_command.get(command_id) {
                    Some(label) => {
                        if text_eq(label.as_str(), "mutating") || text_eq(label.as_str(), "unknown") {
                            required = true;
                        }
                    },
                    None => {},
                }
            },
            _ => {},
        }
        i = i + 1;
    }
    assert(events@.take(events@.len() as int) =~= events@);
    required
}

/// What an observation is, as text.
pub struct ObservationView {
    pub tool_call_id: Option<u128>,
    pub tool_name: Option<Seq<char>>,
    pub success: bool,
    pub error_code: Option<Seq<char>>,
    pub summary: Seq<char>,
    pub detail: Option<Seq<char>>,
}

pub open spec fn text_opt(o: Option<String>) -> Option<Seq<char>> {
    match o {
        Some(s) => Some(s@),
        None => None,
    }
}

pub open spec fn observation_view(o: Observation) -> ObservationView {
    ObservationView {
        tool_call_id: o.tool_call_id,
        tool_name: text_opt(o.tool_name),
        success: o.success,
        error_code: text_opt(o.error_code),
        summary: o.summary@,
        detail: text_opt(o.detail),
    }
}

pub open spec fn observation_views(v: Seq<Observation>) -> Seq<ObservationView> {
    v.map_values(|o: Observation| observation_view(o))
}

pub open spec fn string_views(v: Seq<String>) -> Seq<Seq<char>> {
    v.map_values(|s: String| s@)
}

/// The command text proposed under an id, or `unknown`.
pub open spec fn command_text(commands: Map<u128, String>, id: u128) -> Seq<char> {
    if commands.contains_key(id) { commands[id]@ } else { "unknown"@ }
}

/// Detail of a replayed command result.
pub open spec fn command_detail(commands: Map<u128, String>, id: u128, preview: Seq<char>) -> Seq<char> {
    "Command: "@ + command_text(commands, id) + "\nOutput preview:\n"@ + preview
}

/// Summary of a replayed successful command.
pub open spec fn completed_summary(exit_code: Option<u32>) -> Seq<char> {
    match exit_code {
        Some(code) => "Terminal command completed"@ + " with exit code "@ + decimal(code as nat),
        None => "Terminal command completed"@,
    }
}

/// Summary of a replayed failed command.
pub open spec fn failed_summary(exit_code: Option<u32>) -> Seq<char> {
    "Command failed with exit code "@ + match exit_code {
        Some(code) => decimal(code as nat),
        None => "unavailable"@,
    }
}

/// Replay of the loop state: the observations and user messages in event
/// order, and the commands proposed so far.
pub open spec fn loop_scan(events: Seq<AgentEventEnvelope>) -> (Seq<ObservationView>, Seq<Seq<char>>, Map<u128, String>)
    decreases events.len(),
{
    if events.len() == 0 {
        (Seq::empty(), Seq::empty(), Map::empty())
    } else {
        let (obs, replies, commands) = loop_scan(events.drop_last());
        match events.last().event {
            AgentEvent::CommandProposed { command_id, command, .. } => (obs, replies, commands.insert(command_id, command)),
            AgentEvent::CommandCompleted { command_id, exit_code, output_preview, .. } => (
                obs.push(ObservationView {
                    tool_call_id: Some(command_id),
                    tool_name: Some(COMMAND_TOOL_NAME@),
                    success: true,
                    error_code: None,
                    summary: completed_summary(exit_code),
                    detail: Some(command_detail(commands, command_id, output_preview@)),
                }),
                replies,
                commands,
            ),
            AgentEvent::CommandFailed { command_id, exit_code, output_preview, error_code, .. } => (
                obs.push(ObservationView {
                    tool_call_id: Some(command_id),
                    tool_name: Some(COMMAND_TOOL_NAME@),
                    success: false,
                    error_code: Some(error_code@),
                    summary: failed_summary(exit_code),
                    detail: Some(command_detail(commands, command_id, output_preview@)),
                }),
                replies,
                commands,
            ),
            AgentEvent::ObservationAdded { summary } => (
                obs.push(ObservationView {
                    tool_call_id: None,
                    tool_name: None,
                    success: true,
                    error_code: None,
                    summary: summary@,
                    detail: None,
                }),
                replies,
                commands,
            ),
            AgentEvent::UserMessageAdded { content } => (obs, replies.push(content@), commands),
            AgentEvent::AssistantMessageAdded { content } => (
                obs.push(ObservationView {
                    tool_call_id: None,
                    tool_name: None,
                    success: true,
                    error_code: None,
                    summary: HISTORICAL_ANSWER_SUMMARY@,
                    detail: Some(content@),
                }),
                replies,
                commands,
            ),
            _ => (obs, replies, commands),
        }
    }
}

/// `text` followed by the decimal digits of `n`.
fn push_decimal(out: &mut Vec<char>, n: u32)
    ensures
        final(out)@ == old(out)@ + decimal(n as nat),
{
    let digits = decimal_text(n as u64);
    let mut i: usize = 0;
    let ghost base = out@;
    while i < digits.len()
        invariant
            i <= digits@.len(),
            out@ == base + digits@.take(i as int),
        decreases digits@.len() - i,
    {
        out.push(digits[i]);
        proof {
            assert(digits@.take(i + 1) =~= digits@.take(i as int).push(digits@[i as int]));
        }
        i = i + 1;
    }
    assert(digits@.take(digits@.len() as int) =~= digits@);
}

/// The detail text of a replayed command result.
fn command_detail_text(commands: &HashMap<u128, String>, id: u128, preview: &String) -> (r: String)
    ensures
        r@ == command_detail(commands@, id, preview@),
{
    proof {
        reveal_strlit("unknown");
    }
    let mut out: Vec<char> = Vec::new();
    push_str(&mut out, "Command: ");
    match commands.get(&id) {
        Some(command) => push_str(&mut out, command.as_str()),
        None => push_str(&mut out, "unknown"),
    }
    push_str(&mut out, "\nOutput preview:\n");
    push_str(&mut out, preview.as_str());
    string_from_chars(out.as_slice())
}

/// The observations and user replies the reasoner had before a restart,
/// rebuilt from the event log.
pub fn extract_loop_state(events: &[AgentEventEnvelope]) -> (r: (Vec<Observation>, Vec<String>))
    ensures
        observation_views(r.0@) == loop_scan(events@).0,
        string_views(r.1@) == loop_scan(events@).1,
{
    let mut observations: Vec<Observation> = Vec::new();
    let mut user_replies: Vec<String> = Vec::new();
    let mut commands: HashMap<u128, String> = HashMap::new();
    let mut i: usize = 0;
    while i < events.len()
        invariant
            i <= events@.len(),
            (observation_views(observations@), string_views(user_replies@), commands@) == loop_scan(events@.take(i as int)),
        decreases events@.len() - i,
    {
        proof {
            assert(events@.take(i + 1).drop_last() =~= events@.take(i as int));
        }
        let ghost obs_before = observations@;
        let ghost replies_before = user_replies@;
        match &events[i].event {
            AgentEvent::CommandProposed { command_id, command, .. } => {
                commands.insert(*command_id, command.clone());
            },
            AgentEvent::CommandCompleted { command_id, exit_code, output_preview, .. } => {
                let mut summary: Vec<char> = Vec::new();
                push_str(&mut summary, "Terminal command completed");
                match exit_code {
                    Some(code) => {
                        push_str(&mut summary, " with exit code ");
                        push_decimal(&mut summary, *code);
                    },
                    None => {},
                }
                let detail = command_detail_text(&commands, *command_id, output_preview);
                observations.push(Observation {
                    tool_call_id: Some(*command_id),
                    tool_name: Some(COMMAND_TOOL_NAME.to_owned()),
                    success: true,
                    error_code: None,
                    summary: string_from_chars(summary.as_slice()),
                    detail: Some(detail),
                });
            },
            AgentEvent::CommandFailed { command_id, exit_code, output_preview, error_code, .. } => {
                let mut summary: Vec<char> = Vec::new();
                push_str(&mut summary, "Command failed with exit code ");
                match exit_code {
                    Some(code) => push_decimal(&mut summary, *code),
                    None => push_str(&mut summary, "unavailable"),
                }
                let detail = command_detail_text(&commands, *command_id, output_preview);
                observations.push(Observation {
                    tool_call_id: Some(*command_id),
                    tool_name: Some(COMMAND_TOOL_NAME.to_owned()),
                    success: false,
                    error_code: Some(error_code.clone()),
                    summary: string_from_chars(summary.as_slice()),
                    detail: Some(detail),
                });
            },
            AgentEvent::ObservationAdded { summary } => {
                observations.push(Observation {
                    tool_call_id: None,
                    tool_name: None,
                    success: true,
                    error_code: None,
                    summary: summary.clone(),
                    detail: None,
                });
            },
            AgentEvent::UserMessageAdded { content } => {
                user_replies.push(content.clone());
            },
            AgentEvent::AssistantMessageAdded { content } => {
                observations.push(Observation {
                    tool_call_id: None,
                    tool_name: None,
                    success: true,
                    error_code: None,
                    summary: HISTORICAL_ANSWER_SUMMARY.to_owned(),
                    detail: Some(content.clone()),
                });
            },
            _ => {},
        }
        proof {
            assert(observation_views(observations@) =~= observation_views(obs_before) || observation_views(observations@)
                =~= observation_views(obs_before).push(observation_view(observations@.last())));
            assert(string_views(user_replies@) =~= string_views(replies_before) || string_views(user_replies@)
                =~= string_views(replies_before).push(user_replies@.last()@));
        }
        i = i + 1;
    }
    assert(events@.take(events@.len() as int) =~= events@);
    (observations, user_replies)
}

} // verus!
