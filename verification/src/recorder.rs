//! Recording a run's events: every event takes the run's next sequence
//! number, is appended to the run's log, and the advanced run is saved with
//! it, so the persisted log of a run is always `1, 2, 3, ...` without gaps.
use vstd::prelude::*;
use vstd::utf8::encode_utf8;
use crate::approval::{
    call_approval_verdict, call_hashable, change_set_approval_verdict, command_approval_verdict, command_hashable,
    reason_text, validate_pending_approval, validate_pending_change_set_approval, validate_pending_command_approval,
    bound_to_call, bound_to_command, copy_ids, ApprovalInvalidationReason, ApprovalRequest, ApprovalRequestState,
    COMMAND_APPROVAL_NAME,
};
use crate::controller::{
    call_invalidation, call_rejection, change_set_invalidation, change_set_rejection, command_invalidation,
    command_rejection, goal_ok, invalidated_call_observation, invalidated_change_set_observation,
    invalidated_command_observation, rejected_call_observation, rejected_change_set_observation,
    rejected_command_observation, command_observation, command_result, command_result_event,
    command_result_observation, verification_after_command, verification_after_spec, AgentControllerError,
    RunOutcome, MAX_GOAL_BYTES, blocked_command_observation, command_block, tool_observation,
    tool_observation_summary, tool_outcome_event, tool_result_event,
};
use crate::checkpoint::{AgentCheckpoint, BudgetCheckpoint, PendingInterruptRef};
use crate::clock::now_epoch_ms;
use crate::artifact::{
    artifact_reference, should_store_as_artifact, store_large_output, truncated, ArtifactReference,
    InMemoryArtifactStore, ARTIFACT_INLINE_THRESHOLD_BYTES, ARTIFACT_SUMMARY_CHARS,
};
use crate::changeset::CHANGESET_EXECUTION_FAILED;
use crate::command::CommandOutcome;
use crate::dispatch::ToolOutcome;
use crate::facts::{without_targets, WorkingFactSet};
use crate::encoding::{decimal, decimal_text, push_id_text, uuid_text};
use crate::gate::CommandAuthorization;
use crate::metrics::{add_saturating, bump, failed, observed, RunMetrics};
use crate::reasoner::Observation;
use crate::fleet_digest::push_str;
use crate::text::{string_from_chars, trimmed_chars};
use crate::decision::{mutability_name, risk_name, PreparedCommandProposal, PreparedToolCall};
use crate::event::{AgentEvent, AgentEventEnvelope};
use crate::repository::{
    decided_copy, invalidated_copy, log_of, pending_for, AgentStoreError, InMemoryAgentEventRepository,
    InMemoryAgentRunStore, InMemoryApprovalStore, InMemoryCheckpointStore, InMemoryPendingToolCallStore,
};
use crate::run::{AgentRun, RunView};
use crate::state::{lemma_cancel_and_fail_always_reachable, state_is_terminal, state_step, AgentRunStateV2, AgentStateError};

verus! {

/// The log holds exactly the sequence numbers `1 .. next_seq - 1`, in order.
pub open spec fn log_contiguous(log: Seq<AgentEventEnvelope>, next_seq: u64) -> bool {
    &&& log.len() + 1 == next_seq
    &&& forall|i: int| 0 <= i < log.len() ==> (#[trigger] log[i]).seq == i + 1
}

/// Emits one event of a run: it takes the run's next sequence number, is
/// appended to the run's log, and the advanced run is saved. The log stays
/// contiguous. Saving fails only for a run the store does not know.
pub fn emit(
    run: &mut AgentRun,
    events: &mut InMemoryAgentEventRepository,
    runs: &mut InMemoryAgentRunStore,
    event: AgentEvent,
    timestamp_epoch_ms: u64,
) -> (r: Result<(), AgentControllerError>)
    requires
        old(events).wf(),
        log_contiguous(log_of(old(events)@, old(run)@.id), old(run)@.next_event_seq),
        old(run)@.next_event_seq < u64::MAX,
    ensures
        final(events).wf(),
        final(run)@.next_event_seq == old(run)@.next_event_seq + 1,
        final(run)@.id == old(run)@.id,
        final(run)@.state == old(run)@.state,
        final(run)@.created_at_epoch_ms == old(run)@.created_at_epoch_ms,
        final(run)@.updated_at_epoch_ms == old(run)@.updated_at_epoch_ms,
        final(events)@ == old(events)@.insert(
            old(run)@.id,
            log_of(old(events)@, old(run)@.id).push(
                AgentEventEnvelope { run_id: old(run)@.id, seq: old(run)@.next_event_seq, timestamp_epoch_ms, event },
            ),
        ),
        log_contiguous(log_of(final(events)@, final(run)@.id), final(run)@.next_event_seq),
        old(runs)@.contains_key(old(run)@.id) ==> r is Ok && final(runs)@ == old(runs)@.insert(old(run)@.id, *final(run)),
        !old(runs)@.contains_key(old(run)@.id) ==> r == Err::<(), AgentControllerError>(
            AgentControllerError::Store(AgentStoreError::RunNotFound),
        ) && final(runs)@ == old(runs)@,
{
    let seq = run.next_event_sequence();
    let run_id = run.id();
    let envelope = AgentEventEnvelope { run_id, seq, timestamp_epoch_ms, event };
    let ghost expected = envelope;
    let appended = events.append(envelope);
    assert(appended is Ok);
    proof {
        let new_log = log_of(old(events)@, run_id).push(expected);
        assert(log_of(events@, run_id) == new_log);
        assert forall|i: int| 0 <= i < new_log.len() implies (#[trigger] new_log[i]).seq == i + 1 by {
            if i < new_log.len() - 1 {
                assert(new_log[i] == log_of(old(events)@, run_id)[i]);
            }
        }
    }
    match runs.save(run) {
        Ok(()) => Ok(()),
        Err(e) => Err(AgentControllerError::Store(e)),
    }
}

/// Moves a run to another state and saves it: a move the transition table
/// refuses leaves run and store unchanged.
pub fn transition_and_save(
    run: &mut AgentRun,
    runs: &mut InMemoryAgentRunStore,
    next: AgentRunStateV2,
) -> (r: Result<(), AgentControllerError>)
    ensures
        !state_step(old(run)@.state, next) ==> {
            &&& r == Err::<(), AgentControllerError>(AgentControllerError::State(
                crate::state::AgentStateError { from: old(run)@.state, to: next },
            ))
            &&& final(run)@ == old(run)@
            &&& final(runs)@ == old(runs)@
        },
        state_step(old(run)@.state, next) ==> {
            &&& final(run)@.state == next
            &&& final(run)@.id == old(run)@.id
            &&& final(run)@.next_event_seq == old(run)@.next_event_seq
            &&& final(run)@.created_at_epoch_ms == old(run)@.created_at_epoch_ms
            &&& final(run)@.updated_at_epoch_ms >= old(run)@.updated_at_epoch_ms
            &&& (old(runs)@.contains_key(old(run)@.id) ==> r is Ok && final(runs)@ == old(runs)@.insert(
                old(run)@.id,
                *final(run),
            ))
            &&& (!old(runs)@.contains_key(old(run)@.id) ==> r == Err::<(), AgentControllerError>(
                AgentControllerError::Store(AgentStoreError::RunNotFound),
            ) && final(runs)@ == old(runs)@)
        },
{
    match run.transition_to(next) {
        Ok(()) => {},
        Err(e) => return Err(AgentControllerError::State(e)),
    }
    match runs.save(run) {
        Ok(()) => Ok(()),
        Err(e) => Err(AgentControllerError::Store(e)),
    }
}

/// Recording keeps a run's log contiguous: starting from an empty log at
/// sequence one, any number of emissions leaves the log holding exactly
/// `1 .. next_seq - 1`.
pub proof fn lemma_emission_keeps_log_contiguous(log: Seq<AgentEventEnvelope>, next_seq: u64, e: AgentEventEnvelope)
    requires
        log_contiguous(log, next_seq),
        e.seq == next_seq,
        next_seq < u64::MAX,
    ensures
        log_contiguous(log.push(e), (next_seq + 1) as u64),
        log_contiguous(Seq::<AgentEventEnvelope>::empty(), 1),
{
    assert forall|i: int| 0 <= i < log.push(e).len() implies (#[trigger] log.push(e)[i]).seq == i + 1 by {
        if i < log.len() {
            assert(log.push(e)[i] == log[i]);
        }
    }
}


/// Opens a new run: the run is stored, and its log starts with `RunCreated`
/// and then the goal as the user's first message. A run whose id the store
/// already knows is refused and nothing changes.
pub fn open_run(
    run: &mut AgentRun,
    goal: String,
    events: &mut InMemoryAgentEventRepository,
    runs: &mut InMemoryAgentRunStore,
    timestamp_epoch_ms: u64,
) -> (r: Result<(), AgentControllerError>)
    requires
        old(events).wf(),
        old(run)@.next_event_seq == 1,
        log_of(old(events)@, old(run)@.id).len() == 0,
    ensures
        old(runs)@.contains_key(old(run)@.id) ==> {
            &&& r == Err::<(), AgentControllerError>(AgentControllerError::Store(AgentStoreError::RunAlreadyExists))
            &&& final(runs)@ == old(runs)@
            &&& final(events)@ == old(events)@
            &&& final(run)@ == old(run)@
        },
        !old(runs)@.contains_key(old(run)@.id) ==> {
            &&& r is Ok
            &&& final(events).wf()
            &&& final(run)@ == (RunView { next_event_seq: 3, ..old(run)@ })
            &&& final(runs)@ == old(runs)@.insert(old(run)@.id, *final(run))
            &&& final(events)@ == old(events)@.insert(
                old(run)@.id,
                seq![
                    AgentEventEnvelope { run_id: old(run)@.id, seq: 1, timestamp_epoch_ms, event: AgentEvent::RunCreated },
                    AgentEventEnvelope {
                        run_id: old(run)@.id,
                        seq: 2,
                        timestamp_epoch_ms,
                        event: AgentEvent::UserMessageAdded { content: goal },
                    },
                ],
            )
        },
{
    let ghost goal_text = goal;
    match runs.insert(*run) {
        Ok(()) => {},
        Err(e) => return Err(AgentControllerError::Store(e)),
    }
    let ghost id = run@.id;
    proof {
        assert(log_contiguous(log_of(events@, id), 1)) by {
            assert(log_of(events@, id).len() == 0);
        }
    }
    match emit(run, events, runs, AgentEvent::RunCreated, timestamp_epoch_ms) {
        Ok(()) => {},
        Err(e) => return Err(e),
    }
    match emit(run, events, runs, AgentEvent::UserMessageAdded { content: goal }, timestamp_epoch_ms) {
        Ok(()) => {},
        Err(e) => return Err(e),
    }
    proof {
        assert(log_of(events@, id) =~= seq![
            AgentEventEnvelope { run_id: id, seq: 1, timestamp_epoch_ms, event: AgentEvent::RunCreated },
            AgentEventEnvelope { run_id: id, seq: 2, timestamp_epoch_ms, event: AgentEvent::UserMessageAdded { content: goal_text } },
        ]);
    }
    Ok(())
}


/// The log of a run after one more event: the old log with `e` appended,
/// where `e` is the run's next event at `timestamp_epoch_ms`.
pub open spec fn appended_one(
    before: Map<u128, Seq<AgentEventEnvelope>>,
    after: Map<u128, Seq<AgentEventEnvelope>>,
    run_id: u128,
    seq: u64,
    timestamp_epoch_ms: u64,
) -> bool {
    let old_log = log_of(before, run_id);
    let log = log_of(after, run_id);
    &&& after == before.insert(run_id, log)
    &&& log.len() == old_log.len() + 1
    &&& log.take(old_log.len() as int) == old_log
    &&& log.last().run_id == run_id
    &&& log.last().seq == seq
    &&& log.last().timestamp_epoch_ms == timestamp_epoch_ms
}

/// Moves a live run to `next`, saves it and records `event`.
fn finish_with(
    run: &mut AgentRun,
    events: &mut InMemoryAgentEventRepository,
    runs: &mut InMemoryAgentRunStore,
    next: AgentRunStateV2,
    event: AgentEvent,
    timestamp_epoch_ms: u64,
) -> (r: Result<(), AgentControllerError>)
    requires
        old(events).wf(),
        log_contiguous(log_of(old(events)@, old(run)@.id), old(run)@.next_event_seq),
        old(run)@.next_event_seq < u64::MAX,
        old(runs)@.contains_key(old(run)@.id),
        state_step(old(run)@.state, next),
    ensures
        r is Ok,
        final(events).wf(),
        final(run)@.state == next,
        final(run)@.id == old(run)@.id,
        final(run)@.next_event_seq == old(run)@.next_event_seq + 1,
        final(run)@.created_at_epoch_ms == old(run)@.created_at_epoch_ms,
        final(run)@.updated_at_epoch_ms >= old(run)@.updated_at_epoch_ms,
        final(runs)@ == old(runs)@.insert(old(run)@.id, *final(run)),
        final(events)@ == old(events)@.insert(
            old(run)@.id,
            log_of(old(events)@, old(run)@.id).push(
                AgentEventEnvelope { run_id: old(run)@.id, seq: old(run)@.next_event_seq, timestamp_epoch_ms, event },
            ),
        ),
        log_contiguous(log_of(final(events)@, final(run)@.id), final(run)@.next_event_seq),
{
    match transition_and_save(run, runs, next) {
        Ok(()) => {},
        Err(e) => return Err(e),
    }
    emit(run, events, runs, event, timestamp_epoch_ms)
}

/// Cancels a run that is not finished: it becomes cancelled and records
/// `RunCancelled`. A finished run is refused and nothing changes.
pub fn cancel_run(
    run: &mut AgentRun,
    events: &mut InMemoryAgentEventRepository,
    runs: &mut InMemoryAgentRunStore,
    timestamp_epoch_ms: u64,
) -> (r: Result<RunOutcome, AgentControllerError>)
    requires
        old(events).wf(),
        log_contiguous(log_of(old(events)@, old(run)@.id), old(run)@.next_event_seq),
        old(run)@.next_event_seq < u64::MAX,
    ensures
        !old(runs)@.contains_key(old(run)@.id) ==> {
            &&& r == Err::<RunOutcome, AgentControllerError>(AgentControllerError::Store(AgentStoreError::RunNotFound))
            &&& final(run)@ == old(run)@
            &&& final(events)@ == old(events)@
            &&& final(runs)@ == old(runs)@
        },
        old(runs)@.contains_key(old(run)@.id) ==> (state_is_terminal(old(run)@.state) ==> {
            &&& r matches Err(e) && e == AgentControllerError::AlreadyTerminal
            &&& final(run)@ == old(run)@
            &&& final(runs)@ == old(runs)@
            &&& final(events)@ == old(events)@
        }),
        old(runs)@.contains_key(old(run)@.id) ==> (!state_is_terminal(old(run)@.state) ==> {
            &&& r matches Ok(RunOutcome::Cancelled)
            &&& final(events).wf()
            &&& final(run)@.state == AgentRunStateV2::Cancelled
            &&& final(run)@.id == old(run)@.id
            &&& final(run)@.next_event_seq == old(run)@.next_event_seq + 1
            &&& final(runs)@ == old(runs)@.insert(old(run)@.id, *final(run))
            &&& final(events)@ == old(events)@.insert(
                old(run)@.id,
                log_of(old(events)@, old(run)@.id).push(AgentEventEnvelope {
                    run_id: old(run)@.id,
                    seq: old(run)@.next_event_seq,
                    timestamp_epoch_ms,
                    event: AgentEvent::RunCancelled,
                }),
            )
        }),
{
    match runs.get(run.id()) {
        Ok(Some(_)) => {},
        _ => return Err(AgentControllerError::Store(AgentStoreError::RunNotFound)),
    }
    if run.state().is_terminal() {
        return Err(AgentControllerError::AlreadyTerminal);
    }
    proof {
        lemma_cancel_and_fail_always_reachable(run@.state);
    }
    match finish_with(run, events, runs, AgentRunStateV2::Cancelled, AgentEvent::RunCancelled, timestamp_epoch_ms) {
        Ok(()) => Ok(RunOutcome::Cancelled),
        Err(e) => Err(e),
    }
}

/// Fails a run with a stable code: it becomes failed and records
/// `RunFailed` with the code. A finished run cannot fail again; the move is
/// refused and nothing changes.
pub fn fail_run(
    run: &mut AgentRun,
    events: &mut InMemoryAgentEventRepository,
    runs: &mut InMemoryAgentRunStore,
    error_code: &'static str,
    timestamp_epoch_ms: u64,
) -> (r: Result<RunOutcome, AgentControllerError>)
    requires
        old(events).wf(),
        log_contiguous(log_of(old(events)@, old(run)@.id), old(run)@.next_event_seq),
        old(run)@.next_event_seq < u64::MAX,
    ensures
        !old(runs)@.contains_key(old(run)@.id) ==> {
            &&& r == Err::<RunOutcome, AgentControllerError>(AgentControllerError::Store(AgentStoreError::RunNotFound))
            &&& final(run)@ == old(run)@
            &&& final(events)@ == old(events)@
            &&& final(runs)@ == old(runs)@
        },
        old(runs)@.contains_key(old(run)@.id) ==> (state_is_terminal(old(run)@.state) ==> {
            &&& r matches Err(e) && e == AgentControllerError::State(
                AgentStateError { from: old(run)@.state, to: AgentRunStateV2::Failed },
            )
            &&& final(run)@ == old(run)@
            &&& final(runs)@ == old(runs)@
            &&& final(events)@ == old(events)@
        }),
        old(runs)@.contains_key(old(run)@.id) ==> (!state_is_terminal(old(run)@.state) ==> {
            &&& r matches Ok(RunOutcome::Failed { error_code: c }) && c == error_code
            &&& final(events).wf()
            &&& final(run)@.state == AgentRunStateV2::Failed
            &&& final(run)@.id == old(run)@.id
            &&& final(run)@.next_event_seq == old(run)@.next_event_seq + 1
            &&& final(runs)@ == old(runs)@.insert(old(run)@.id, *final(run))
            &&& appended_one(old(events)@, final(events)@, old(run)@.id, old(run)@.next_event_seq, timestamp_epoch_ms)
            &&& log_of(final(events)@, old(run)@.id).last().event matches AgentEvent::RunFailed { error_code: t }
                && t@ == error_code@
        }),
{
    match runs.get(run.id()) {
        Ok(Some(_)) => {},
        _ => return Err(AgentControllerError::Store(AgentStoreError::RunNotFound)),
    }
    if run.state().is_terminal() {
        return Err(AgentControllerError::State(AgentStateError { from: run.state(), to: AgentRunStateV2::Failed }));
    }
    proof {
        lemma_cancel_and_fail_always_reachable(run@.state);
    }
    let ghost before = events@;
    let ghost id = run@.id;
    let event = AgentEvent::RunFailed { error_code: error_code.to_owned() };
    let ghost e = event;
    match finish_with(run, events, runs, AgentRunStateV2::Failed, event, timestamp_epoch_ms) {
        Ok(()) => {},
        Err(e) => return Err(e),
    }
    proof {
        let old_log = log_of(before, id);
        assert(log_of(events@, id).take(old_log.len() as int) =~= old_log);
    }
    Ok(RunOutcome::Failed { error_code })
}

/// States a user may pause from: the read and reasoning phases.
pub open spec fn pausable(s: AgentRunStateV2) -> bool {
    s is Running || s is Reasoning || s is Acting || s is Observing || s is Diagnosed || s is PlanningChange
}

/// Pauses a run in a read or reasoning phase: it becomes paused and records
/// `RunPaused`. Any other state is refused and nothing changes.
pub fn pause_run(
    run: &mut AgentRun,
    events: &mut InMemoryAgentEventRepository,
    runs: &mut InMemoryAgentRunStore,
    timestamp_epoch_ms: u64,
) -> (r: Result<(), AgentControllerError>)
    requires
        old(events).wf(),
        log_contiguous(log_of(old(events)@, old(run)@.id), old(run)@.next_event_seq),
        old(run)@.next_event_seq < u64::MAX,
    ensures
        !old(runs)@.contains_key(old(run)@.id) ==> {
            &&& r == Err::<(), AgentControllerError>(AgentControllerError::Store(AgentStoreError::RunNotFound))
            &&& final(run)@ == old(run)@
            &&& final(events)@ == old(events)@
            &&& final(runs)@ == old(runs)@
        },
        old(runs)@.contains_key(old(run)@.id) ==> (!pausable(old(run)@.state) ==> {
            &&& r == Err::<(), AgentControllerError>(AgentControllerError::State(
                AgentStateError { from: old(run)@.state, to: AgentRunStateV2::Paused },
            ))
            &&& final(run)@ == old(run)@
            &&& final(runs)@ == old(runs)@
            &&& final(events)@ == old(events)@
        }),
        old(runs)@.contains_key(old(run)@.id) ==> (pausable(old(run)@.state) ==> {
            &&& r is Ok
            &&& final(events).wf()
            &&& final(run)@.state == AgentRunStateV2::Paused
            &&& final(run)@.id == old(run)@.id
            &&& final(run)@.next_event_seq == old(run)@.next_event_seq + 1
            &&& final(runs)@ == old(runs)@.insert(old(run)@.id, *final(run))
            &&& final(events)@ == old(events)@.insert(
                old(run)@.id,
                log_of(old(events)@, old(run)@.id).push(AgentEventEnvelope {
                    run_id: old(run)@.id,
                    seq: old(run)@.next_event_seq,
                    timestamp_epoch_ms,
                    event: AgentEvent::RunPaused,
                }),
            )
        }),
{
    match runs.get(run.id()) {
        Ok(Some(_)) => {},
        _ => return Err(AgentControllerError::Store(AgentStoreError::RunNotFound)),
    }
    let state = run.state();
    let allowed = match state {
        AgentRunStateV2::Running | AgentRunStateV2::Reasoning | AgentRunStateV2::Acting
        | AgentRunStateV2::Observing | AgentRunStateV2::Diagnosed | AgentRunStateV2::PlanningChange => true,
        _ => false,
    };
    if !allowed {
        return Err(AgentControllerError::State(AgentStateError { from: state, to: AgentRunStateV2::Paused }));
    }
    finish_with(run, events, runs, AgentRunStateV2::Paused, AgentEvent::RunPaused, timestamp_epoch_ms)
}


/// The observation that tells the reasoner what the user replied.
pub open spec fn reply_observation(o: Observation, content: Seq<char>) -> bool {
    &&& o.tool_call_id is None
    &&& o.tool_name is None
    &&& o.success
    &&& o.error_code is None
    &&& o.summary@ == "User replied: "@ + content
    &&& o.detail matches Some(d) && d@ == content
}

fn user_reply_observation(content: &String) -> (r: Observation)
    ensures
        reply_observation(r, content@),
{
    let mut text: Vec<char> = Vec::new();
    push_str(&mut text, "User replied: ");
    push_str(&mut text, content.as_str());
    Observation {
        tool_call_id: None,
        tool_name: None,
        success: true,
        error_code: None,
        summary: string_from_chars(text.as_slice()),
        detail: Some(content.clone()),
    }
}

/// Continues a run parked for the user with the user's answer. `answer` is
/// the raw answer, checked like a goal; `content` is the answer as recorded
/// (its trimmed text with secrets redacted). The run records the message,
/// `UserInputReceived` and `RunResumed`, and reasons again; the reply is
/// returned as an observation.
pub fn accept_user_input(
    run: &mut AgentRun,
    events: &mut InMemoryAgentEventRepository,
    runs: &mut InMemoryAgentRunStore,
    answer: &str,
    content: String,
    timestamp_epoch_ms: u64,
) -> (r: Result<Observation, AgentControllerError>)
    requires
        old(events).wf(),
        log_contiguous(log_of(old(events)@, old(run)@.id), old(run)@.next_event_seq),
        old(run)@.next_event_seq + 3 <= u64::MAX,
    ensures
        !old(runs)@.contains_key(old(run)@.id) ==> {
            &&& r == Err::<Observation, AgentControllerError>(AgentControllerError::Store(AgentStoreError::RunNotFound))
            &&& final(run)@ == old(run)@
            &&& final(events)@ == old(events)@
            &&& final(runs)@ == old(runs)@
        },
        old(runs)@.contains_key(old(run)@.id) ==> (!(old(run)@.state is AwaitingUser) ==> {
            &&& r matches Err(e) && e == AgentControllerError::NotAwaitingUser
            &&& final(run)@ == old(run)@
            &&& final(runs)@ == old(runs)@
            &&& final(events)@ == old(events)@
        }),
        old(runs)@.contains_key(old(run)@.id) ==> (old(run)@.state is AwaitingUser && !goal_ok(answer@) ==> {
            &&& r matches Err(e) && e == AgentControllerError::InvalidUserInput
            &&& final(run)@ == old(run)@
            &&& final(runs)@ == old(runs)@
            &&& final(events)@ == old(events)@
        }),
        old(runs)@.contains_key(old(run)@.id) ==> (old(run)@.state is AwaitingUser && goal_ok(answer@) ==> {
            &&& r matches Ok(o) && reply_observation(o, content@)
            &&& final(events).wf()
            &&& final(run)@.state == AgentRunStateV2::Reasoning
            &&& final(run)@.id == old(run)@.id
            &&& final(run)@.next_event_seq == old(run)@.next_event_seq + 3
            &&& final(runs)@ == old(runs)@.insert(old(run)@.id, *final(run))
            &&& final(events)@ == old(events)@.insert(
                old(run)@.id,
                log_of(old(events)@, old(run)@.id) + seq![
                    AgentEventEnvelope {
                        run_id: old(run)@.id,
                        seq: old(run)@.next_event_seq,
                        timestamp_epoch_ms,
                        event: AgentEvent::UserMessageAdded { content },
                    },
                    AgentEventEnvelope {
                        run_id: old(run)@.id,
                        seq: (old(run)@.next_event_seq + 1) as u64,
                        timestamp_epoch_ms,
                        event: AgentEvent::UserInputReceived,
                    },
                    AgentEventEnvelope {
                        run_id: old(run)@.id,
                        seq: (old(run)@.next_event_seq + 2) as u64,
                        timestamp_epoch_ms,
                        event: AgentEvent::RunResumed,
                    },
                ],
            )
            &&& log_contiguous(log_of(final(events)@, final(run)@.id), final(run)@.next_event_seq)
        }),
{
    match runs.get(run.id()) {
        Ok(Some(_)) => {},
        _ => return Err(AgentControllerError::Store(AgentStoreError::RunNotFound)),
    }
    if run.state() != AgentRunStateV2::AwaitingUser {
        return Err(AgentControllerError::NotAwaitingUser);
    }
    let trimmed = trimmed_chars(answer);
    let text = string_from_chars(trimmed.as_slice());
    if text.as_str().is_empty() || text.as_str().len() > MAX_GOAL_BYTES {
        return Err(AgentControllerError::InvalidUserInput);
    }
    let ghost id = run@.id;
    let ghost seq0 = run@.next_event_seq;
    let ghost log0 = log_of(events@, id);
    let ghost c = content;
    let observation = user_reply_observation(&content);
    match emit(run, events, runs, AgentEvent::UserMessageAdded { content }, timestamp_epoch_ms) {
        Ok(()) => {},
        Err(e) => return Err(e),
    }
    match emit(run, events, runs, AgentEvent::UserInputReceived, timestamp_epoch_ms) {
        Ok(()) => {},
        Err(e) => return Err(e),
    }
    match emit(run, events, runs, AgentEvent::RunResumed, timestamp_epoch_ms) {
        Ok(()) => {},
        Err(e) => return Err(e),
    }
    let ghost log3 = log_of(events@, id);
    match transition_and_save(run, runs, AgentRunStateV2::Reasoning) {
        Ok(()) => {},
        Err(e) => return Err(e),
    }
    proof {
        assert(log3 =~= log0 + seq![
            AgentEventEnvelope { run_id: id, seq: seq0, timestamp_epoch_ms, event: AgentEvent::UserMessageAdded { content: c } },
            AgentEventEnvelope { run_id: id, seq: (seq0 + 1) as u64, timestamp_epoch_ms, event: AgentEvent::UserInputReceived },
            AgentEventEnvelope { run_id: id, seq: (seq0 + 2) as u64, timestamp_epoch_ms, event: AgentEvent::RunResumed },
        ]);
    }
    Ok(observation)
}

/// The envelope that records how a new user turn invalidated one approval.
pub open spec fn new_turn_invalidation(e: AgentEventEnvelope, run_id: u128, seq: int, ts: u64, approval_id: u128) -> bool {
    &&& e.run_id == run_id
    &&& e.seq == seq
    &&& e.timestamp_epoch_ms == ts
    &&& e.event matches AgentEvent::ApprovalInvalidated { approval_id: a, reason_code: c }
    &&& a == approval_id
    &&& c@ == "APPROVAL_NEW_USER_TURN"@
}

/// `log` is `before` followed by one invalidation per id of `ids`, in order,
/// then the user's message and the resumption, numbered on from `seq0`.
pub open spec fn new_turn_log(
    log: Seq<AgentEventEnvelope>,
    before: Seq<AgentEventEnvelope>,
    run_id: u128,
    seq0: u64,
    ts: u64,
    ids: Seq<u128>,
    content: String,
) -> bool {
    let n = before.len();
    let k = ids.len();
    &&& log.len() == n + k + 2
    &&& log.take(n as int) == before
    &&& forall|q: int| n <= q < n + k ==> new_turn_invalidation(#[trigger] log[q], run_id, seq0 + (q - n), ts, ids[q - n])
    &&& log[(n + k) as int] == AgentEventEnvelope {
        run_id,
        seq: (seq0 + k) as u64,
        timestamp_epoch_ms: ts,
        event: AgentEvent::UserMessageAdded { content },
    }
    &&& log[(n + k + 1) as int] == AgentEventEnvelope {
        run_id,
        seq: (seq0 + k + 1) as u64,
        timestamp_epoch_ms: ts,
        event: AgentEvent::RunResumed,
    }
}

/// Opens a new user turn in a finished conversation. The answer must be
/// non-empty and short enough, then the run must be terminal. Every approval
/// still pending for the run is invalidated and its invalidation recorded;
/// the run goes back to `Reasoning` and is saved; the user's message and the
/// resumption are recorded. Returns the observation handed to the reasoner
/// and the ids of the invalidated approvals, in the order recorded.
pub fn start_new_turn(
    run: &mut AgentRun,
    events: &mut InMemoryAgentEventRepository,
    runs: &mut InMemoryAgentRunStore,
    approvals: &mut InMemoryApprovalStore,
    facts: &mut WorkingFactSet,
    target_ids: &[u128],
    answer: &str,
    content: String,
    timestamp_epoch_ms: u64,
) -> (r: Result<(Observation, Vec<u128>), AgentControllerError>)
    requires
        old(events).wf(),
        old(approvals).wf(),
        log_contiguous(log_of(old(events)@, old(run)@.id), old(run)@.next_event_seq),
        old(run)@.next_event_seq + old(approvals).size() + 2 <= u64::MAX,
    ensures
        !old(runs)@.contains_key(old(run)@.id) ==> {
            &&& r == Err::<(Observation, Vec<u128>), AgentControllerError>(AgentControllerError::Store(AgentStoreError::RunNotFound))
            &&& final(run)@ == old(run)@
            &&& final(events)@ == old(events)@
            &&& final(runs)@ == old(runs)@
            &&& final(approvals)@ == old(approvals)@
            &&& final(facts)@ == old(facts)@
        },
        old(runs)@.contains_key(old(run)@.id) ==> (!goal_ok(answer@) ==> {
            &&& r matches Err(e) && e == AgentControllerError::InvalidUserInput
            &&& final(run)@ == old(run)@
            &&& final(runs)@ == old(runs)@
            &&& final(events)@ == old(events)@
            &&& final(approvals)@ == old(approvals)@
            &&& final(facts)@ == old(facts)@
        }),
        old(runs)@.contains_key(old(run)@.id) ==> (goal_ok(answer@) && !state_is_terminal(old(run)@.state) ==> {
            &&& r matches Err(e) && e == AgentControllerError::NotAwaitingUser
            &&& final(run)@ == old(run)@
            &&& final(runs)@ == old(runs)@
            &&& final(events)@ == old(events)@
            &&& final(approvals)@ == old(approvals)@
            &&& final(facts)@ == old(facts)@
        }),
        old(runs)@.contains_key(old(run)@.id) ==> (goal_ok(answer@) && state_is_terminal(old(run)@.state) ==> {
            &&& r matches Ok((o, ids))
            &&& reply_observation(o, content@)
            &&& final(facts)@ == without_targets(old(facts)@, target_ids@)
            &&& final(approvals).wf()
            &&& final(approvals)@.dom() == old(approvals)@.dom()
            &&& (forall|k: u128| #[trigger] old(approvals)@.contains_key(k) && !pending_for(old(approvals)@[k], old(run)@.id)
                ==> final(approvals)@[k] == old(approvals)@[k])
            &&& (forall|k: u128| #[trigger] old(approvals)@.contains_key(k) && pending_for(old(approvals)@[k], old(run)@.id)
                ==> invalidated_copy(old(approvals)@[k], final(approvals)@[k]))
            &&& ids@.no_duplicates()
            &&& (forall|i: int| 0 <= i < ids@.len() ==> old(approvals)@.contains_key(#[trigger] ids@[i])
                && pending_for(old(approvals)@[ids@[i]], old(run)@.id))
            &&& (forall|k: u128| #[trigger] old(approvals)@.contains_key(k) && pending_for(old(approvals)@[k], old(run)@.id)
                ==> ids@.contains(k))
            &&& final(events).wf()
            &&& final(run)@.state == AgentRunStateV2::Reasoning
            &&& final(run)@.id == old(run)@.id
            &&& final(run)@.created_at_epoch_ms == old(run)@.created_at_epoch_ms
            &&& final(run)@.next_event_seq == old(run)@.next_event_seq + ids@.len() + 2
            &&& final(runs)@ == old(runs)@.insert(old(run)@.id, *final(run))
            &&& final(events)@ == old(events)@.insert(old(run)@.id, log_of(final(events)@, old(run)@.id))
            &&& new_turn_log(
                log_of(final(events)@, old(run)@.id),
                log_of(old(events)@, old(run)@.id),
                old(run)@.id,
                old(run)@.next_event_seq,
                timestamp_epoch_ms,
                ids@,
                content,
            )
            &&& log_contiguous(log_of(final(events)@, final(run)@.id), final(run)@.next_event_seq)
        }),
{
    match runs.get(run.id()) {
        Ok(Some(_)) => {},
        _ => return Err(AgentControllerError::Store(AgentStoreError::RunNotFound)),
    }
    let trimmed = trimmed_chars(answer);
    let text = string_from_chars(trimmed.as_slice());
    if text.as_str().is_empty() || text.as_str().len() > MAX_GOAL_BYTES {
        return Err(AgentControllerError::InvalidUserInput);
    }
    if !run.state().is_terminal() {
        return Err(AgentControllerError::NotAwaitingUser);
    }
    let ghost id = run@.id;
    let ghost seq0 = run@.next_event_seq;
    let ghost log0 = log_of(events@, id);
    let ghost n = log0.len();
    let ghost state0 = run@.state;
    let ghost size0 = approvals.size();
    let ghost c = content;
    let invalidated = approvals.invalidate_pending_for_run(run.id());
    let mut j: usize = 0;
    while j < invalidated.len()
        invariant
            events.wf(),
            j <= invalidated@.len(),
            invalidated@.len() <= size0,
            seq0 + size0 + 2 <= u64::MAX,
            run@.id == id,
            run@.state == state0,
            state_is_terminal(state0),
            run@.created_at_epoch_ms == old(run)@.created_at_epoch_ms,
            run@.next_event_seq == seq0 + j,
            runs@.contains_key(id),
            runs@ == old(runs)@.insert(id, runs@[id]),
            j == 0 ==> events@ == old(events)@,
            j > 0 ==> events@ == old(events)@.insert(id, log_of(events@, id)),
            log_of(events@, id).len() == n + j,
            log_of(events@, id).take(n as int) == log0,
            forall|q: int| n <= q < n + j ==> new_turn_invalidation(
                #[trigger] log_of(events@, id)[q], id, seq0 + (q - n), timestamp_epoch_ms, invalidated@[q - n]),
            log_contiguous(log_of(events@, id), run@.next_event_seq),
        decreases invalidated@.len() - j,
    {
        let ghost before = log_of(events@, id);
        let approval_id = invalidated[j];
        let event = AgentEvent::ApprovalInvalidated {
            approval_id,
            reason_code: "APPROVAL_NEW_USER_TURN".to_owned(),
        };
        let ghost ev = event;
        match emit(run, events, runs, event, timestamp_epoch_ms) {
            Ok(()) => {},
            Err(e) => return Err(e),
        }
        proof {
            let after = log_of(events@, id);
            assert(after =~= before.push(AgentEventEnvelope { run_id: id, seq: (seq0 + j) as u64, timestamp_epoch_ms, event: ev }));
            assert(after.take(n as int) =~= before.take(n as int));
            assert forall|q: int| n <= q < n + j + 1 implies new_turn_invalidation(
                #[trigger] after[q], id, seq0 + (q - n), timestamp_epoch_ms, invalidated@[q - n]) by {
                if q < n + j {
                    assert(after[q] == before[q]);
                }
            }
        }
        j = j + 1;
    }
    let ghost log1 = log_of(events@, id);
    match run.begin_user_turn() {
        Ok(()) => {},
        Err(e) => return Err(AgentControllerError::State(e)),
    }
    match runs.save(run) {
        Ok(()) => {},
        Err(e) => return Err(AgentControllerError::Store(e)),
    }
    let ghost facts0 = facts@;
    let mut t: usize = 0;
    while t < target_ids.len()
        invariant
            t <= target_ids@.len(),
            facts@ == without_targets(facts0, target_ids@.take(t as int)),
        decreases target_ids@.len() - t,
    {
        proof {
            assert(target_ids@.take(t + 1).drop_last() =~= target_ids@.take(t as int));
        }
        let _ = facts.invalidate_target(target_ids[t]);
        t = t + 1;
    }
    proof {
        assert(target_ids@.take(target_ids@.len() as int) =~= target_ids@);
    }
    let observation = user_reply_observation(&content);
    match emit(run, events, runs, AgentEvent::UserMessageAdded { content }, timestamp_epoch_ms) {
        Ok(()) => {},
        Err(e) => return Err(e),
    }
    match emit(run, events, runs, AgentEvent::RunResumed, timestamp_epoch_ms) {
        Ok(()) => {},
        Err(e) => return Err(e),
    }
    proof {
        let k = invalidated@.len();
        let fin = log_of(events@, id);
        assert(fin =~= log1 + seq![
            AgentEventEnvelope { run_id: id, seq: (seq0 + k) as u64, timestamp_epoch_ms, event: AgentEvent::UserMessageAdded { content: c } },
            AgentEventEnvelope { run_id: id, seq: (seq0 + k + 1) as u64, timestamp_epoch_ms, event: AgentEvent::RunResumed },
        ]);
        assert(fin.take(n as int) =~= log1.take(n as int));
        assert forall|q: int| n <= q < n + k implies new_turn_invalidation(
            #[trigger] fin[q], id, seq0 + (q - n), timestamp_epoch_ms, invalidated@[q - n]) by {
            assert(fin[q] == log1[q]);
        }
    }
    Ok((observation, invalidated))
}

/// `log` is `before` followed by a decision on an approval (the event at
/// `before.len()`), the observation that tells the reasoner of it, and the
/// resumption, numbered on from `seq0`.
pub open spec fn decision_log(
    log: Seq<AgentEventEnvelope>,
    before: Seq<AgentEventEnvelope>,
    run_id: u128,
    seq0: u64,
    ts: u64,
    summary: Seq<char>,
) -> bool {
    let n = before.len() as int;
    &&& log.len() == n + 3
    &&& log.take(n) == before
    &&& log[n].run_id == run_id
    &&& log[n].seq == seq0
    &&& log[n].timestamp_epoch_ms == ts
    &&& log[n + 1].run_id == run_id
    &&& log[n + 1].seq == seq0 + 1
    &&& log[n + 1].timestamp_epoch_ms == ts
    &&& log[n + 1].event matches AgentEvent::ObservationAdded { summary: s } && s@ == summary
    &&& log[n + 2] == AgentEventEnvelope {
        run_id,
        seq: (seq0 + 2) as u64,
        timestamp_epoch_ms: ts,
        event: AgentEvent::RunResumed,
    }
}

/// Records a decision on an approval the run waited on and hands the run
/// back to reasoning: the decision, the observation, the move back to
/// `Reasoning` (saved), and the resumption.
fn record_decision_and_resume(
    run: &mut AgentRun,
    events: &mut InMemoryAgentEventRepository,
    runs: &mut InMemoryAgentRunStore,
    decision: AgentEvent,
    summary: String,
    timestamp_epoch_ms: u64,
) -> (r: Result<(), AgentControllerError>)
    requires
        old(events).wf(),
        log_contiguous(log_of(old(events)@, old(run)@.id), old(run)@.next_event_seq),
        old(run)@.next_event_seq + 3 <= u64::MAX,
        old(runs)@.contains_key(old(run)@.id),
        old(run)@.state is AwaitingApproval,
    ensures
        r is Ok,
        final(events).wf(),
        final(run)@.state == AgentRunStateV2::Reasoning,
        final(run)@.id == old(run)@.id,
        final(run)@.created_at_epoch_ms == old(run)@.created_at_epoch_ms,
        final(run)@.next_event_seq == old(run)@.next_event_seq + 3,
        final(runs)@ == old(runs)@.insert(old(run)@.id, *final(run)),
        final(events)@ == old(events)@.insert(old(run)@.id, log_of(final(events)@, old(run)@.id)),
        decision_log(
            log_of(final(events)@, old(run)@.id),
            log_of(old(events)@, old(run)@.id),
            old(run)@.id,
            old(run)@.next_event_seq,
            timestamp_epoch_ms,
            summary@,
        ),
        log_of(final(events)@, old(run)@.id)[log_of(old(events)@, old(run)@.id).len() as int].event == decision,
        log_contiguous(log_of(final(events)@, final(run)@.id), final(run)@.next_event_seq),
{
    let ghost id = run@.id;
    let ghost seq0 = run@.next_event_seq;
    let ghost log0 = log_of(events@, id);
    let ghost d = decision;
    let ghost text = summary@;
    match emit(run, events, runs, decision, timestamp_epoch_ms) {
        Ok(()) => {},
        Err(e) => return Err(e),
    }
    let observed = AgentEvent::ObservationAdded { summary };
    let ghost ev = observed;
    match emit(run, events, runs, observed, timestamp_epoch_ms) {
        Ok(()) => {},
        Err(e) => return Err(e),
    }
    match transition_and_save(run, runs, AgentRunStateV2::Reasoning) {
        Ok(()) => {},
        Err(e) => return Err(e),
    }
    match emit(run, events, runs, AgentEvent::RunResumed, timestamp_epoch_ms) {
        Ok(()) => {},
        Err(e) => return Err(e),
    }
    proof {
        let fin = log_of(events@, id);
        assert(fin =~= log0 + seq![
            AgentEventEnvelope { run_id: id, seq: seq0, timestamp_epoch_ms, event: d },
            AgentEventEnvelope { run_id: id, seq: (seq0 + 1) as u64, timestamp_epoch_ms, event: ev },
            AgentEventEnvelope { run_id: id, seq: (seq0 + 2) as u64, timestamp_epoch_ms, event: AgentEvent::RunResumed },
        ]);
        assert(fin.take(log0.len() as int) =~= log0);
    }
    Ok(())
}

/// The approval can be decided: it is stored and, unless it is bound to a
/// change set, the command or tool call it was bound to is still pending.
pub open spec fn approval_decidable(
    approvals: Map<u128, ApprovalRequest>,
    calls: Map<u128, PreparedToolCall>,
    commands: Map<u128, PreparedCommandProposal>,
    approval_id: u128,
) -> bool {
    &&& approvals.contains_key(approval_id)
    &&& {
        let a = approvals[approval_id];
        if a.change_set_id is Some {
            true
        } else if a.tool_name@ == COMMAND_APPROVAL_NAME@ {
            commands.contains_key(a.tool_call_id)
        } else {
            calls.contains_key(a.tool_call_id)
        }
    }
}

/// Rejects an approval the run is waiting on. The rejection is recorded and
/// becomes an observation, and the run reasons again on the same run id. The
/// tool call or command the approval was bound to leaves the pending store,
/// and its rejection is counted; a change set has no pending entry and is
/// not counted.
pub fn reject_approval(
    run: &mut AgentRun,
    events: &mut InMemoryAgentEventRepository,
    runs: &mut InMemoryAgentRunStore,
    approvals: &mut InMemoryApprovalStore,
    pending: &mut InMemoryPendingToolCallStore,
    metrics: &mut RunMetrics,
    approval_id: u128,
    timestamp_epoch_ms: u64,
) -> (r: Result<Observation, AgentControllerError>)
    requires
        old(events).wf(),
        old(approvals).wf(),
        log_contiguous(log_of(old(events)@, old(run)@.id), old(run)@.next_event_seq),
        old(run)@.next_event_seq + 3 <= u64::MAX,
    ensures
        !old(runs)@.contains_key(old(run)@.id) ==> {
            &&& r == Err::<Observation, AgentControllerError>(AgentControllerError::Store(AgentStoreError::RunNotFound))
            &&& final(run)@ == old(run)@
            &&& final(events)@ == old(events)@
            &&& final(runs)@ == old(runs)@
            &&& final(approvals)@ == old(approvals)@
            &&& final(pending).calls_view() == old(pending).calls_view()
            &&& final(pending).commands_view() == old(pending).commands_view()
            &&& *final(metrics) == *old(metrics)
        },
        old(runs)@.contains_key(old(run)@.id) ==> (!(old(run)@.state is AwaitingApproval) || !approval_decidable(
            old(approvals)@,
            old(pending).calls_view(),
            old(pending).commands_view(),
            approval_id,
        ) ==> {
            &&& r == Err::<Observation, AgentControllerError>(
                if !(old(run)@.state is AwaitingApproval) {
                    AgentControllerError::NotAwaitingApproval
                } else {
                    AgentControllerError::ApprovalNotFound
                },
            )
            &&& final(run)@ == old(run)@
            &&& final(runs)@ == old(runs)@
            &&& final(events)@ == old(events)@
            &&& final(approvals)@ == old(approvals)@
            &&& final(pending).calls_view() == old(pending).calls_view()
            &&& final(pending).commands_view() == old(pending).commands_view()
            &&& *final(metrics) == *old(metrics)
        }),
        old(runs)@.contains_key(old(run)@.id) ==> (old(run)@.state is AwaitingApproval && approval_decidable(
            old(approvals)@,
            old(pending).calls_view(),
            old(pending).commands_view(),
            approval_id,
        ) ==> {
            let a = old(approvals)@[approval_id];
            &&& r matches Ok(o)
            &&& final(approvals).wf()
            &&& final(approvals)@ == old(approvals)@.insert(approval_id, final(approvals)@[approval_id])
            &&& decided_copy(a, final(approvals)@[approval_id], ApprovalRequestState::Rejected)
            &&& (a.change_set_id is Some ==> {
                &&& change_set_rejection(o, a)
                &&& final(pending).calls_view() == old(pending).calls_view()
                &&& final(pending).commands_view() == old(pending).commands_view()
                &&& *final(metrics) == *old(metrics)
            })
            &&& (a.change_set_id is None && a.tool_name@ == COMMAND_APPROVAL_NAME@ ==> {
                let c = old(pending).commands_view()[a.tool_call_id];
                &&& command_rejection(o, c)
                &&& final(pending).calls_view() == old(pending).calls_view()
                &&& final(pending).commands_view() == old(pending).commands_view().remove(c.command_id)
                &&& *final(metrics) == (RunMetrics { rejections: bump(old(metrics).rejections), ..*old(metrics) })
            })
            &&& (a.change_set_id is None && a.tool_name@ != COMMAND_APPROVAL_NAME@ ==> {
                &&& call_rejection(o, old(pending).calls_view()[a.tool_call_id])
                &&& final(pending).calls_view() == old(pending).calls_view().remove(a.tool_call_id)
                &&& final(pending).commands_view() == old(pending).commands_view()
                &&& *final(metrics) == (RunMetrics { rejections: bump(old(metrics).rejections), ..*old(metrics) })
            })
            &&& final(events).wf()
            &&& final(run)@.state == AgentRunStateV2::Reasoning
            &&& final(run)@.id == old(run)@.id
            &&& final(run)@.created_at_epoch_ms == old(run)@.created_at_epoch_ms
            &&& final(run)@.next_event_seq == old(run)@.next_event_seq + 3
            &&& final(runs)@ == old(runs)@.insert(old(run)@.id, *final(run))
            &&& final(events)@ == old(events)@.insert(old(run)@.id, log_of(final(events)@, old(run)@.id))
            &&& decision_log(
                log_of(final(events)@, old(run)@.id),
                log_of(old(events)@, old(run)@.id),
                old(run)@.id,
                old(run)@.next_event_seq,
                timestamp_epoch_ms,
                o.summary@,
            )
            &&& log_of(final(events)@, old(run)@.id)[log_of(old(events)@, old(run)@.id).len() as int].event
                == AgentEvent::ApprovalRejected { approval_id }
            &&& log_contiguous(log_of(final(events)@, final(run)@.id), final(run)@.next_event_seq)
        }),
{
    match runs.get(run.id()) {
        Ok(Some(_)) => {},
        _ => return Err(AgentControllerError::Store(AgentStoreError::RunNotFound)),
    }
    if run.state() != AgentRunStateV2::AwaitingApproval {
        return Err(AgentControllerError::NotAwaitingApproval);
    }
    let mut approval = match approvals.get(approval_id) {
        Ok(Some(a)) => a,
        Ok(None) => return Err(AgentControllerError::ApprovalNotFound),
        Err(e) => return Err(AgentControllerError::Store(e)),
    };
    let observation = if approval.is_change_set() {
        approval.decide(ApprovalRequestState::Rejected);
        match approvals.save(&approval) {
            Ok(()) => {},
            Err(e) => return Err(AgentControllerError::Store(e)),
        }
        rejected_change_set_observation(&approval)
    } else if approval.is_command() {
        let command = match pending.get_command(approval.tool_call_id) {
            Ok(Some(c)) => c,
            Ok(None) => return Err(AgentControllerError::ApprovalNotFound),
            Err(e) => return Err(AgentControllerError::Store(e)),
        };
        approval.decide(ApprovalRequestState::Rejected);
        match approvals.save(&approval) {
            Ok(()) => {},
            Err(e) => return Err(AgentControllerError::Store(e)),
        }
        match pending.remove_command(command.command_id) {
            Ok(()) => {},
            Err(e) => return Err(AgentControllerError::Store(e)),
        }
        metrics.record_rejection();
        rejected_command_observation(&command)
    } else {
        let call = match pending.get(approval.tool_call_id) {
            Ok(Some(c)) => c,
            Ok(None) => return Err(AgentControllerError::ApprovalNotFound),
            Err(e) => return Err(AgentControllerError::Store(e)),
        };
        approval.decide(ApprovalRequestState::Rejected);
        match approvals.save(&approval) {
            Ok(()) => {},
            Err(e) => return Err(AgentControllerError::Store(e)),
        }
        match pending.remove(approval.tool_call_id) {
            Ok(()) => {},
            Err(e) => return Err(AgentControllerError::Store(e)),
        }
        metrics.record_rejection();
        rejected_call_observation(&call)
    };
    let summary = observation.summary.clone();
    match record_decision_and_resume(
        run,
        events,
        runs,
        AgentEvent::ApprovalRejected { approval_id },
        summary,
        timestamp_epoch_ms,
    ) {
        Ok(()) => {},
        Err(e) => return Err(e),
    }
    Ok(observation)
}

/// What follows a user's approval.
pub enum ApprovalStep {
    /// The approval holds: the tool call runs now.
    RunCall(PreparedToolCall),
    /// The approval holds: the command runs now.
    RunCommand(PreparedCommandProposal),
    /// The approval holds: the change set is approved at this version, and
    /// its execution follows.
    ApproveChangeSet { change_set_id: u128, version: u64 },
    /// The approval no longer held; the run reasons again with this
    /// observation.
    Resumed(Observation),
}

/// Why an approval cannot be decided now, if it cannot: the run is not
/// waiting on an approval, the approval is unknown (or a change-set approval
/// without a version), the command or call it was bound to is gone, or a
/// command approval has no session to check against.
pub open spec fn approval_refusal(
    state: AgentRunStateV2,
    approvals: Map<u128, ApprovalRequest>,
    calls: Map<u128, PreparedToolCall>,
    commands: Map<u128, PreparedCommandProposal>,
    approval_id: u128,
    session_id: Option<u128>,
) -> Option<AgentControllerError> {
    if !(state is AwaitingApproval) {
        Some(AgentControllerError::NotAwaitingApproval)
    } else if !approvals.contains_key(approval_id) {
        Some(AgentControllerError::ApprovalNotFound)
    } else {
        let a = approvals[approval_id];
        if a.change_set_id is Some {
            if a.change_set_version is None { Some(AgentControllerError::ApprovalNotFound) } else { None }
        } else if a.tool_name@ == COMMAND_APPROVAL_NAME@ {
            if !commands.contains_key(a.tool_call_id) {
                Some(AgentControllerError::ApprovalNotFound)
            } else if session_id is None {
                Some(AgentControllerError::MissingSession)
            } else {
                None
            }
        } else if !calls.contains_key(a.tool_call_id) {
            Some(AgentControllerError::ApprovalNotFound)
        } else {
            None
        }
    }
}

/// Whether the approval still authorizes what it was bound to, checked
/// against the change set, the pending command or the pending call.
pub open spec fn approval_verdict(
    a: ApprovalRequest,
    calls: Map<u128, PreparedToolCall>,
    commands: Map<u128, PreparedCommandProposal>,
    target_ids: Seq<u128>,
    session_id: Option<u128>,
    policy_matches: bool,
) -> Result<(), ApprovalInvalidationReason> {
    if a.change_set_id is Some {
        change_set_approval_verdict(a, a.change_set_id->0, a.change_set_version->0, target_ids, policy_matches)
    } else if a.tool_name@ == COMMAND_APPROVAL_NAME@ {
        command_approval_verdict(a, commands[a.tool_call_id], target_ids, session_id->0, policy_matches)
    } else {
        call_approval_verdict(a, calls[a.tool_call_id], target_ids, policy_matches)
    }
}

/// The pending call or command an approval was bound to fits the digest
/// input bound.
pub open spec fn approval_subject_hashable(
    approvals: Map<u128, ApprovalRequest>,
    calls: Map<u128, PreparedToolCall>,
    commands: Map<u128, PreparedCommandProposal>,
    approval_id: u128,
) -> bool {
    let a = approvals[approval_id];
    approvals.contains_key(approval_id) && a.change_set_id is None ==> {
        if a.tool_name@ == COMMAND_APPROVAL_NAME@ {
            commands.contains_key(a.tool_call_id) ==> command_hashable(commands[a.tool_call_id])
        } else {
            calls.contains_key(a.tool_call_id) ==> call_hashable(calls[a.tool_call_id])
        }
    }
}

/// Records a granted approval and what starts with it: the grant, then (for
/// a call or command, after the move to `Acting`) the start.
fn record_grant(
    run: &mut AgentRun,
    events: &mut InMemoryAgentEventRepository,
    runs: &mut InMemoryAgentRunStore,
    approval_id: u128,
    acting: bool,
    started: AgentEvent,
    timestamp_epoch_ms: u64,
) -> (r: Result<(), AgentControllerError>)
    requires
        old(events).wf(),
        log_contiguous(log_of(old(events)@, old(run)@.id), old(run)@.next_event_seq),
        old(run)@.next_event_seq + 2 <= u64::MAX,
        old(runs)@.contains_key(old(run)@.id),
        old(run)@.state is AwaitingApproval,
    ensures
        r is Ok,
        final(events).wf(),
        final(run)@.state == (if acting { AgentRunStateV2::Acting } else { old(run)@.state }),
        final(run)@.id == old(run)@.id,
        final(run)@.created_at_epoch_ms == old(run)@.created_at_epoch_ms,
        final(run)@.next_event_seq == old(run)@.next_event_seq + 2,
        final(runs)@ == old(runs)@.insert(old(run)@.id, *final(run)),
        final(events)@ == old(events)@.insert(
            old(run)@.id,
            log_of(old(events)@, old(run)@.id) + seq![
                AgentEventEnvelope {
                    run_id: old(run)@.id,
                    seq: old(run)@.next_event_seq,
                    timestamp_epoch_ms,
                    event: AgentEvent::ApprovalGranted { approval_id },
                },
                AgentEventEnvelope {
                    run_id: old(run)@.id,
                    seq: (old(run)@.next_event_seq + 1) as u64,
                    timestamp_epoch_ms,
                    event: started,
                },
            ],
        ),
        log_contiguous(log_of(final(events)@, final(run)@.id), final(run)@.next_event_seq),
{
    let ghost id = run@.id;
    let ghost seq0 = run@.next_event_seq;
    let ghost log0 = log_of(events@, id);
    let ghost st = started;
    match emit(run, events, runs, AgentEvent::ApprovalGranted { approval_id }, timestamp_epoch_ms) {
        Ok(()) => {},
        Err(e) => return Err(e),
    }
    if acting {
        match transition_and_save(run, runs, AgentRunStateV2::Acting) {
            Ok(()) => {},
            Err(e) => return Err(e),
        }
    }
    match emit(run, events, runs, started, timestamp_epoch_ms) {
        Ok(()) => {},
        Err(e) => return Err(e),
    }
    proof {
        assert(log_of(events@, id) =~= log0 + seq![
            AgentEventEnvelope { run_id: id, seq: seq0, timestamp_epoch_ms, event: AgentEvent::ApprovalGranted { approval_id } },
            AgentEventEnvelope { run_id: id, seq: (seq0 + 1) as u64, timestamp_epoch_ms, event: st },
        ]);
    }
    Ok(())
}

/// Decides an approval the user granted. An approval that still authorizes
/// exactly what it was bound to is granted and recorded: a tool call or
/// command leaves the pending store, the run moves to `Acting` and the
/// start is recorded, and the call or command is handed back to run; a
/// change set is recorded as approved at its version and handed back for
/// execution. An approval that no longer holds is invalidated instead: the
/// invalidation and its reason become an observation and the run reasons
/// again. `policy_matches` says whether the policy the approval was bound
/// to is still the current one.
pub fn approve_approval(
    run: &mut AgentRun,
    events: &mut InMemoryAgentEventRepository,
    runs: &mut InMemoryAgentRunStore,
    approvals: &mut InMemoryApprovalStore,
    pending: &mut InMemoryPendingToolCallStore,
    metrics: &mut RunMetrics,
    approval_id: u128,
    target_ids: &[u128],
    session_id: Option<u128>,
    policy_matches: bool,
    timestamp_epoch_ms: u64,
) -> (r: Result<ApprovalStep, AgentControllerError>)
    requires
        old(events).wf(),
        old(approvals).wf(),
        log_contiguous(log_of(old(events)@, old(run)@.id), old(run)@.next_event_seq),
        old(run)@.next_event_seq + 3 <= u64::MAX,
        approval_subject_hashable(old(approvals)@, old(pending).calls_view(), old(pending).commands_view(), approval_id),
    ensures
        !old(runs)@.contains_key(old(run)@.id) ==> {
            &&& r == Err::<ApprovalStep, AgentControllerError>(AgentControllerError::Store(AgentStoreError::RunNotFound))
            &&& final(run)@ == old(run)@
            &&& final(events)@ == old(events)@
            &&& final(runs)@ == old(runs)@
            &&& final(approvals)@ == old(approvals)@
            &&& final(pending).calls_view() == old(pending).calls_view()
            &&& final(pending).commands_view() == old(pending).commands_view()
            &&& *final(metrics) == *old(metrics)
        },
        old(runs)@.contains_key(old(run)@.id) ==> (approval_refusal(
            old(run)@.state,
            old(approvals)@,
            old(pending).calls_view(),
            old(pending).commands_view(),
            approval_id,
            session_id,
        ) matches Some(e) ==> {
            &&& r == Err::<ApprovalStep, AgentControllerError>(e)
            &&& final(run)@ == old(run)@
            &&& final(runs)@ == old(runs)@
            &&& final(events)@ == old(events)@
            &&& final(approvals)@ == old(approvals)@
            &&& final(pending).calls_view() == old(pending).calls_view()
            &&& final(pending).commands_view() == old(pending).commands_view()
            &&& *final(metrics) == *old(metrics)
        }),
        old(runs)@.contains_key(old(run)@.id) ==> (approval_refusal(
            old(run)@.state,
            old(approvals)@,
            old(pending).calls_view(),
            old(pending).commands_view(),
            approval_id,
            session_id,
        ) is None ==> {
            let a = old(approvals)@[approval_id];
            let verdict = approval_verdict(
                a,
                old(pending).calls_view(),
                old(pending).commands_view(),
                target_ids@,
                session_id,
                policy_matches,
            );
            let c = old(pending).commands_view()[a.tool_call_id];
            let call = old(pending).calls_view()[a.tool_call_id];
            let n = log_of(old(events)@, old(run)@.id).len() as int;
            let log = log_of(final(events)@, old(run)@.id);
            &&& final(approvals).wf()
            &&& final(approvals)@ == old(approvals)@.insert(approval_id, final(approvals)@[approval_id])
            &&& final(events).wf()
            &&& final(run)@.id == old(run)@.id
            &&& final(run)@.created_at_epoch_ms == old(run)@.created_at_epoch_ms
            &&& final(runs)@ == old(runs)@.insert(old(run)@.id, *final(run))
            &&& final(events)@ == old(events)@.insert(old(run)@.id, log)
            &&& log_contiguous(log_of(final(events)@, final(run)@.id), final(run)@.next_event_seq)
            &&& (verdict matches Err(reason) ==> {
                &&& r matches Ok(ApprovalStep::Resumed(o))
                &&& decided_copy(a, final(approvals)@[approval_id], ApprovalRequestState::Invalidated)
                &&& final(run)@.state == AgentRunStateV2::Reasoning
                &&& final(run)@.next_event_seq == old(run)@.next_event_seq + 3
                &&& decision_log(log, log_of(old(events)@, old(run)@.id), old(run)@.id, old(run)@.next_event_seq, timestamp_epoch_ms, o.summary@)
                &&& log[n].event matches AgentEvent::ApprovalInvalidated { approval_id: x, reason_code: code }
                &&& x == approval_id
                &&& code@ == reason_text(reason)
                &&& (a.change_set_id is Some ==> {
                    &&& change_set_invalidation(o, a, reason_text(reason))
                    &&& final(pending).calls_view() == old(pending).calls_view()
                    &&& final(pending).commands_view() == old(pending).commands_view()
                    &&& *final(metrics) == *old(metrics)
                })
                &&& (a.change_set_id is None && a.tool_name@ == COMMAND_APPROVAL_NAME@ ==> {
                    &&& command_invalidation(o, c, reason_text(reason))
                    &&& final(pending).calls_view() == old(pending).calls_view()
                    &&& final(pending).commands_view() == old(pending).commands_view().remove(c.command_id)
                    &&& *final(metrics) == *old(metrics)
                })
                &&& (a.change_set_id is None && a.tool_name@ != COMMAND_APPROVAL_NAME@ ==> {
                    &&& call_invalidation(o, call, reason_text(reason))
                    &&& final(pending).calls_view() == old(pending).calls_view().remove(a.tool_call_id)
                    &&& final(pending).commands_view() == old(pending).commands_view()
                    &&& *final(metrics) == (RunMetrics {
                        recovery_attempts: bump(old(metrics).recovery_attempts),
                        ..*old(metrics)
                    })
                })
            })
            &&& (verdict is Ok ==> {
                &&& decided_copy(a, final(approvals)@[approval_id], ApprovalRequestState::Granted)
                &&& final(run)@.next_event_seq == old(run)@.next_event_seq + 2
                &&& *final(metrics) == *old(metrics)
                &&& (a.change_set_id is Some ==> {
                    &&& r == Ok::<ApprovalStep, AgentControllerError>(ApprovalStep::ApproveChangeSet {
                        change_set_id: a.change_set_id->0,
                        version: a.change_set_version->0,
                    })
                    &&& final(run)@.state == old(run)@.state
                    &&& final(pending).calls_view() == old(pending).calls_view()
                    &&& final(pending).commands_view() == old(pending).commands_view()
                    &&& log == log_of(old(events)@, old(run)@.id) + seq![
                        AgentEventEnvelope {
                            run_id: old(run)@.id,
                            seq: old(run)@.next_event_seq,
                            timestamp_epoch_ms,
                            event: AgentEvent::ApprovalGranted { approval_id },
                        },
                        AgentEventEnvelope {
                            run_id: old(run)@.id,
                            seq: (old(run)@.next_event_seq + 1) as u64,
                            timestamp_epoch_ms,
                            event: AgentEvent::ChangeSetApproved {
                                change_set_id: a.change_set_id->0,
                                version: a.change_set_version->0,
                            },
                        },
                    ]
                })
                &&& (a.change_set_id is None && a.tool_name@ == COMMAND_APPROVAL_NAME@ ==> {
                    &&& r == Ok::<ApprovalStep, AgentControllerError>(ApprovalStep::RunCommand(c))
                    &&& final(run)@.state == AgentRunStateV2::Acting
                    &&& final(pending).calls_view() == old(pending).calls_view()
                    &&& final(pending).commands_view() == old(pending).commands_view().remove(c.command_id)
                    &&& log == log_of(old(events)@, old(run)@.id) + seq![
                        AgentEventEnvelope {
                            run_id: old(run)@.id,
                            seq: old(run)@.next_event_seq,
                            timestamp_epoch_ms,
                            event: AgentEvent::ApprovalGranted { approval_id },
                        },
                        AgentEventEnvelope {
                            run_id: old(run)@.id,
                            seq: (old(run)@.next_event_seq + 1) as u64,
                            timestamp_epoch_ms,
                            event: AgentEvent::CommandStarted { command_id: c.command_id },
                        },
                    ]
                })
                &&& (a.change_set_id is None && a.tool_name@ != COMMAND_APPROVAL_NAME@ ==> {
                    &&& r == Ok::<ApprovalStep, AgentControllerError>(ApprovalStep::RunCall(call))
                    &&& final(run)@.state == AgentRunStateV2::Acting
                    &&& final(pending).calls_view() == old(pending).calls_view().remove(a.tool_call_id)
                    &&& final(pending).commands_view() == old(pending).commands_view()
                    &&& log == log_of(old(events)@, old(run)@.id) + seq![
                        AgentEventEnvelope {
                            run_id: old(run)@.id,
                            seq: old(run)@.next_event_seq,
                            timestamp_epoch_ms,
                            event: AgentEvent::ApprovalGranted { approval_id },
                        },
                        AgentEventEnvelope {
                            run_id: old(run)@.id,
                            seq: (old(run)@.next_event_seq + 1) as u64,
                            timestamp_epoch_ms,
                            event: AgentEvent::ToolStarted { tool_call_id: call.tool_call_id },
                        },
                    ]
                })
            })
        }),
{
    match runs.get(run.id()) {
        Ok(Some(_)) => {},
        _ => return Err(AgentControllerError::Store(AgentStoreError::RunNotFound)),
    }
    if run.state() != AgentRunStateV2::AwaitingApproval {
        return Err(AgentControllerError::NotAwaitingApproval);
    }
    let mut approval = match approvals.get(approval_id) {
        Ok(Some(a)) => a,
        Ok(None) => return Err(AgentControllerError::ApprovalNotFound),
        Err(e) => return Err(AgentControllerError::Store(e)),
    };
    if approval.is_change_set() {
        let change_set_id = match approval.change_set_id {
            Some(id) => id,
            None => return Err(AgentControllerError::ApprovalNotFound),
        };
        let version = match approval.change_set_version {
            Some(v) => v,
            None => return Err(AgentControllerError::ApprovalNotFound),
        };
        match validate_pending_change_set_approval(&approval, change_set_id, version, target_ids, policy_matches) {
            Err(reason) => {
                approval.decide(ApprovalRequestState::Invalidated);
                match approvals.save(&approval) {
                    Ok(()) => {},
                    Err(e) => return Err(AgentControllerError::Store(e)),
                }
                let observation = invalidated_change_set_observation(&approval, reason.reason_code());
                let event = AgentEvent::ApprovalInvalidated {
                    approval_id,
                    reason_code: reason.reason_code().to_owned(),
                };
                match record_decision_and_resume(run, events, runs, event, observation.summary.clone(), timestamp_epoch_ms) {
                    Ok(()) => {},
                    Err(e) => return Err(e),
                }
                Ok(ApprovalStep::Resumed(observation))
            },
            Ok(()) => {
                approval.decide(ApprovalRequestState::Granted);
                match approvals.save(&approval) {
                    Ok(()) => {},
                    Err(e) => return Err(AgentControllerError::Store(e)),
                }
                let started = AgentEvent::ChangeSetApproved { change_set_id, version };
                match record_grant(run, events, runs, approval_id, false, started, timestamp_epoch_ms) {
                    Ok(()) => {},
                    Err(e) => return Err(e),
                }
                Ok(ApprovalStep::ApproveChangeSet { change_set_id, version })
            },
        }
    } else if approval.is_command() {
        let command = match pending.get_command(approval.tool_call_id) {
            Ok(Some(c)) => c,
            Ok(None) => return Err(AgentControllerError::ApprovalNotFound),
            Err(e) => return Err(AgentControllerError::Store(e)),
        };
        let session = match session_id {
            Some(s) => s,
            None => return Err(AgentControllerError::MissingSession),
        };
        match validate_pending_command_approval(&approval, &command, target_ids, session, policy_matches) {
            Err(reason) => {
                approval.decide(ApprovalRequestState::Invalidated);
                match approvals.save(&approval) {
                    Ok(()) => {},
                    Err(e) => return Err(AgentControllerError::Store(e)),
                }
                match pending.remove_command(command.command_id) {
                    Ok(()) => {},
                    Err(e) => return Err(AgentControllerError::Store(e)),
                }
                let observation = invalidated_command_observation(&command, reason.reason_code());
                let event = AgentEvent::ApprovalInvalidated {
                    approval_id: approval.id,
                    reason_code: reason.reason_code().to_owned(),
                };
                match record_decision_and_resume(run, events, runs, event, observation.summary.clone(), timestamp_epoch_ms) {
                    Ok(()) => {},
                    Err(e) => return Err(e),
                }
                Ok(ApprovalStep::Resumed(observation))
            },
            Ok(()) => {
                approval.decide(ApprovalRequestState::Granted);
                match approvals.save(&approval) {
                    Ok(()) => {},
                    Err(e) => return Err(AgentControllerError::Store(e)),
                }
                match pending.remove_command(command.command_id) {
                    Ok(()) => {},
                    Err(e) => return Err(AgentControllerError::Store(e)),
                }
                let started = AgentEvent::CommandStarted { command_id: command.command_id };
                match record_grant(run, events, runs, approval_id, true, started, timestamp_epoch_ms) {
                    Ok(()) => {},
                    Err(e) => return Err(e),
                }
                Ok(ApprovalStep::RunCommand(command))
            },
        }
    } else {
        let call = match pending.get(approval.tool_call_id) {
            Ok(Some(c)) => c,
            Ok(None) => return Err(AgentControllerError::ApprovalNotFound),
            Err(e) => return Err(AgentControllerError::Store(e)),
        };
        match validate_pending_approval(&approval, &call, target_ids, policy_matches) {
            Err(reason) => {
                approval.decide(ApprovalRequestState::Invalidated);
                match approvals.save(&approval) {
                    Ok(()) => {},
                    Err(e) => return Err(AgentControllerError::Store(e)),
                }
                match pending.remove(approval.tool_call_id) {
                    Ok(()) => {},
                    Err(e) => return Err(AgentControllerError::Store(e)),
                }
                metrics.record_recovery_attempt();
                let observation = invalidated_call_observation(&call, reason.reason_code());
                let event = AgentEvent::ApprovalInvalidated {
                    approval_id: approval.id,
                    reason_code: reason.reason_code().to_owned(),
                };
                match record_decision_and_resume(run, events, runs, event, observation.summary.clone(), timestamp_epoch_ms) {
                    Ok(()) => {},
                    Err(e) => return Err(e),
                }
                Ok(ApprovalStep::Resumed(observation))
            },
            Ok(()) => {
                approval.decide(ApprovalRequestState::Granted);
                match approvals.save(&approval) {
                    Ok(()) => {},
                    Err(e) => return Err(AgentControllerError::Store(e)),
                }
                match pending.remove(approval.tool_call_id) {
                    Ok(()) => {},
                    Err(e) => return Err(AgentControllerError::Store(e)),
                }
                let started = AgentEvent::ToolStarted { tool_call_id: call.tool_call_id };
                match record_grant(run, events, runs, approval_id, true, started, timestamp_epoch_ms) {
                    Ok(()) => {},
                    Err(e) => return Err(e),
                }
                Ok(ApprovalStep::RunCall(call))
            },
        }
    }
}

/// Records the result of a command the user approved: the run's metrics
/// (a success may set the time to first observation; a failure counts as a
/// failure and a recovery attempt), the completion or failure event, and
/// the observation with the command's output. Returns the observation and
/// whether a read must still verify the system before the run may
/// complete.
pub fn record_command_result(
    run: &mut AgentRun,
    events: &mut InMemoryAgentEventRepository,
    runs: &mut InMemoryAgentRunStore,
    metrics: &mut RunMetrics,
    command: &PreparedCommandProposal,
    outcome: &CommandOutcome,
    verification_pending: bool,
    elapsed_ms: u64,
    timestamp_epoch_ms: u64,
) -> (r: Result<(Observation, bool), AgentControllerError>)
    requires
        old(events).wf(),
        log_contiguous(log_of(old(events)@, old(run)@.id), old(run)@.next_event_seq),
        old(run)@.next_event_seq < u64::MAX,
    ensures
        !old(runs)@.contains_key(old(run)@.id) ==> {
            &&& r == Err::<(Observation, bool), AgentControllerError>(AgentControllerError::Store(AgentStoreError::RunNotFound))
            &&& final(run)@ == old(run)@
            &&& final(events)@ == old(events)@
            &&& final(runs)@ == old(runs)@
            &&& *final(metrics) == *old(metrics)
        },
        old(runs)@.contains_key(old(run)@.id) ==> (r matches Ok((o, still_pending)) && {
            let n = log_of(old(events)@, old(run)@.id).len() as int;
            let log = log_of(final(events)@, old(run)@.id);
            &&& still_pending == verification_after_spec(verification_pending, command.mutability, outcome.success)
            &&& command_result_observation(o, *command, *outcome)
            &&& *final(metrics) == (if outcome.success { observed(*old(metrics), elapsed_ms) } else { failed(*old(metrics)) })
            &&& final(events).wf()
            &&& final(run)@.state == old(run)@.state
            &&& final(run)@.id == old(run)@.id
            &&& final(run)@.created_at_epoch_ms == old(run)@.created_at_epoch_ms
            &&& final(run)@.next_event_seq == old(run)@.next_event_seq + 1
            &&& final(runs)@ == old(runs)@.insert(old(run)@.id, *final(run))
            &&& final(events)@ == old(events)@.insert(old(run)@.id, log)
            &&& log.len() == n + 1
            &&& log.take(n) == log_of(old(events)@, old(run)@.id)
            &&& log[n].run_id == old(run)@.id
            &&& log[n].seq == old(run)@.next_event_seq
            &&& log[n].timestamp_epoch_ms == timestamp_epoch_ms
            &&& command_result(log[n].event, *command, *outcome)
            &&& log_contiguous(log_of(final(events)@, final(run)@.id), final(run)@.next_event_seq)
        }),
{
    match runs.get(run.id()) {
        Ok(Some(_)) => {},
        _ => return Err(AgentControllerError::Store(AgentStoreError::RunNotFound)),
    }
    let still_pending = verification_after_command(verification_pending, command.mutability, outcome.success);
    if outcome.success {
        metrics.maybe_record_first_observation(elapsed_ms);
    } else {
        metrics.record_tool_failure();
        metrics.record_recovery_attempt();
    }
    let event = command_result_event(command, outcome);
    let ghost ev = event;
    let ghost log0 = log_of(events@, run@.id);
    match emit(run, events, runs, event, timestamp_epoch_ms) {
        Ok(()) => {},
        Err(e) => return Err(e),
    }
    proof {
        assert(log_of(events@, run@.id).take(log0.len() as int) =~= log0);
    }
    let observation = command_observation(command, outcome);
    Ok((observation, still_pending))
}

/// The checkpoint of a run: its state, the last recorded sequence number,
/// the interrupt it waits on, the budget used, its targets and the facts it
/// has gathered, in the serialized form the caller supplied.
pub open spec fn run_checkpoint(
    c: AgentCheckpoint,
    run: RunView,
    pending_interrupt: Option<PendingInterruptRef>,
    budget: BudgetCheckpoint,
    target_ids: Seq<u128>,
    fact_snapshot: Seq<char>,
) -> bool {
    &&& c.run_id == run.id
    &&& c.state == run.state
    &&& c.event_cursor == (if run.next_event_seq == 0 { 0 } else { run.next_event_seq - 1 })
    &&& c.pending_interrupt == pending_interrupt
    &&& c.budget == budget
    &&& c.target_ids@ == target_ids
    &&& c.fact_snapshot@ == fact_snapshot
}

/// Saves the run's checkpoint, replacing its previous one, stamped with the
/// wall clock.
pub fn save_checkpoint(
    run: &AgentRun,
    checkpoints: &mut InMemoryCheckpointStore,
    pending_interrupt: Option<PendingInterruptRef>,
    budget: BudgetCheckpoint,
    target_ids: &Vec<u128>,
    fact_snapshot: String,
) -> (r: Result<(), AgentControllerError>)
    ensures
        r is Ok,
        final(checkpoints)@.contains_key(run@.id),
        final(checkpoints)@ == old(checkpoints)@.insert(run@.id, final(checkpoints)@[run@.id]),
        run_checkpoint(final(checkpoints)@[run@.id], run@, pending_interrupt, budget, target_ids@, fact_snapshot@),
{
    let next = run.peek_next_event_seq();
    let event_cursor = if next == 0 { 0 } else { next - 1 };
    let checkpoint = AgentCheckpoint {
        run_id: run.id(),
        state: run.state(),
        event_cursor,
        pending_interrupt,
        budget,
        target_ids: copy_ids(target_ids),
        fact_snapshot,
        created_at_epoch_ms: now_epoch_ms(),
    };
    match checkpoints.save(checkpoint) {
        Ok(()) => Ok(()),
        Err(e) => Err(AgentControllerError::Store(e)),
    }
}

/// Interrupts the run for the user's approval of a tool call the policy
/// requires approval for. The request is recorded; a fresh approval is
/// bound to the exact call, the run's targets and the policy identity; the
/// call is kept pending; the interruption is counted; and the run waits in
/// `AwaitingApproval` with its checkpoint saved. Returns the outcome naming
/// the approval and the call.
pub fn request_tool_approval(
    run: &mut AgentRun,
    events: &mut InMemoryAgentEventRepository,
    runs: &mut InMemoryAgentRunStore,
    approvals: &mut InMemoryApprovalStore,
    pending: &mut InMemoryPendingToolCallStore,
    metrics: &mut RunMetrics,
    checkpoints: &mut InMemoryCheckpointStore,
    call: PreparedToolCall,
    target_ids: &Vec<u128>,
    risk: String,
    policy_version: u64,
    policy_hash: String,
    budget: BudgetCheckpoint,
    fact_snapshot: String,
    timestamp_epoch_ms: u64,
) -> (r: Result<RunOutcome, AgentControllerError>)
    requires
        old(events).wf(),
        old(approvals).wf(),
        log_contiguous(log_of(old(events)@, old(run)@.id), old(run)@.next_event_seq),
        old(run)@.next_event_seq < u64::MAX,
        state_step(old(run)@.state, AgentRunStateV2::AwaitingApproval),
        call_hashable(call),
    ensures
        !old(runs)@.contains_key(old(run)@.id) ==> {
            &&& r == Err::<RunOutcome, AgentControllerError>(AgentControllerError::Store(AgentStoreError::RunNotFound))
            &&& final(run)@ == old(run)@
            &&& final(events)@ == old(events)@
            &&& final(runs)@ == old(runs)@
            &&& final(approvals)@ == old(approvals)@
            &&& final(pending).calls_view() == old(pending).calls_view()
            &&& final(pending).commands_view() == old(pending).commands_view()
            &&& *final(metrics) == *old(metrics)
            &&& final(checkpoints)@ == old(checkpoints)@
        },
        old(runs)@.contains_key(old(run)@.id) ==> (r matches Ok(RunOutcome::AwaitingApproval { approval_id, tool_call_id }) && {
            &&& tool_call_id == call.tool_call_id
            &&& final(approvals).wf()
            &&& final(approvals)@.contains_key(approval_id)
            &&& final(approvals)@ == old(approvals)@.insert(approval_id, final(approvals)@[approval_id])
            &&& bound_to_call(
                final(approvals)@[approval_id],
                old(run)@.id,
                call,
                target_ids@,
                risk@,
                policy_version,
                policy_hash@,
            )
            &&& final(pending).calls_view() == old(pending).calls_view().insert(call.tool_call_id, call)
            &&& final(pending).commands_view() == old(pending).commands_view()
            &&& *final(metrics) == (RunMetrics {
                approval_interrupts: bump(old(metrics).approval_interrupts),
                ..*old(metrics)
            })
            &&& final(events).wf()
            &&& final(run)@.state == AgentRunStateV2::AwaitingApproval
            &&& final(run)@.id == old(run)@.id
            &&& final(run)@.created_at_epoch_ms == old(run)@.created_at_epoch_ms
            &&& final(run)@.next_event_seq == old(run)@.next_event_seq + 1
            &&& final(runs)@ == old(runs)@.insert(old(run)@.id, *final(run))
            &&& final(events)@ == old(events)@.insert(
                old(run)@.id,
                log_of(old(events)@, old(run)@.id).push(AgentEventEnvelope {
                    run_id: old(run)@.id,
                    seq: old(run)@.next_event_seq,
                    timestamp_epoch_ms,
                    event: AgentEvent::ToolApprovalRequired { tool_call_id: call.tool_call_id },
                }),
            )
            &&& log_contiguous(log_of(final(events)@, final(run)@.id), final(run)@.next_event_seq)
            &&& final(checkpoints)@ == old(checkpoints)@.insert(old(run)@.id, final(checkpoints)@[old(run)@.id])
            &&& run_checkpoint(
                final(checkpoints)@[old(run)@.id],
                final(run)@,
                Some(PendingInterruptRef::Approval { approval_id }),
                budget,
                target_ids@,
                fact_snapshot@,
            )
        }),
{
    match runs.get(run.id()) {
        Ok(Some(_)) => {},
        _ => return Err(AgentControllerError::Store(AgentStoreError::RunNotFound)),
    }
    let tool_call_id = call.tool_call_id;
    match emit(run, events, runs, AgentEvent::ToolApprovalRequired { tool_call_id }, timestamp_epoch_ms) {
        Ok(()) => {},
        Err(e) => return Err(e),
    }
    let approval = ApprovalRequest::bind(run.id(), &call, copy_ids(target_ids), risk, policy_version, policy_hash);
    let approval_id = approval.id;
    let ghost bound = approval;
    match approvals.insert(approval) {
        Ok(()) => {},
        Err(e) => return Err(AgentControllerError::Store(e)),
    }
    match pending.put(call) {
        Ok(()) => {},
        Err(e) => return Err(AgentControllerError::Store(e)),
    }
    metrics.record_approval_interrupt();
    match transition_and_save(run, runs, AgentRunStateV2::AwaitingApproval) {
        Ok(()) => {},
        Err(e) => return Err(e),
    }
    match save_checkpoint(
        run,
        checkpoints,
        Some(PendingInterruptRef::Approval { approval_id }),
        budget,
        target_ids,
        fact_snapshot,
    ) {
        Ok(()) => {},
        Err(e) => return Err(e),
    }
    Ok(RunOutcome::AwaitingApproval { approval_id, tool_call_id })
}

/// What follows a command proposal.
pub enum CommandProposalStep {
    /// The policy blocked the proposal; the reasoner sees this observation.
    Blocked(Observation),
    /// The run waits for the user's approval of the command.
    Interrupted(RunOutcome),
}

/// `log` is `before` followed by the progress note and the proposal of a
/// command, numbered on from `seq0`, and then `extra` more events.
pub open spec fn command_proposal_log(
    log: Seq<AgentEventEnvelope>,
    before: Seq<AgentEventEnvelope>,
    run_id: u128,
    seq0: u64,
    ts: u64,
    command: PreparedCommandProposal,
    extra: int,
) -> bool {
    let n = before.len() as int;
    &&& log.len() == n + 2 + extra
    &&& log.take(n) == before
    &&& log[n].run_id == run_id && log[n].seq == seq0 && log[n].timestamp_epoch_ms == ts
    &&& log[n].event matches AgentEvent::ProgressUpdated { summary } && summary@ == command.reason_summary@
    &&& log[n + 1].run_id == run_id && log[n + 1].seq == seq0 + 1 && log[n + 1].timestamp_epoch_ms == ts
    &&& log[n + 1].event matches AgentEvent::CommandProposed { command_id, command: text, reason, risk, mutability }
    &&& command_id == command.command_id
    &&& text@ == command.command@
    &&& reason@ == command.reason_summary@
    &&& risk@ == risk_name(command.risk)
    &&& mutability@ == mutability_name(command.mutability)
}

/// Records a command the reasoner proposed and acts on the policy's
/// authorization of it. A blocked proposal becomes an observation and the
/// run goes on. Otherwise the command needs the user's approval: without a
/// session to bind it to the proposal is refused; with one, a fresh approval
/// is bound to the exact command, the run's targets, the session and the
/// policy identity, the command is kept pending, the request is recorded,
/// and the run waits in `AwaitingApproval` with its checkpoint saved.
pub fn request_command_approval(
    run: &mut AgentRun,
    events: &mut InMemoryAgentEventRepository,
    runs: &mut InMemoryAgentRunStore,
    approvals: &mut InMemoryApprovalStore,
    pending: &mut InMemoryPendingToolCallStore,
    checkpoints: &mut InMemoryCheckpointStore,
    command: PreparedCommandProposal,
    authorization: CommandAuthorization,
    target_ids: &Vec<u128>,
    session_id: Option<u128>,
    budget: BudgetCheckpoint,
    fact_snapshot: String,
    timestamp_epoch_ms: u64,
) -> (r: Result<CommandProposalStep, AgentControllerError>)
    requires
        old(events).wf(),
        old(approvals).wf(),
        log_contiguous(log_of(old(events)@, old(run)@.id), old(run)@.next_event_seq),
        old(run)@.next_event_seq + 3 <= u64::MAX,
        state_step(old(run)@.state, AgentRunStateV2::AwaitingApproval),
        command_hashable(command),
    ensures
        !old(runs)@.contains_key(old(run)@.id) ==> {
            &&& r == Err::<CommandProposalStep, AgentControllerError>(AgentControllerError::Store(AgentStoreError::RunNotFound))
            &&& final(run)@ == old(run)@
            &&& final(events)@ == old(events)@
            &&& final(runs)@ == old(runs)@
            &&& final(approvals)@ == old(approvals)@
            &&& final(pending).calls_view() == old(pending).calls_view()
            &&& final(pending).commands_view() == old(pending).commands_view()
            &&& final(checkpoints)@ == old(checkpoints)@
        },
        old(runs)@.contains_key(old(run)@.id) ==> (final(events).wf()),
        old(runs)@.contains_key(old(run)@.id) ==> (final(run)@.id == old(run)@.id),
        old(runs)@.contains_key(old(run)@.id) ==> (final(run)@.created_at_epoch_ms == old(run)@.created_at_epoch_ms),
        old(runs)@.contains_key(old(run)@.id) ==> (final(runs)@ == old(runs)@.insert(old(run)@.id, *final(run))),
        old(runs)@.contains_key(old(run)@.id) ==> (final(events)@ == old(events)@.insert(old(run)@.id, log_of(final(events)@, old(run)@.id))),
        old(runs)@.contains_key(old(run)@.id) ==> (log_contiguous(log_of(final(events)@, final(run)@.id), final(run)@.next_event_seq)),
        old(runs)@.contains_key(old(run)@.id) ==> (authorization matches CommandAuthorization::Blocked { reason_code } ==> {
            &&& r matches Ok(CommandProposalStep::Blocked(o))
            &&& command_block(o, command, reason_code@)
            &&& final(run)@.state == old(run)@.state
            &&& final(run)@.next_event_seq == old(run)@.next_event_seq + 3
            &&& command_proposal_log(
                log_of(final(events)@, old(run)@.id),
                log_of(old(events)@, old(run)@.id),
                old(run)@.id,
                old(run)@.next_event_seq,
                timestamp_epoch_ms,
                command,
                1,
            )
            &&& ({
                let last = log_of(final(events)@, old(run)@.id).last();
                &&& last.run_id == old(run)@.id
                &&& last.seq == old(run)@.next_event_seq + 2
                &&& last.timestamp_epoch_ms == timestamp_epoch_ms
                &&& last.event matches AgentEvent::ObservationAdded { summary } && summary@ == o.summary@
            })
            &&& final(approvals)@ == old(approvals)@
            &&& final(pending).calls_view() == old(pending).calls_view()
            &&& final(pending).commands_view() == old(pending).commands_view()
            &&& final(checkpoints)@ == old(checkpoints)@
        }),
        old(runs)@.contains_key(old(run)@.id) ==> (authorization is RequireApproval && session_id is None ==> {
            &&& r == Err::<CommandProposalStep, AgentControllerError>(AgentControllerError::MissingSession)
            &&& final(run)@.state == old(run)@.state
            &&& final(run)@.next_event_seq == old(run)@.next_event_seq + 2
            &&& command_proposal_log(
                log_of(final(events)@, old(run)@.id),
                log_of(old(events)@, old(run)@.id),
                old(run)@.id,
                old(run)@.next_event_seq,
                timestamp_epoch_ms,
                command,
                0,
            )
            &&& final(approvals)@ == old(approvals)@
            &&& final(pending).calls_view() == old(pending).calls_view()
            &&& final(pending).commands_view() == old(pending).commands_view()
            &&& final(checkpoints)@ == old(checkpoints)@
        }),
        old(runs)@.contains_key(old(run)@.id) ==> (session_id is Some ==> (authorization matches CommandAuthorization::RequireApproval {
            risk,
            policy_version,
            policy_hash,
        } ==> {
            &&& r matches Ok(CommandProposalStep::Interrupted(RunOutcome::AwaitingApproval { approval_id, tool_call_id }))
            &&& tool_call_id == command.command_id
            &&& final(approvals).wf()
            &&& final(approvals)@.contains_key(approval_id)
            &&& final(approvals)@ == old(approvals)@.insert(approval_id, final(approvals)@[approval_id])
            &&& bound_to_command(
                final(approvals)@[approval_id],
                old(run)@.id,
                command,
                target_ids@,
                session_id->0,
                policy_version,
                policy_hash@,
            )
            &&& final(pending).calls_view() == old(pending).calls_view()
            &&& final(pending).commands_view() == old(pending).commands_view().insert(command.command_id, command)
            &&& final(run)@.state == AgentRunStateV2::AwaitingApproval
            &&& final(run)@.next_event_seq == old(run)@.next_event_seq + 3
            &&& command_proposal_log(
                log_of(final(events)@, old(run)@.id),
                log_of(old(events)@, old(run)@.id),
                old(run)@.id,
                old(run)@.next_event_seq,
                timestamp_epoch_ms,
                command,
                1,
            )
            &&& log_of(final(events)@, old(run)@.id).last() == (AgentEventEnvelope {
                run_id: old(run)@.id,
                seq: (old(run)@.next_event_seq + 2) as u64,
                timestamp_epoch_ms,
                event: AgentEvent::CommandApprovalRequired { approval_id, command_id: command.command_id },
            })
            &&& final(checkpoints)@ == old(checkpoints)@.insert(old(run)@.id, final(checkpoints)@[old(run)@.id])
            &&& run_checkpoint(
                final(checkpoints)@[old(run)@.id],
                final(run)@,
                Some(PendingInterruptRef::Approval { approval_id }),
                budget,
                target_ids@,
                fact_snapshot@,
            )
        })),
{
    match runs.get(run.id()) {
        Ok(Some(_)) => {},
        _ => return Err(AgentControllerError::Store(AgentStoreError::RunNotFound)),
    }
    let ghost id = run@.id;
    let ghost seq0 = run@.next_event_seq;
    let ghost log0 = log_of(events@, id);
    let ghost cmd = command;
    let progress = AgentEvent::ProgressUpdated { summary: command.reason_summary.clone() };
    let ghost ev0 = progress;
    match emit(run, events, runs, progress, timestamp_epoch_ms) {
        Ok(()) => {},
        Err(e) => return Err(e),
    }
    let proposed = AgentEvent::CommandProposed {
        command_id: command.command_id,
        command: command.command.clone(),
        reason: command.reason_summary.clone(),
        risk: command.risk.as_str().to_owned(),
        mutability: command.mutability.as_str().to_owned(),
    };
    let ghost ev1 = proposed;
    match emit(run, events, runs, proposed, timestamp_epoch_ms) {
        Ok(()) => {},
        Err(e) => return Err(e),
    }
    let ghost log2 = log_of(events@, id);
    proof {
        assert(log2 =~= log0 + seq![
            AgentEventEnvelope { run_id: id, seq: seq0, timestamp_epoch_ms, event: ev0 },
            AgentEventEnvelope { run_id: id, seq: (seq0 + 1) as u64, timestamp_epoch_ms, event: ev1 },
        ]);
        assert(log2.take(log0.len() as int) =~= log0);
    }
    match authorization {
        CommandAuthorization::Blocked { reason_code } => {
            let observation = blocked_command_observation(&command, reason_code.as_str());
            let observed = AgentEvent::ObservationAdded { summary: observation.summary.clone() };
            match emit(run, events, runs, observed, timestamp_epoch_ms) {
                Ok(()) => {},
                Err(e) => return Err(e),
            }
            proof {
                let log3 = log_of(events@, id);
                assert(log3.take(log0.len() as int) =~= log0);
                assert(log3[log0.len() as int] == log2[log0.len() as int]);
                assert(log3[log0.len() + 1int] == log2[log0.len() + 1int]);
            }
            Ok(CommandProposalStep::Blocked(observation))
        },
        CommandAuthorization::RequireApproval { risk: _, policy_version, policy_hash } => {
            let session = match session_id {
                Some(s) => s,
                None => return Err(AgentControllerError::MissingSession),
            };
            let approval = ApprovalRequest::bind_command(
                run.id(),
                &command,
                copy_ids(target_ids),
                session,
                policy_version,
                policy_hash,
            );
            let approval_id = approval.id;
            let command_id = command.command_id;
            match pending.put_command(command) {
                Ok(()) => {},
                Err(e) => return Err(AgentControllerError::Store(e)),
            }
            match approvals.insert(approval) {
                Ok(()) => {},
                Err(e) => return Err(AgentControllerError::Store(e)),
            }
            match emit(
                run,
                events,
                runs,
                AgentEvent::CommandApprovalRequired { approval_id, command_id },
                timestamp_epoch_ms,
            ) {
                Ok(()) => {},
                Err(e) => return Err(e),
            }
            proof {
                let log3 = log_of(events@, id);
                assert(log3.take(log0.len() as int) =~= log0);
                assert(log3[log0.len() as int] == log2[log0.len() as int]);
                assert(log3[log0.len() + 1int] == log2[log0.len() + 1int]);
            }
            match transition_and_save(run, runs, AgentRunStateV2::AwaitingApproval) {
                Ok(()) => {},
                Err(e) => return Err(e),
            }
            match save_checkpoint(
                run,
                checkpoints,
                Some(PendingInterruptRef::Approval { approval_id }),
                budget,
                target_ids,
                fact_snapshot,
            ) {
                Ok(()) => {},
                Err(e) => return Err(e),
            }
            Ok(CommandProposalStep::Interrupted(RunOutcome::AwaitingApproval { approval_id, tool_call_id: command_id }))
        },
    }
}

/// The detail of an observation whose data was stored as an artifact:
/// `artifact:<id> bytes=<n> summary=<summary>`.
pub open spec fn artifact_detail(id: u128, byte_len: nat, summary: Seq<char>) -> Seq<char> {
    "artifact:"@ + uuid_text(id) + " bytes="@ + decimal(byte_len) + " summary="@ + summary
}

/// Records the result of a read tool call: the run's metrics (a success may
/// set the time to first observation; a failure counts as a failure and a
/// recovery attempt), the completion or failure event, and the observation
/// event. The observation's detail is the sanitized data inline or, past the
/// inline threshold, a reference to the artifact the data was stored as,
/// whose bytes are counted. Returns the observation and the artifact
/// reference, if one was stored.
pub fn record_tool_result(
    run: &mut AgentRun,
    events: &mut InMemoryAgentEventRepository,
    runs: &mut InMemoryAgentRunStore,
    metrics: &mut RunMetrics,
    artifacts: &mut InMemoryArtifactStore,
    outcome: &ToolOutcome,
    elapsed_ms: u64,
    stored_at_epoch_ms: u64,
    timestamp_epoch_ms: u64,
) -> (r: Result<(Observation, Option<ArtifactReference>), AgentControllerError>)
    requires
        old(events).wf(),
        old(artifacts).wf(),
        log_contiguous(log_of(old(events)@, old(run)@.id), old(run)@.next_event_seq),
        old(run)@.next_event_seq + 2 <= u64::MAX,
    ensures
        !old(runs)@.contains_key(old(run)@.id) ==> {
            &&& r == Err::<(Observation, Option<ArtifactReference>), AgentControllerError>(AgentControllerError::Store(AgentStoreError::RunNotFound))
            &&& final(run)@ == old(run)@
            &&& final(events)@ == old(events)@
            &&& final(runs)@ == old(runs)@
            &&& *final(metrics) == *old(metrics)
            &&& final(artifacts)@ == old(artifacts)@
            &&& final(artifacts).order() == old(artifacts).order()
        },
        old(runs)@.contains_key(old(run)@.id) ==> (r matches Ok((o, reference)) && {
            let base = if outcome.success { observed(*old(metrics), elapsed_ms) } else { failed(*old(metrics)) };
            let n = log_of(old(events)@, old(run)@.id).len() as int;
            let log = log_of(final(events)@, old(run)@.id);
            &&& o.tool_call_id == Some(outcome.tool_call_id)
            &&& o.tool_name is Some && o.tool_name->0@ == outcome.tool_name@
            &&& o.success == outcome.success
            &&& o.error_code == outcome.error_code
            &&& o.summary@ == tool_observation_summary(outcome.tool_name@, outcome.success, outcome.summary@)
            &&& final(artifacts).wf()
            &&& (match outcome.sanitized_data {
                None => {
                    &&& o.detail is None
                    &&& reference is None
                    &&& final(artifacts)@ == old(artifacts)@
                    &&& *final(metrics) == base
                },
                Some(raw) => if encode_utf8(raw@).len() <= ARTIFACT_INLINE_THRESHOLD_BYTES {
                    &&& o.detail matches Some(d) && d@ == raw@
                    &&& reference is None
                    &&& final(artifacts)@ == old(artifacts)@
                    &&& *final(metrics) == base
                } else {
                    &&& reference matches Some(rf) && {
                        let a = final(artifacts)@[rf.artifact_id];
                        &&& final(artifacts)@ == old(artifacts)@.insert(rf.artifact_id, a)
                        &&& a.run_id == old(run)@.id
                        &&& a.tool_call_id == Some(outcome.tool_call_id)
                        &&& a.tool_name@ == outcome.tool_name@
                        &&& a.summary@ == truncated(outcome.summary@, ARTIFACT_SUMMARY_CHARS as int)
                        &&& a.content@ == raw@
                        &&& a.byte_len == encode_utf8(raw@).len()
                        &&& a.created_at_epoch_ms == stored_at_epoch_ms
                        &&& rf.tool_name == a.tool_name
                        &&& rf.summary == a.summary
                        &&& rf.byte_len == a.byte_len
                        &&& o.detail matches Some(d) && d@ == artifact_detail(rf.artifact_id, a.byte_len as nat, a.summary@)
                        &&& *final(metrics) == (RunMetrics {
                            artifact_bytes: add_saturating(base.artifact_bytes, a.byte_len as u64),
                            ..base
                        })
                    }
                },
            })
            &&& final(events).wf()
            &&& final(run)@.state == old(run)@.state
            &&& final(run)@.id == old(run)@.id
            &&& final(run)@.created_at_epoch_ms == old(run)@.created_at_epoch_ms
            &&& final(run)@.next_event_seq == old(run)@.next_event_seq + 2
            &&& final(runs)@ == old(runs)@.insert(old(run)@.id, *final(run))
            &&& final(events)@ == old(events)@.insert(old(run)@.id, log)
            &&& log.len() == n + 2
            &&& log.take(n) == log_of(old(events)@, old(run)@.id)
            &&& log[n].run_id == old(run)@.id && log[n].seq == old(run)@.next_event_seq
            &&& log[n].timestamp_epoch_ms == timestamp_epoch_ms
            &&& tool_result_event(log[n].event, outcome.tool_call_id, outcome.success, outcome.error_code)
            &&& log[n + 1].run_id == old(run)@.id && log[n + 1].seq == old(run)@.next_event_seq + 1
            &&& log[n + 1].timestamp_epoch_ms == timestamp_epoch_ms
            &&& log[n + 1].event matches AgentEvent::ObservationAdded { summary } && summary@ == o.summary@
            &&& log_contiguous(log_of(final(events)@, final(run)@.id), final(run)@.next_event_seq)
        }),
{
    match runs.get(run.id()) {
        Ok(Some(_)) => {},
        _ => return Err(AgentControllerError::Store(AgentStoreError::RunNotFound)),
    }
    if outcome.success {
        metrics.maybe_record_first_observation(elapsed_ms);
    } else {
        metrics.record_tool_failure();
        metrics.record_recovery_attempt();
    }
    let ghost base = *metrics;
    let mut reference: Option<ArtifactReference> = None;
    let detail: Option<String> = match &outcome.sanitized_data {
        None => None,
        Some(raw) => {
            if !should_store_as_artifact(raw.as_str()) {
                Some(raw.clone())
            } else {
                let artifact = match store_large_output(
                    artifacts,
                    run.id(),
                    outcome.tool_call_id,
                    outcome.tool_name.as_str(),
                    outcome.summary.as_str(),
                    raw.as_str(),
                    stored_at_epoch_ms,
                ) {
                    Ok(a) => a,
                    Err(_) => return Err(AgentControllerError::Store(AgentStoreError::PersistenceFailed)),
                };
                let stored = artifact_reference(&artifact);
                let mut text: Vec<char> = Vec::new();
                push_str(&mut text, "artifact:");
                push_id_text(&mut text, stored.artifact_id);
                push_str(&mut text, " bytes=");
                let mut digits = decimal_text(artifact.byte_len as u64);
                text.append(&mut digits);
                push_str(&mut text, " summary=");
                push_str(&mut text, stored.summary.as_str());
                metrics.record_artifact_bytes(artifact.byte_len as u64);
                reference = Some(stored);
                Some(string_from_chars(text.as_slice()))
            }
        },
    };
    let observation = tool_observation(
        outcome.tool_call_id,
        outcome.tool_name.as_str(),
        outcome.success,
        &outcome.error_code,
        outcome.summary.as_str(),
        detail,
    );
    let ghost log0 = log_of(events@, run@.id);
    let ghost id = run@.id;
    let ghost seq0 = run@.next_event_seq;
    let finished = tool_outcome_event(outcome.tool_call_id, outcome.success, &outcome.error_code);
    let ghost ev0 = finished;
    match emit(run, events, runs, finished, timestamp_epoch_ms) {
        Ok(()) => {},
        Err(e) => return Err(e),
    }
    let observed_event = AgentEvent::ObservationAdded { summary: observation.summary.clone() };
    let ghost ev1 = observed_event;
    match emit(run, events, runs, observed_event, timestamp_epoch_ms) {
        Ok(()) => {},
        Err(e) => return Err(e),
    }
    proof {
        let fin = log_of(events@, id);
        assert(fin =~= log0 + seq![
            AgentEventEnvelope { run_id: id, seq: seq0, timestamp_epoch_ms, event: ev0 },
            AgentEventEnvelope { run_id: id, seq: (seq0 + 1) as u64, timestamp_epoch_ms, event: ev1 },
        ]);
        assert(fin.take(log0.len() as int) =~= log0);
    }
    Ok((observation, reference))
}

/// What a change set's execution needs next.
#[derive(Clone, Copy, Debug, PartialEq, Eq, Structural)]
pub enum ChangeSetNext {
    /// The execution committed: verify it.
    Verify,
    /// Verification failed after a committed execution: roll it back.
    Rollback,
    /// Nothing more to run; the change set counts as verified or not.
    Finish(bool),
}

/// `log` is `before` followed by `events`, enveloped for the run from
/// `seq0` on, all at `ts`.
pub open spec fn appended(
    log: Seq<AgentEventEnvelope>,
    before: Seq<AgentEventEnvelope>,
    run_id: u128,
    seq0: u64,
    ts: u64,
    events: Seq<AgentEvent>,
) -> bool {
    &&& log.len() == before.len() + events.len()
    &&& log.take(before.len() as int) == before
    &&& forall|i: int| 0 <= i < events.len() ==> #[trigger] log[before.len() + i] == (AgentEventEnvelope {
        run_id,
        seq: (seq0 + i) as u64,
        timestamp_epoch_ms: ts,
        event: events[i],
    })
}

/// Starts executing an approved change set: the run moves to
/// `ExecutingChange` (saved) and the start is recorded.
pub fn start_change_set_execution(
    run: &mut AgentRun,
    events: &mut InMemoryAgentEventRepository,
    runs: &mut InMemoryAgentRunStore,
    change_set_id: u128,
    timestamp_epoch_ms: u64,
) -> (r: Result<(), AgentControllerError>)
    requires
        old(events).wf(),
        log_contiguous(log_of(old(events)@, old(run)@.id), old(run)@.next_event_seq),
        old(run)@.next_event_seq < u64::MAX,
    ensures
        !old(runs)@.contains_key(old(run)@.id) || !state_step(old(run)@.state, AgentRunStateV2::ExecutingChange) ==> {
            &&& r == Err::<(), AgentControllerError>(
                if !old(runs)@.contains_key(old(run)@.id) {
                    AgentControllerError::Store(AgentStoreError::RunNotFound)
                } else {
                    AgentControllerError::State(AgentStateError { from: old(run)@.state, to: AgentRunStateV2::ExecutingChange })
                },
            )
            &&& final(run)@ == old(run)@
            &&& final(events)@ == old(events)@
            &&& final(runs)@ == old(runs)@
        },
        old(runs)@.contains_key(old(run)@.id) && state_step(old(run)@.state, AgentRunStateV2::ExecutingChange) ==> {
            &&& r is Ok
            &&& final(events).wf()
            &&& final(run)@.state == AgentRunStateV2::ExecutingChange
            &&& final(run)@.id == old(run)@.id
            &&& final(run)@.created_at_epoch_ms == old(run)@.created_at_epoch_ms
            &&& final(run)@.next_event_seq == old(run)@.next_event_seq + 1
            &&& final(runs)@ == old(runs)@.insert(old(run)@.id, *final(run))
            &&& final(events)@ == old(events)@.insert(
                old(run)@.id,
                log_of(old(events)@, old(run)@.id).push(AgentEventEnvelope {
                    run_id: old(run)@.id,
                    seq: old(run)@.next_event_seq,
                    timestamp_epoch_ms,
                    event: AgentEvent::ChangeSetExecutionStarted { change_set_id },
                }),
            )
            &&& log_contiguous(log_of(final(events)@, final(run)@.id), final(run)@.next_event_seq)
        },
{
    match runs.get(run.id()) {
        Ok(Some(_)) => {},
        _ => return Err(AgentControllerError::Store(AgentStoreError::RunNotFound)),
    }
    match transition_and_save(run, runs, AgentRunStateV2::ExecutingChange) {
        Ok(()) => {},
        Err(e) => return Err(e),
    }
    match emit(run, events, runs, AgentEvent::ChangeSetExecutionStarted { change_set_id }, timestamp_epoch_ms) {
        Ok(()) => {},
        Err(e) => return Err(e),
    }
    Ok(())
}

/// Records how an executed change set ended and starts its verification:
/// the completion (committed or not) and the start of verification are
/// recorded, and the run moves to `Verifying`. A committed change set is
/// verified next; one that did not commit counts as not verified.
pub fn record_change_set_execution(
    run: &mut AgentRun,
    events: &mut InMemoryAgentEventRepository,
    runs: &mut InMemoryAgentRunStore,
    change_set_id: u128,
    committed: bool,
    timestamp_epoch_ms: u64,
) -> (r: Result<ChangeSetNext, AgentControllerError>)
    requires
        old(events).wf(),
        log_contiguous(log_of(old(events)@, old(run)@.id), old(run)@.next_event_seq),
        old(run)@.next_event_seq + 2 <= u64::MAX,
        old(run)@.state is ExecutingChange,
    ensures
        !old(runs)@.contains_key(old(run)@.id) ==> {
            &&& r == Err::<ChangeSetNext, AgentControllerError>(AgentControllerError::Store(AgentStoreError::RunNotFound))
            &&& final(run)@ == old(run)@
            &&& final(events)@ == old(events)@
            &&& final(runs)@ == old(runs)@
        },
        old(runs)@.contains_key(old(run)@.id) ==> {
            &&& r == Ok::<ChangeSetNext, AgentControllerError>(
                if committed { ChangeSetNext::Verify } else { ChangeSetNext::Finish(false) },
            )
            &&& final(events).wf()
            &&& final(run)@.state == AgentRunStateV2::Verifying
            &&& final(run)@.id == old(run)@.id
            &&& final(run)@.created_at_epoch_ms == old(run)@.created_at_epoch_ms
            &&& final(run)@.next_event_seq == old(run)@.next_event_seq + 2
            &&& final(runs)@ == old(runs)@.insert(old(run)@.id, *final(run))
            &&& final(events)@ == old(events)@.insert(old(run)@.id, log_of(final(events)@, old(run)@.id))
            &&& appended(
                log_of(final(events)@, old(run)@.id),
                log_of(old(events)@, old(run)@.id),
                old(run)@.id,
                old(run)@.next_event_seq,
                timestamp_epoch_ms,
                seq![AgentEvent::ChangeSetExecutionCompleted { change_set_id, success: committed }, AgentEvent::VerificationStarted],
            )
            &&& log_contiguous(log_of(final(events)@, final(run)@.id), final(run)@.next_event_seq)
        },
{
    match runs.get(run.id()) {
        Ok(Some(_)) => {},
        _ => return Err(AgentControllerError::Store(AgentStoreError::RunNotFound)),
    }
    let ghost id = run@.id;
    let ghost seq0 = run@.next_event_seq;
    let ghost log0 = log_of(events@, id);
    let completed = AgentEvent::ChangeSetExecutionCompleted { change_set_id, success: committed };
    match emit(run, events, runs, completed, timestamp_epoch_ms) {
        Ok(()) => {},
        Err(e) => return Err(e),
    }
    match transition_and_save(run, runs, AgentRunStateV2::Verifying) {
        Ok(()) => {},
        Err(e) => return Err(e),
    }
    match emit(run, events, runs, AgentEvent::VerificationStarted, timestamp_epoch_ms) {
        Ok(()) => {},
        Err(e) => return Err(e),
    }
    proof {
        let evs = seq![AgentEvent::ChangeSetExecutionCompleted { change_set_id, success: committed }, AgentEvent::VerificationStarted];
        let fin = log_of(events@, id);
        assert(fin.take(log0.len() as int) =~= log0);
        assert forall|i: int| 0 <= i < evs.len() implies #[trigger] fin[log0.len() + i] == (AgentEventEnvelope {
            run_id: id,
            seq: (seq0 + i) as u64,
            timestamp_epoch_ms,
            event: evs[i],
        }) by {}
    }
    if committed {
        Ok(ChangeSetNext::Verify)
    } else {
        Ok(ChangeSetNext::Finish(false))
    }
}

/// Records the verification of a change set: its result is recorded and
/// kept in the metrics. When verification failed after a committed
/// execution the run moves to `RollingBack` and the rollback's start is
/// recorded; otherwise the change set is finished with that result.
pub fn record_change_set_verification(
    run: &mut AgentRun,
    events: &mut InMemoryAgentEventRepository,
    runs: &mut InMemoryAgentRunStore,
    metrics: &mut RunMetrics,
    execution_success: bool,
    verified: bool,
    timestamp_epoch_ms: u64,
) -> (r: Result<ChangeSetNext, AgentControllerError>)
    requires
        old(events).wf(),
        log_contiguous(log_of(old(events)@, old(run)@.id), old(run)@.next_event_seq),
        old(run)@.next_event_seq + 2 <= u64::MAX,
        old(run)@.state is Verifying,
    ensures
        !old(runs)@.contains_key(old(run)@.id) ==> {
            &&& r == Err::<ChangeSetNext, AgentControllerError>(AgentControllerError::Store(AgentStoreError::RunNotFound))
            &&& final(run)@ == old(run)@
            &&& final(events)@ == old(events)@
            &&& final(runs)@ == old(runs)@
            &&& *final(metrics) == *old(metrics)
        },
        old(runs)@.contains_key(old(run)@.id) ==> {
            let rollback = !verified && execution_success;
            &&& r == Ok::<ChangeSetNext, AgentControllerError>(
                if rollback { ChangeSetNext::Rollback } else { ChangeSetNext::Finish(verified) },
            )
            &&& *final(metrics) == (RunMetrics { verification_result: Some(verified), ..*old(metrics) })
            &&& final(events).wf()
            &&& final(run)@.state == (if rollback { AgentRunStateV2::RollingBack } else { AgentRunStateV2::Verifying })
            &&& final(run)@.id == old(run)@.id
            &&& final(run)@.created_at_epoch_ms == old(run)@.created_at_epoch_ms
            &&& final(run)@.next_event_seq == old(run)@.next_event_seq + (if rollback { 2int } else { 1int })
            &&& final(runs)@ == old(runs)@.insert(old(run)@.id, *final(run))
            &&& final(events)@ == old(events)@.insert(old(run)@.id, log_of(final(events)@, old(run)@.id))
            &&& appended(
                log_of(final(events)@, old(run)@.id),
                log_of(old(events)@, old(run)@.id),
                old(run)@.id,
                old(run)@.next_event_seq,
                timestamp_epoch_ms,
                if rollback {
                    seq![AgentEvent::VerificationCompleted { success: verified }, AgentEvent::RollbackStarted]
                } else {
                    seq![AgentEvent::VerificationCompleted { success: verified }]
                },
            )
            &&& log_contiguous(log_of(final(events)@, final(run)@.id), final(run)@.next_event_seq)
        },
{
    match runs.get(run.id()) {
        Ok(Some(_)) => {},
        _ => return Err(AgentControllerError::Store(AgentStoreError::RunNotFound)),
    }
    let ghost id = run@.id;
    let ghost seq0 = run@.next_event_seq;
    let ghost log0 = log_of(events@, id);
    match emit(run, events, runs, AgentEvent::VerificationCompleted { success: verified }, timestamp_epoch_ms) {
        Ok(()) => {},
        Err(e) => return Err(e),
    }
    metrics.record_verification(verified);
    if !verified && execution_success {
        match transition_and_save(run, runs, AgentRunStateV2::RollingBack) {
            Ok(()) => {},
            Err(e) => return Err(e),
        }
        match emit(run, events, runs, AgentEvent::RollbackStarted, timestamp_epoch_ms) {
            Ok(()) => {},
            Err(e) => return Err(e),
        }
        proof {
            let evs = seq![AgentEvent::VerificationCompleted { success: verified }, AgentEvent::RollbackStarted];
            let fin = log_of(events@, id);
            assert(fin.take(log0.len() as int) =~= log0);
            assert forall|i: int| 0 <= i < evs.len() implies #[trigger] fin[log0.len() + i] == (AgentEventEnvelope {
                run_id: id,
                seq: (seq0 + i) as u64,
                timestamp_epoch_ms,
                event: evs[i],
            }) by {}
        }
        Ok(ChangeSetNext::Rollback)
    } else {
        proof {
            let evs = seq![AgentEvent::VerificationCompleted { success: verified }];
            let fin = log_of(events@, id);
            assert(fin.take(log0.len() as int) =~= log0);
            assert forall|i: int| 0 <= i < evs.len() implies #[trigger] fin[log0.len() + i] == (AgentEventEnvelope {
                run_id: id,
                seq: (seq0 + i) as u64,
                timestamp_epoch_ms,
                event: evs[i],
            }) by {}
        }
        Ok(ChangeSetNext::Finish(verified))
    }
}

/// The observation that closes a change set's execution:
/// `ChangeSet <id> verified successfully`, or `ChangeSet <id> failed
/// verification` with the execution-failed code.
pub open spec fn change_set_result(o: Observation, change_set_id: u128, verified: bool) -> bool {
    &&& o.tool_call_id is None
    &&& o.tool_name is Some && o.tool_name->0@ == "change_set"@
    &&& o.success == verified
    &&& (if verified {
        o.error_code is None
    } else {
        o.error_code is Some && o.error_code->0@ == CHANGESET_EXECUTION_FAILED@
    })
    &&& o.summary@ == "ChangeSet "@ + uuid_text(change_set_id) + (if verified {
        " verified successfully"@
    } else {
        " failed verification"@
    })
    &&& o.detail is None
}

/// Finishes a change set's execution: a rollback's result, when one ran, is
/// recorded and kept in the metrics; the facts of every target are dropped,
/// since the write may have changed them; the outcome becomes an
/// observation; and the run reasons again.
pub fn record_change_set_finish(
    run: &mut AgentRun,
    events: &mut InMemoryAgentEventRepository,
    runs: &mut InMemoryAgentRunStore,
    metrics: &mut RunMetrics,
    facts: &mut WorkingFactSet,
    target_ids: &[u128],
    change_set_id: u128,
    verified: bool,
    rollback_ok: Option<bool>,
    timestamp_epoch_ms: u64,
) -> (r: Result<Observation, AgentControllerError>)
    requires
        old(events).wf(),
        log_contiguous(log_of(old(events)@, old(run)@.id), old(run)@.next_event_seq),
        old(run)@.next_event_seq + 3 <= u64::MAX,
        old(run)@.state is Verifying || old(run)@.state is RollingBack,
        rollback_ok is Some ==> old(run)@.state is RollingBack,
    ensures
        !old(runs)@.contains_key(old(run)@.id) ==> {
            &&& r == Err::<Observation, AgentControllerError>(AgentControllerError::Store(AgentStoreError::RunNotFound))
            &&& final(run)@ == old(run)@
            &&& final(events)@ == old(events)@
            &&& final(runs)@ == old(runs)@
            &&& *final(metrics) == *old(metrics)
            &&& final(facts)@ == old(facts)@
        },
        old(runs)@.contains_key(old(run)@.id) ==> {
            let rolled = if rollback_ok is Some { seq![AgentEvent::RollbackCompleted { success: rollback_ok->0 }] } else { Seq::empty() };
            let n = log_of(old(events)@, old(run)@.id).len() + rolled.len();
            let log = log_of(final(events)@, old(run)@.id);
            &&& r matches Ok(o)
            &&& change_set_result(o, change_set_id, verified)
            &&& *final(metrics) == (match rollback_ok {
                Some(ok) => RunMetrics { rollback_result: Some(ok), ..*old(metrics) },
                None => *old(metrics),
            })
            &&& final(facts)@ == without_targets(old(facts)@, target_ids@)
            &&& final(events).wf()
            &&& final(run)@.state == AgentRunStateV2::Reasoning
            &&& final(run)@.id == old(run)@.id
            &&& final(run)@.created_at_epoch_ms == old(run)@.created_at_epoch_ms
            &&& final(run)@.next_event_seq == old(run)@.next_event_seq + rolled.len() + 2
            &&& final(runs)@ == old(runs)@.insert(old(run)@.id, *final(run))
            &&& final(events)@ == old(events)@.insert(old(run)@.id, log)
            &&& log.len() == n + 2
            &&& appended(
                log.take(n as int),
                log_of(old(events)@, old(run)@.id),
                old(run)@.id,
                old(run)@.next_event_seq,
                timestamp_epoch_ms,
                rolled,
            )
            &&& log[n as int].run_id == old(run)@.id
            &&& log[n as int].seq == old(run)@.next_event_seq + rolled.len()
            &&& log[n as int].timestamp_epoch_ms == timestamp_epoch_ms
            &&& log[n as int].event matches AgentEvent::ObservationAdded { summary } && summary@ == o.summary@
            &&& log[n + 1int] == (AgentEventEnvelope {
                run_id: old(run)@.id,
                seq: (old(run)@.next_event_seq + rolled.len() + 1) as u64,
                timestamp_epoch_ms,
                event: AgentEvent::RunResumed,
            })
            &&& log_contiguous(log_of(final(events)@, final(run)@.id), final(run)@.next_event_seq)
        },
{
    match runs.get(run.id()) {
        Ok(Some(_)) => {},
        _ => return Err(AgentControllerError::Store(AgentStoreError::RunNotFound)),
    }
    let ghost id = run@.id;
    let ghost seq0 = run@.next_event_seq;
    let ghost log0 = log_of(events@, id);
    match rollback_ok {
        Some(ok) => {
            match emit(run, events, runs, AgentEvent::RollbackCompleted { success: ok }, timestamp_epoch_ms) {
                Ok(()) => {},
                Err(e) => return Err(e),
            }
            metrics.record_rollback(ok);
        },
        None => {},
    }
    let ghost log1 = log_of(events@, id);
    let ghost seq1 = run@.next_event_seq;
    proof {
        let rolled = if rollback_ok is Some { seq![AgentEvent::RollbackCompleted { success: rollback_ok->0 }] } else { Seq::<AgentEvent>::empty() };
        assert(log1.take(log0.len() as int) =~= log0);
        assert forall|i: int| 0 <= i < rolled.len() implies #[trigger] log1[log0.len() + i] == (AgentEventEnvelope {
            run_id: id,
            seq: (seq0 + i) as u64,
            timestamp_epoch_ms,
            event: rolled[i],
        }) by {}
    }
    let mut text: Vec<char> = Vec::new();
    push_str(&mut text, "ChangeSet ");
    push_id_text(&mut text, change_set_id);
    if verified {
        push_str(&mut text, " verified successfully");
    } else {
        push_str(&mut text, " failed verification");
    }
    let ghost facts0 = facts@;
    let mut t: usize = 0;
    while t < target_ids.len()
        invariant
            t <= target_ids@.len(),
            facts@ == without_targets(facts0, target_ids@.take(t as int)),
        decreases target_ids@.len() - t,
    {
        proof {
            assert(target_ids@.take(t + 1).drop_last() =~= target_ids@.take(t as int));
        }
        let _ = facts.invalidate_target(target_ids[t]);
        t = t + 1;
    }
    proof {
        assert(target_ids@.take(target_ids@.len() as int) =~= target_ids@);
    }
    let observation = Observation {
        tool_call_id: None,
        tool_name: Some("change_set".to_owned()),
        success: verified,
        error_code: if verified { None } else { Some(CHANGESET_EXECUTION_FAILED.to_owned()) },
        summary: string_from_chars(text.as_slice()),
        detail: None,
    };
    let observed = AgentEvent::ObservationAdded { summary: observation.summary.clone() };
    let ghost ev = observed;
    match emit(run, events, runs, observed, timestamp_epoch_ms) {
        Ok(()) => {},
        Err(e) => return Err(e),
    }
    match transition_and_save(run, runs, AgentRunStateV2::Reasoning) {
        Ok(()) => {},
        Err(e) => return Err(e),
    }
    match emit(run, events, runs, AgentEvent::RunResumed, timestamp_epoch_ms) {
        Ok(()) => {},
        Err(e) => return Err(e),
    }
    proof {
        let fin = log_of(events@, id);
        assert(fin =~= log1 + seq![
            AgentEventEnvelope { run_id: id, seq: seq1, timestamp_epoch_ms, event: ev },
            AgentEventEnvelope { run_id: id, seq: (seq1 + 1) as u64, timestamp_epoch_ms, event: AgentEvent::RunResumed },
        ]);
        assert(fin.take(log1.len() as int) =~= log1);
    }
    Ok(observation)
}

} // verus!
