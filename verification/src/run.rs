//! The agent run: a state that only moves through validated transitions, a
//! last-update time that never goes backwards, and a per-run event sequence
//! that is allocated monotonically from one.
use vstd::prelude::*;
use crate::clock::now_epoch_ms;
use crate::state::{AgentRunStateV2, AgentStateError, state_is_terminal, state_step};

verus! {

/// What a run is, abstractly.
pub struct RunView {
    pub id: u128,
    pub state: AgentRunStateV2,
    pub created_at_epoch_ms: u64,
    pub updated_at_epoch_ms: u64,
    pub next_event_seq: u64,
}

/// An agent run. The fields are private: the state can only change through
/// `transition_to` (or the explicit new-turn reopening).
#[derive(Clone, Copy, Debug, PartialEq, Eq, Structural)]
pub struct AgentRun {
    id: u128,
    state: AgentRunStateV2,
    created_at_epoch_ms: u64,
    updated_at_epoch_ms: u64,
    next_event_seq: u64,
}

impl View for AgentRun {
    type V = RunView;

    closed spec fn view(&self) -> RunView {
        RunView {
            id: self.id,
            state: self.state,
            created_at_epoch_ms: self.created_at_epoch_ms,
            updated_at_epoch_ms: self.updated_at_epoch_ms,
            next_event_seq: self.next_event_seq,
        }
    }
}

/// The sequence counter after one allocation: one more, saturating.
pub open spec fn seq_after_allocation(next: u64) -> u64 {
    if next == u64::MAX { u64::MAX } else { (next + 1) as u64 }
}

/// Everything but the state and the update time is the same.
pub open spec fn same_identity(a: RunView, b: RunView) -> bool {
    &&& a.id == b.id
    &&& a.created_at_epoch_ms == b.created_at_epoch_ms
    &&& a.next_event_seq == b.next_event_seq
}

impl AgentRun {
    /// A run in `Created`, stamped with the wall clock.
    pub fn new(id: u128) -> (r: AgentRun)
        ensures
            r@.id == id,
            r@.state == AgentRunStateV2::Created,
            r@.updated_at_epoch_ms == r@.created_at_epoch_ms,
            r@.next_event_seq == 1,
    {
        Self::with_created_at(id, now_epoch_ms())
    }

    /// A run in `Created` with an explicit creation time.
    pub fn with_created_at(id: u128, created_at_epoch_ms: u64) -> (r: AgentRun)
        ensures
            r@ == (RunView {
                id,
                state: AgentRunStateV2::Created,
                created_at_epoch_ms,
                updated_at_epoch_ms: created_at_epoch_ms,
                next_event_seq: 1,
            }),
    {
        AgentRun {
            id,
            state: AgentRunStateV2::Created,
            created_at_epoch_ms,
            updated_at_epoch_ms: created_at_epoch_ms,
            next_event_seq: 1,
        }
    }

    /// Rebuilds a run from durable storage; the stored state is trusted as
    /// previously validated, and the sequence counter is at least one.
    pub fn from_persisted(
        id: u128,
        state: AgentRunStateV2,
        created_at_epoch_ms: u64,
        updated_at_epoch_ms: u64,
        next_event_seq: u64,
    ) -> (r: AgentRun)
        ensures
            r@ == (RunView {
                id,
                state,
                created_at_epoch_ms,
                updated_at_epoch_ms,
                next_event_seq: if next_event_seq == 0 { 1 } else { next_event_seq },
            }),
    {
        AgentRun {
            id,
            state,
            created_at_epoch_ms,
            updated_at_epoch_ms,
            next_event_seq: if next_event_seq == 0 { 1 } else { next_event_seq },
        }
    }

    pub fn id(&self) -> (r: u128)
        ensures
            r == self@.id,
    {
        self.id
    }

    pub fn state(&self) -> (r: AgentRunStateV2)
        ensures
            r == self@.state,
    {
        self.state
    }

    pub fn created_at_epoch_ms(&self) -> (r: u64)
        ensures
            r == self@.created_at_epoch_ms,
    {
        self.created_at_epoch_ms
    }

    pub fn updated_at_epoch_ms(&self) -> (r: u64)
        ensures
            r == self@.updated_at_epoch_ms,
    {
        self.updated_at_epoch_ms
    }

    /// The sequence number the next event will receive.
    pub fn peek_next_event_seq(&self) -> (r: u64)
        ensures
            r == self@.next_event_seq,
    {
        self.next_event_seq
    }

    /// Validated transition. A move the table allows changes the state and
    /// never moves the update time backwards; any other move leaves the run
    /// exactly as it was and names both states in the error.
    pub fn transition_to(&mut self, next: AgentRunStateV2) -> (r: Result<(), AgentStateError>)
        ensures
            r is Ok <==> state_step(old(self)@.state, next),
            r is Ok ==> {
                &&& final(self)@.state == next
                &&& final(self)@.updated_at_epoch_ms >= old(self)@.updated_at_epoch_ms
                &&& same_identity(final(self)@, old(self)@)
            },
            r is Err ==> {
                &&& final(self)@ == old(self)@
                &&& r == Err::<(), AgentStateError>(
                    AgentStateError { from: old(self)@.state, to: next },
                )
            },
    {
        match self.state.transition_to(next) {
            Ok(state) => {
                self.state = state;
                let now = now_epoch_ms();
                if now > self.updated_at_epoch_ms {
                    self.updated_at_epoch_ms = now;
                }
                Ok(())
            },
            Err(error) => Err(error),
        }
    }

    /// A new explicit user turn reopens a finished conversation in
    /// `Reasoning`. A run that is not terminal is refused with the typed
    /// error and left unchanged.
    pub fn begin_user_turn(&mut self) -> (r: Result<(), AgentStateError>)
        ensures
            r is Ok <==> state_is_terminal(old(self)@.state),
            r is Ok ==> {
                &&& final(self)@.state == AgentRunStateV2::Reasoning
                &&& final(self)@.updated_at_epoch_ms >= old(self)@.updated_at_epoch_ms
                &&& same_identity(final(self)@, old(self)@)
            },
            r is Err ==> {
                &&& final(self)@ == old(self)@
                &&& r == Err::<(), AgentStateError>(
                    AgentStateError { from: old(self)@.state, to: AgentRunStateV2::Reasoning },
                )
            },
    {
        if !self.state.is_terminal() {
            return Err(AgentStateError { from: self.state, to: AgentRunStateV2::Reasoning });
        }
        self.state = AgentRunStateV2::Reasoning;
        let now = now_epoch_ms();
        if now > self.updated_at_epoch_ms {
            self.updated_at_epoch_ms = now;
        }
        Ok(())
    }

    /// Allocates the next event sequence number (1, 2, 3, ...).
    pub fn next_event_sequence(&mut self) -> (r: u64)
        ensures
            r == old(self)@.next_event_seq,
            final(self)@.next_event_seq == seq_after_allocation(old(self)@.next_event_seq),
            final(self)@.id == old(self)@.id,
            final(self)@.state == old(self)@.state,
            final(self)@.created_at_epoch_ms == old(self)@.created_at_epoch_ms,
            final(self)@.updated_at_epoch_ms == old(self)@.updated_at_epoch_ms,
    {
        let seq = self.next_event_seq;
        self.next_event_seq = self.next_event_seq.saturating_add(1);
        seq
    }
}

/// Two allocations in a row hand out strictly increasing numbers, one apart,
/// as long as the counter has not reached its ceiling.
pub proof fn lemma_allocations_strictly_increase(next: u64)
    requires
        next < u64::MAX,
    ensures
        seq_after_allocation(next) == next + 1,
        seq_after_allocation(next) > next,
{
}

} // verus!
