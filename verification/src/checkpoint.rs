//! The resume point of a run: where its event log ends, which interrupt is
//! pending and how much budget is consumed. A checkpoint carries no
//! credentials, no raw tool arguments and no model reasoning; a pending
//! approval is referenced by id only.
use vstd::prelude::*;
use crate::approval::copy_ids;
use crate::state::AgentRunStateV2;

verus! {

/// The pending interrupt, referenced in a checkpoint-safe way.
#[derive(Debug)]
pub enum PendingInterruptRef {
    Approval { approval_id: u128 },
    UserInput { question: String },
}

impl Clone for PendingInterruptRef {
    fn clone(&self) -> (r: PendingInterruptRef)
        ensures
            r == *self,
    {
        match self {
            PendingInterruptRef::Approval { approval_id } => PendingInterruptRef::Approval {
                approval_id: *approval_id,
            },
            PendingInterruptRef::UserInput { question } => PendingInterruptRef::UserInput {
                question: question.clone(),
            },
        }
    }
}

/// Consumed budget at checkpoint time.
#[derive(Clone, Copy, Debug, PartialEq, Eq, Structural)]
pub struct BudgetCheckpoint {
    pub rounds_used: u32,
    pub tool_calls_used: u32,
    pub elapsed_ms: u64,
}

/// Serializable resume point for one run.
#[derive(Debug)]
pub struct AgentCheckpoint {
    pub run_id: u128,
    pub state: AgentRunStateV2,
    /// Sequence of the last emitted event; replay resumes after it.
    pub event_cursor: u64,
    pub pending_interrupt: Option<PendingInterruptRef>,
    pub budget: BudgetCheckpoint,
    pub target_ids: Vec<u128>,
    /// Compact working-fact snapshot (a JSON array); no secrets, no raw logs.
    pub fact_snapshot: String,
    pub created_at_epoch_ms: u64,
}

/// `b` is a copy of `a`: every field equal, the target list by contents.
pub open spec fn checkpoint_copy(a: AgentCheckpoint, b: AgentCheckpoint) -> bool {
    &&& b.target_ids@ == a.target_ids@
    &&& b == (AgentCheckpoint { target_ids: b.target_ids, ..a })
}

impl Clone for AgentCheckpoint {
    fn clone(&self) -> (r: AgentCheckpoint)
        ensures
            checkpoint_copy(*self, r),
    {
        let pending_interrupt = match &self.pending_interrupt {
            Some(p) => Some(p.clone()),
            None => None,
        };
        AgentCheckpoint {
            run_id: self.run_id,
            state: self.state,
            event_cursor: self.event_cursor,
            pending_interrupt,
            budget: self.budget,
            target_ids: copy_ids(&self.target_ids),
            fact_snapshot: self.fact_snapshot.clone(),
            created_at_epoch_ms: self.created_at_epoch_ms,
        }
    }
}

} // verus!
