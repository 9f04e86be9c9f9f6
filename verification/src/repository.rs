//! Store boundary of the runtime and its in-memory implementations: runs,
//! the append-only event log with strictly increasing per-run sequence
//! numbers, approvals, checkpoints and pending calls. Nothing stored here
//! carries secrets: runs and events exclude them by construction.
use vstd::prelude::*;
use std::collections::HashMap;
use crate::approval::{approval_copy, ApprovalRequest, ApprovalRequestState};
use crate::checkpoint::{checkpoint_copy, AgentCheckpoint};
use crate::decision::{PreparedCommandProposal, PreparedToolCall};
use crate::event::{envelope_copy, AgentEventEnvelope};
use crate::run::AgentRun;

verus! {

broadcast use vstd::std_specs::hash::group_hash_axioms;

pub const AGENT_RUN_NOT_FOUND: &'static str = "AGENT_RUN_NOT_FOUND";
pub const AGENT_RUN_ALREADY_EXISTS: &'static str = "AGENT_RUN_ALREADY_EXISTS";
pub const AGENT_EVENT_SEQUENCE_INVALID: &'static str = "AGENT_EVENT_SEQUENCE_INVALID";
pub const AGENT_APPROVAL_NOT_FOUND: &'static str = "AGENT_APPROVAL_NOT_FOUND";
pub const AGENT_STORE_CORRUPT: &'static str = "AGENT_STORE_CORRUPT";
pub const AGENT_STORE_MIGRATION_FAILED: &'static str = "AGENT_STORE_MIGRATION_FAILED";
pub const AGENT_STORE_UNAVAILABLE: &'static str = "AGENT_STORE_UNAVAILABLE";
pub const AGENT_PERSISTENCE_FAILED: &'static str = "AGENT_PERSISTENCE_FAILED";

/// Typed store errors. Sequence errors carry only numbers, never payloads.
#[derive(Clone, Copy, Debug, PartialEq, Eq, Structural)]
pub enum AgentStoreError {
    RunNotFound,
    RunAlreadyExists,
    EventSequenceInvalid { last: u64, attempted: u64 },
    ApprovalNotFound,
    StoreCorrupt,
    MigrationFailed,
    PersistenceFailed,
    /// The store cannot serve consistent state and fails closed.
    StoreUnavailable,
}

/// The stable code of each store error.
pub open spec fn store_error_code(e: AgentStoreError) -> &'static str {
    match e {
        AgentStoreError::RunNotFound => AGENT_RUN_NOT_FOUND,
        AgentStoreError::RunAlreadyExists => AGENT_RUN_ALREADY_EXISTS,
        AgentStoreError::EventSequenceInvalid { .. } => AGENT_EVENT_SEQUENCE_INVALID,
        AgentStoreError::ApprovalNotFound => AGENT_APPROVAL_NOT_FOUND,
        AgentStoreError::StoreCorrupt => AGENT_STORE_CORRUPT,
        AgentStoreError::MigrationFailed => AGENT_STORE_MIGRATION_FAILED,
        AgentStoreError::PersistenceFailed => AGENT_PERSISTENCE_FAILED,
        AgentStoreError::StoreUnavailable => AGENT_STORE_UNAVAILABLE,
    }
}

impl AgentStoreError {
    pub fn code(&self) -> (r: &'static str)
        ensures
            r == store_error_code(*self),
    {
        match self {
            AgentStoreError::RunNotFound => AGENT_RUN_NOT_FOUND,
            AgentStoreError::RunAlreadyExists => AGENT_RUN_ALREADY_EXISTS,
            AgentStoreError::EventSequenceInvalid { .. } => AGENT_EVENT_SEQUENCE_INVALID,
            AgentStoreError::ApprovalNotFound => AGENT_APPROVAL_NOT_FOUND,
            AgentStoreError::StoreCorrupt => AGENT_STORE_CORRUPT,
            AgentStoreError::MigrationFailed => AGENT_STORE_MIGRATION_FAILED,
            AgentStoreError::PersistenceFailed => AGENT_PERSISTENCE_FAILED,
            AgentStoreError::StoreUnavailable => AGENT_STORE_UNAVAILABLE,
        }
    }
}

// ---------------------------------------------------------------------------
// Runs
// ---------------------------------------------------------------------------

/// In-memory run store, keyed by run id.
pub struct InMemoryAgentRunStore {
    runs: HashMap<u128, AgentRun>,
}

impl View for InMemoryAgentRunStore {
    type V = Map<u128, AgentRun>;

    closed spec fn view(&self) -> Map<u128, AgentRun> {
        self.runs@
    }
}

impl InMemoryAgentRunStore {
    pub fn new() -> (r: InMemoryAgentRunStore)
        ensures
            r@ == Map::<u128, AgentRun>::empty(),
    {
        InMemoryAgentRunStore { runs: HashMap::new() }
    }

    /// Inserts a new run; an id that is already known is refused and the
    /// store is left unchanged.
    pub fn insert(&mut self, run: AgentRun) -> (r: Result<(), AgentStoreError>)
        ensures
            old(self)@.contains_key(run@.id) ==> {
                &&& r == Err::<(), AgentStoreError>(AgentStoreError::RunAlreadyExists)
                &&& final(self)@ == old(self)@
            },
            !old(self)@.contains_key(run@.id) ==> {
                &&& r == Ok::<(), AgentStoreError>(())
                &&& final(self)@ == old(self)@.insert(run@.id, run)
            },
    {
        let id = run.id();
        if self.runs.contains_key(&id) {
            return Err(AgentStoreError::RunAlreadyExists);
        }
        self.runs.insert(id, run);
        Ok(())
    }

    /// The stored run with this id, if any.
    pub fn get(&self, run_id: u128) -> (r: Result<Option<AgentRun>, AgentStoreError>)
        ensures
            r == Ok::<Option<AgentRun>, AgentStoreError>(
                if self@.contains_key(run_id) { Some(self@[run_id]) } else { None },
            ),
    {
        match self.runs.get(&run_id) {
            Some(run) => Ok(Some(*run)),
            None => Ok(None),
        }
    }

    /// Replaces a known run; an unknown run is refused, so an update can
    /// never silently become an insert.
    pub fn save(&mut self, run: &AgentRun) -> (r: Result<(), AgentStoreError>)
        ensures
            !old(self)@.contains_key(run@.id) ==> {
                &&& r == Err::<(), AgentStoreError>(AgentStoreError::RunNotFound)
                &&& final(self)@ == old(self)@
            },
            old(self)@.contains_key(run@.id) ==> {
                &&& r == Ok::<(), AgentStoreError>(())
                &&& final(self)@ == old(self)@.insert(run@.id, *run)
            },
    {
        let id = run.id();
        if !self.runs.contains_key(&id) {
            return Err(AgentStoreError::RunNotFound);
        }
        self.runs.insert(id, *run);
        Ok(())
    }
}

/// After a save of a known run, reading it back gives exactly what was
/// saved, and every other run is untouched.
pub proof fn lemma_save_then_get(before: Map<u128, AgentRun>, run: AgentRun, other: u128)
    requires
        before.contains_key(run@.id),
    ensures
        before.insert(run@.id, run)[run@.id] == run,
        other != run@.id ==> before.insert(run@.id, run).contains_key(other)
            == before.contains_key(other),
        other != run@.id && before.contains_key(other) ==> before.insert(run@.id, run)[other]
            == before[other],
{
}

// ---------------------------------------------------------------------------
// Events
// ---------------------------------------------------------------------------

/// A run's log: sequence numbers start at one and strictly increase, and
/// every event belongs to that run.
pub open spec fn log_ordered(run_id: u128, log: Seq<AgentEventEnvelope>) -> bool {
    &&& forall|i: int, j: int| 0 <= i < j < log.len() ==> #[trigger] log[i].seq < #[trigger] log[j].seq
    &&& forall|i: int| 0 <= i < log.len() ==> #[trigger] log[i].seq >= 1 && log[i].run_id == run_id
}

/// The log of a run; empty for an unknown run.
pub open spec fn log_of(logs: Map<u128, Seq<AgentEventEnvelope>>, run_id: u128) -> Seq<AgentEventEnvelope> {
    if logs.contains_key(run_id) { logs[run_id] } else { Seq::empty() }
}

/// The last sequence number of a log; zero for an empty one.
pub open spec fn last_seq(log: Seq<AgentEventEnvelope>) -> u64 {
    if log.len() == 0 { 0 } else { log.last().seq }
}

/// `out` holds copies of the events of `log` whose sequence number is above
/// `after`, in log order. On an ordered log those events form a suffix.
pub open spec fn copies_after(log: Seq<AgentEventEnvelope>, after: u64, out: Seq<AgentEventEnvelope>) -> bool {
    &&& out.len() <= log.len()
    &&& forall|j: int| 0 <= j < log.len() - out.len() ==> #[trigger] log[j].seq <= after
    &&& forall|t: int| 0 <= t < out.len() ==> #[trigger] log[log.len() - out.len() + t].seq > after
    &&& forall|t: int| 0 <= t < out.len() ==> envelope_copy(#[trigger] log[log.len() - out.len() + t], out[t])
}

/// In-memory append-only event log, one ordered list per run.
pub struct InMemoryAgentEventRepository {
    events: HashMap<u128, Vec<AgentEventEnvelope>>,
}

impl View for InMemoryAgentEventRepository {
    type V = Map<u128, Seq<AgentEventEnvelope>>;

    closed spec fn view(&self) -> Map<u128, Seq<AgentEventEnvelope>> {
        Map::new(|k: u128| self.events@.contains_key(k), |k: u128| self.events@[k]@)
    }
}

impl InMemoryAgentEventRepository {
    /// Every log is ordered and holds only its own run's events.
    pub open spec fn wf(&self) -> bool {
        forall|k: u128| #[trigger] self@.contains_key(k) ==> log_ordered(k, self@[k])
    }

    pub fn new() -> (r: InMemoryAgentEventRepository)
        ensures
            r@ == Map::<u128, Seq<AgentEventEnvelope>>::empty(),
            r.wf(),
    {
        let r = InMemoryAgentEventRepository { events: HashMap::new() };
        assert(r@ =~= Map::<u128, Seq<AgentEventEnvelope>>::empty());
        r
    }

    /// Appends one event. Its sequence number must be above the last one
    /// stored for the same run (and so above zero); anything else is refused
    /// with both numbers, and the log is left as it was.
    pub fn append(&mut self, envelope: AgentEventEnvelope) -> (r: Result<(), AgentStoreError>)
        requires
            old(self).wf(),
        ensures
            final(self).wf(),
            envelope.seq <= last_seq(log_of(old(self)@, envelope.run_id)) ==> {
                &&& r == Err::<(), AgentStoreError>(AgentStoreError::EventSequenceInvalid {
                    last: last_seq(log_of(old(self)@, envelope.run_id)),
                    attempted: envelope.seq,
                })
                &&& final(self)@ == old(self)@
            },
            envelope.seq > last_seq(log_of(old(self)@, envelope.run_id)) ==> {
                &&& r == Ok::<(), AgentStoreError>(())
                &&& final(self)@ == old(self)@.insert(
                    envelope.run_id,
                    log_of(old(self)@, envelope.run_id).push(envelope),
                )
            },
    {
        let run_id = envelope.run_id;
        let last: u64 = match self.events.get(&run_id) {
            Some(log) => {
                if log.len() == 0 {
                    0
                } else {
                    log[log.len() - 1].seq
                }
            },
            None => 0,
        };
        proof {
            if self.events@.contains_key(run_id) {
                assert(self@.contains_key(run_id));
            }
        }
        if envelope.seq <= last {
            return Err(AgentStoreError::EventSequenceInvalid { last, attempted: envelope.seq });
        }
        let ghost old_view = self@;
        let mut log = match self.events.remove(&run_id) {
            Some(log) => log,
            None => Vec::new(),
        };
        assert(log@ == log_of(old_view, run_id));
        log.push(envelope);
        self.events.insert(run_id, log);
        proof {
            let new_log = log_of(old_view, run_id).push(envelope);
            assert(self@ =~= old_view.insert(run_id, new_log));
            assert forall|k: u128| #[trigger] self@.contains_key(k) implies log_ordered(k, self@[k]) by {
                if k != run_id {
                    assert(old_view.contains_key(k));
                } else {
                    let old_log = log_of(old_view, run_id);
                    if old_log.len() > 0 {
                        assert(old_view.contains_key(run_id));
                        assert(log_ordered(run_id, old_log));
                    }
                    assert forall|i: int, j: int| 0 <= i < j < new_log.len() implies #[trigger] new_log[i].seq
                        < #[trigger] new_log[j].seq by {
                        if j == new_log.len() - 1 && i < j {
                            assert(old_log[i].seq <= old_log.last().seq);
                        }
                    }
                }
            }
        }
        Ok(())
    }

    /// The events of a run whose sequence number is above `after_seq`, in
    /// ascending order; empty for an unknown run.
    pub fn events_after(&self, run_id: u128, after_seq: u64) -> (r: Result<Vec<AgentEventEnvelope>, AgentStoreError>)
        requires
            self.wf(),
        ensures
            match r {
                Ok(out) => copies_after(log_of(self@, run_id), after_seq, out@),
                Err(_) => false,
            },
    {
        match self.events.get(&run_id) {
            None => {
                let out: Vec<AgentEventEnvelope> = Vec::new();
                Ok(out)
            },
            Some(log) => {
                proof {
                    assert(self@.contains_key(run_id));
                    assert(log_ordered(run_id, log@));
                }
                let mut out: Vec<AgentEventEnvelope> = Vec::new();
                let mut i: usize = 0;
                while i < log.len()
                    invariant
                        i <= log.len(),
                        log_ordered(run_id, log@),
                        log@ == log_of(self@, run_id),
                        out.len() <= i,
                        forall|j: int| 0 <= j < i - out.len() ==> #[trigger] log@[j].seq <= after_seq,
                        forall|t: int| 0 <= t < out.len() ==> #[trigger] log@[i - out.len() + t].seq > after_seq,
                        forall|t: int| 0 <= t < out.len() ==> envelope_copy(#[trigger] log@[i - out.len() + t], out@[t]),
                    decreases log.len() - i,
                {
                    if log[i].seq > after_seq {
                        let e = log[i].clone();
                        out.push(e);
                    } else {
                        if out.len() > 0 {
                            assert(log@[i - out.len() + (out.len() - 1)].seq > after_seq);
                            assert(log@[(i - 1) as int].seq < log@[i as int].seq);
                        }
                    }
                    i = i + 1;
                }
                Ok(out)
            },
        }
    }

    /// The full ordered log of one run.
    pub fn all_events(&self, run_id: u128) -> (r: Result<Vec<AgentEventEnvelope>, AgentStoreError>)
        requires
            self.wf(),
        ensures
            match r {
                Ok(out) => {
                    &&& out.len() == log_of(self@, run_id).len()
                    &&& forall|t: int| 0 <= t < out.len() ==> envelope_copy(#[trigger] log_of(self@, run_id)[t], out@[t])
                },
                Err(_) => false,
            },
    {
        match self.events_after(run_id, 0) {
            Ok(out) => {
                proof {
                    let log = log_of(self@, run_id);
                    if self@.contains_key(run_id) {
                        assert(log_ordered(run_id, log));
                    }
                    if out.len() < log.len() {
                        assert(log[0].seq <= 0);
                    }
                    assert(out.len() == log.len());
                    assert forall|t: int| 0 <= t < out.len() implies envelope_copy(#[trigger] log[t], out@[t]) by {
                        assert(log[log.len() - out.len() + t] == log[t]);
                    }
                }
                Ok(out)
            },
            Err(e) => Err(e),
        }
    }
}

// ---------------------------------------------------------------------------
// Approvals
// ---------------------------------------------------------------------------

/// In-memory approval records. `ids` remembers the insertion order of the
/// keys, which is the order in which a pending approval is looked for.
pub struct InMemoryApprovalStore {
    approvals: HashMap<u128, ApprovalRequest>,
    ids: Vec<u128>,
}

impl View for InMemoryApprovalStore {
    type V = Map<u128, ApprovalRequest>;

    closed spec fn view(&self) -> Map<u128, ApprovalRequest> {
        self.approvals@
    }
}

/// `b` is `a` decided as `state`: the same approval, with the decision and
/// its time recorded.
pub open spec fn decided_copy(a: ApprovalRequest, b: ApprovalRequest, state: ApprovalRequestState) -> bool {
    &&& b.state == state
    &&& b.decided_at_epoch_ms is Some
    &&& b.target_ids@ == a.target_ids@
    &&& b == (ApprovalRequest {
        state: b.state,
        decided_at_epoch_ms: b.decided_at_epoch_ms,
        target_ids: b.target_ids,
        ..a
    })
}

/// `b` is `a` invalidated: the same approval, decided as invalidated at
/// some time.
pub open spec fn invalidated_copy(a: ApprovalRequest, b: ApprovalRequest) -> bool {
    decided_copy(a, b, ApprovalRequestState::Invalidated)
}

/// An approval pending for the given run.
pub open spec fn pending_for(a: ApprovalRequest, run_id: u128) -> bool {
    a.run_id == run_id && a.state == ApprovalRequestState::Pending
}

impl InMemoryApprovalStore {
    /// The key list names exactly the stored approvals, each once, and each
    /// approval is stored under its own id.
    pub closed spec fn wf(&self) -> bool {
        &&& forall|i: int| 0 <= i < self.ids@.len() ==> self.approvals@.contains_key(#[trigger] self.ids@[i])
        &&& forall|k: u128| #[trigger] self.approvals@.contains_key(k) ==> self.ids@.contains(k)
        &&& forall|k: u128| #[trigger] self.approvals@.contains_key(k) ==> self.approvals@[k].id == k
    }

    pub fn new() -> (r: InMemoryApprovalStore)
        ensures
            r@ == Map::<u128, ApprovalRequest>::empty(),
            r.wf(),
    {
        InMemoryApprovalStore { approvals: HashMap::new(), ids: Vec::new() }
    }

    /// Stores an approval under its id, replacing any earlier record.
    pub fn insert(&mut self, approval: ApprovalRequest) -> (r: Result<(), AgentStoreError>)
        requires
            old(self).wf(),
        ensures
            final(self).wf(),
            r == Ok::<(), AgentStoreError>(()),
            final(self)@ == old(self)@.insert(approval.id, approval),
    {
        let id = approval.id;
        if !self.approvals.contains_key(&id) {
            self.ids.push(id);
        }
        self.approvals.insert(id, approval);
        proof {
            assert(self.ids@.contains(id)) by {
                assert(exists|i: int| 0 <= i < self.ids@.len() && self.ids@[i] == id) by {
                    if !old(self)@.contains_key(id) {
                        assert(self.ids@[self.ids@.len() - 1] == id);
                    } else {
                        assert(old(self).ids@.contains(id));
                        let i = choose|i: int| 0 <= i < old(self).ids@.len() && old(self).ids@[i] == id;
                        assert(self.ids@[i] == id);
                    }
                }
            }
            assert forall|k: u128| #[trigger] self.approvals@.contains_key(k) implies self.ids@.contains(k) by {
                if k != id {
                    assert(old(self).ids@.contains(k));
                    let i = choose|i: int| 0 <= i < old(self).ids@.len() && old(self).ids@[i] == k;
                    assert(self.ids@[i] == k);
                }
            }
        }
        Ok(())
    }

    /// A copy of the stored approval with this id, if any.
    pub fn get(&self, approval_id: u128) -> (r: Result<Option<ApprovalRequest>, AgentStoreError>)
        ensures
            match r {
                Ok(Some(a)) => self@.contains_key(approval_id) && approval_copy(self@[approval_id], a)
                    && (self.wf() ==> a.id == approval_id),
                Ok(None) => !self@.contains_key(approval_id),
                Err(_) => false,
            },
    {
        match self.approvals.get(&approval_id) {
            Some(a) => Ok(Some(a.clone())),
            None => Ok(None),
        }
    }

    /// Replaces a known approval with a copy of `approval`; an unknown one is
    /// refused and nothing changes.
    pub fn save(&mut self, approval: &ApprovalRequest) -> (r: Result<(), AgentStoreError>)
        requires
            old(self).wf(),
        ensures
            final(self).wf(),
            !old(self)@.contains_key(approval.id) ==> {
                &&& r == Err::<(), AgentStoreError>(AgentStoreError::ApprovalNotFound)
                &&& final(self)@ == old(self)@
            },
            old(self)@.contains_key(approval.id) ==> {
                &&& r == Ok::<(), AgentStoreError>(())
                &&& final(self)@.contains_key(approval.id)
                &&& approval_copy(*approval, final(self)@[approval.id])
                &&& final(self)@ == old(self)@.insert(approval.id, final(self)@[approval.id])
            },
    {
        let id = approval.id;
        if !self.approvals.contains_key(&id) {
            return Err(AgentStoreError::ApprovalNotFound);
        }
        let copy = approval.clone();
        self.approvals.insert(id, copy);
        Ok(())
    }

    /// How many approvals the store has recorded, an upper bound of how many
    /// can be pending.
    pub closed spec fn size(&self) -> nat {
        self.ids@.len()
    }

    /// Invalidates every pending approval of a run and returns their ids,
    /// each once. Every other approval is left as it was.
    pub fn invalidate_pending_for_run(&mut self, run_id: u128) -> (r: Vec<u128>)
        requires
            old(self).wf(),
        ensures
            final(self).wf(),
            final(self).size() == old(self).size(),
            final(self)@.dom() == old(self)@.dom(),
            forall|k: u128| #[trigger] old(self)@.contains_key(k) && !pending_for(old(self)@[k], run_id)
                ==> final(self)@[k] == old(self)@[k],
            forall|k: u128| #[trigger] old(self)@.contains_key(k) && pending_for(old(self)@[k], run_id)
                ==> invalidated_copy(old(self)@[k], final(self)@[k]),
            r@.no_duplicates(),
            r@.len() <= old(self).size(),
            forall|i: int| 0 <= i < r@.len() ==> old(self)@.contains_key(#[trigger] r@[i]) && pending_for(old(self)@[r@[i]], run_id),
            forall|k: u128| #[trigger] old(self)@.contains_key(k) && pending_for(old(self)@[k], run_id) ==> r@.contains(k),
    {
        let ghost before = self@;
        let mut out: Vec<u128> = Vec::new();
        let n = self.ids.len();
        let mut i: usize = 0;
        while i < n
            invariant
                n == self.ids@.len(),
                self.ids@ == old(self).ids@,
                i <= n,
                before == old(self)@,
                self.wf(),
                self@.dom() == before.dom(),
                forall|k: u128| #[trigger] before.contains_key(k) ==> {
                    if pending_for(before[k], run_id) && self.ids@.take(i as int).contains(k) {
                        invalidated_copy(before[k], self@[k])
                    } else {
                        self@[k] == before[k]
                    }
                },
                out@.no_duplicates(),
                out@.len() <= i,
                forall|j: int| 0 <= j < out@.len() ==> before.contains_key(#[trigger] out@[j]) && pending_for(before[out@[j]], run_id)
                    && self.ids@.take(i as int).contains(out@[j]),
                forall|j: int| 0 <= j < i && pending_for(before[self.ids@[j]], run_id) ==> #[trigger] out@.contains(self.ids@[j]),
            decreases n - i,
        {
            let id = self.ids[i];
            assert(self.approvals@.contains_key(self.ids@[i as int]));
            let ghost seen = self.ids@.take(i as int);
            let ghost next = self.ids@.take(i + 1);
            let ghost out_before = out@;
            assert(next =~= seen.push(id));
            let pending = match self.approvals.get(&id) {
                Some(a) => a.run_id == run_id && a.state == ApprovalRequestState::Pending,
                None => false,
            };
            if pending {
                proof {
                    if seen.contains(id) {
                        assert(invalidated_copy(before[id], self@[id]));
                    }
                    assert(!seen.contains(id));
                    assert(!out@.contains(id));
                }
                let mut a = match self.approvals.get(&id) {
                    Some(a) => a.clone(),
                    None => return out,
                };
                a.decide(ApprovalRequestState::Invalidated);
                let ghost a2 = a;
                self.approvals.insert(id, a);
                out.push(id);
                proof {
                    assert(invalidated_copy(before[id], a2));
                    assert forall|k: u128| #[trigger] self.approvals@.contains_key(k) implies self.ids@.contains(k) by {
                        assert(old(self).approvals@.contains_key(k) || k == id);
                    }
                }
            }
            proof {
                assert forall|k: u128| #[trigger] before.contains_key(k) implies {
                    if pending_for(before[k], run_id) && next.contains(k) {
                        invalidated_copy(before[k], self@[k])
                    } else {
                        self@[k] == before[k]
                    }
                } by {
                    if k == id {
                        assert(next[i as int] == id);
                    } else {
                        if next.contains(k) {
                            let q = choose|q: int| 0 <= q < next.len() && next[q] == k;
                            assert(seen[q] == k);
                        }
                    }
                }
                assert forall|j: int| 0 <= j < out@.len() implies before.contains_key(#[trigger] out@[j]) && pending_for(before[out@[j]], run_id)
                    && next.contains(out@[j]) by {
                    if seen.contains(out@[j]) {
                        let q = choose|q: int| 0 <= q < seen.len() && seen[q] == out@[j];
                        assert(next[q] == out@[j]);
                    } else {
                        assert(next[i as int] == out@[j]);
                    }
                }
                assert forall|x: u128| out_before.contains(x) implies #[trigger] out@.contains(x) by {
                    let q = choose|q: int| 0 <= q < out_before.len() && out_before[q] == x;
                    assert(out@[q] == x);
                }
                assert forall|j: int| 0 <= j < i + 1 && pending_for(before[self.ids@[j]], run_id) implies #[trigger] out@.contains(self.ids@[j]) by {
                    if j < i {
                        assert(out_before.contains(self.ids@[j]));
                    } else if pending {
                        assert(out@[out@.len() - 1] == id);
                    } else {
                        assert(seen.contains(id));
                        let q = choose|q: int| 0 <= q < seen.len() && seen[q] == id;
                        assert(out_before.contains(self.ids@[q]));
                    }
                }
            }
            i = i + 1;
        }
        proof {
            assert(self.ids@.take(n as int) =~= self.ids@);
            assert forall|k: u128| #[trigger] old(self)@.contains_key(k) && pending_for(old(self)@[k], run_id) implies out@.contains(k) by {
                assert(old(self).ids@.contains(k));
                let j = choose|j: int| 0 <= j < old(self).ids@.len() && old(self).ids@[j] == k;
                assert(out@.contains(self.ids@[j]));
            }
        }
        out
    }

    /// A copy of an approval of this run that is still pending, or `None`
    /// when the run has none.
    pub fn pending_for_run(&self, run_id: u128) -> (r: Result<Option<ApprovalRequest>, AgentStoreError>)
        requires
            self.wf(),
        ensures
            match r {
                Ok(Some(a)) => exists|k: u128| #[trigger] self@.contains_key(k)
                    && pending_for(self@[k], run_id) && approval_copy(self@[k], a),
                Ok(None) => forall|k: u128| #[trigger] self@.contains_key(k) ==> !pending_for(self@[k], run_id),
                Err(_) => false,
            },
    {
        let mut i: usize = 0;
        while i < self.ids.len()
            invariant
                self.wf(),
                i <= self.ids.len(),
                forall|j: int| 0 <= j < i ==> !pending_for(#[trigger] self.approvals@[self.ids@[j]], run_id),
            decreases self.ids.len() - i,
        {
            let id = self.ids[i];
            assert(self.approvals@.contains_key(self.ids@[i as int]));
            match self.approvals.get(&id) {
                Some(a) => {
                    if a.run_id == run_id && a.state == ApprovalRequestState::Pending {
                        let c = a.clone();
                        assert(self@.contains_key(id) && pending_for(self@[id], run_id)
                            && approval_copy(self@[id], c));
                        return Ok(Some(c));
                    }
                },
                None => {},
            }
            i = i + 1;
        }
        proof {
            assert forall|k: u128| #[trigger] self@.contains_key(k) implies !pending_for(self@[k], run_id) by {
                assert(self.ids@.contains(k));
                let j = choose|j: int| 0 <= j < self.ids@.len() && self.ids@[j] == k;
                assert(!pending_for(self.approvals@[self.ids@[j]], run_id));
            }
        }
        Ok(None)
    }
}

// ---------------------------------------------------------------------------
// Checkpoints
// ---------------------------------------------------------------------------

/// In-memory checkpoints, one per run.
pub struct InMemoryCheckpointStore {
    checkpoints: HashMap<u128, AgentCheckpoint>,
}

impl View for InMemoryCheckpointStore {
    type V = Map<u128, AgentCheckpoint>;

    closed spec fn view(&self) -> Map<u128, AgentCheckpoint> {
        self.checkpoints@
    }
}

impl InMemoryCheckpointStore {
    pub fn new() -> (r: InMemoryCheckpointStore)
        ensures
            r@ == Map::<u128, AgentCheckpoint>::empty(),
    {
        InMemoryCheckpointStore { checkpoints: HashMap::new() }
    }

    /// Stores the checkpoint of its run, replacing the previous one.
    pub fn save(&mut self, checkpoint: AgentCheckpoint) -> (r: Result<(), AgentStoreError>)
        ensures
            r == Ok::<(), AgentStoreError>(()),
            final(self)@ == old(self)@.insert(checkpoint.run_id, checkpoint),
    {
        let id = checkpoint.run_id;
        self.checkpoints.insert(id, checkpoint);
        Ok(())
    }

    /// A copy of the run's checkpoint, if any.
    pub fn get(&self, run_id: u128) -> (r: Result<Option<AgentCheckpoint>, AgentStoreError>)
        ensures
            match r {
                Ok(Some(c)) => self@.contains_key(run_id) && checkpoint_copy(self@[run_id], c),
                Ok(None) => !self@.contains_key(run_id),
                Err(_) => false,
            },
    {
        match self.checkpoints.get(&run_id) {
            Some(c) => Ok(Some(c.clone())),
            None => Ok(None),
        }
    }
}

// ---------------------------------------------------------------------------
// Pending calls
// ---------------------------------------------------------------------------

/// Validated calls and commands awaiting a decision, kept only until the
/// user decides and never in the event log.
pub struct InMemoryPendingToolCallStore {
    calls: HashMap<u128, PreparedToolCall>,
    commands: HashMap<u128, PreparedCommandProposal>,
}

impl InMemoryPendingToolCallStore {
    pub closed spec fn calls_view(&self) -> Map<u128, PreparedToolCall> {
        self.calls@
    }

    pub closed spec fn commands_view(&self) -> Map<u128, PreparedCommandProposal> {
        self.commands@
    }

    pub fn new() -> (r: InMemoryPendingToolCallStore)
        ensures
            r.calls_view() == Map::<u128, PreparedToolCall>::empty(),
            r.commands_view() == Map::<u128, PreparedCommandProposal>::empty(),
    {
        InMemoryPendingToolCallStore { calls: HashMap::new(), commands: HashMap::new() }
    }

    pub fn put(&mut self, call: PreparedToolCall) -> (r: Result<(), AgentStoreError>)
        ensures
            r == Ok::<(), AgentStoreError>(()),
            final(self).calls_view() == old(self).calls_view().insert(call.tool_call_id, call),
            final(self).commands_view() == old(self).commands_view(),
    {
        let id = call.tool_call_id;
        self.calls.insert(id, call);
        Ok(())
    }

    pub fn get(&self, tool_call_id: u128) -> (r: Result<Option<PreparedToolCall>, AgentStoreError>)
        ensures
            r == Ok::<Option<PreparedToolCall>, AgentStoreError>(
                if self.calls_view().contains_key(tool_call_id) {
                    Some(self.calls_view()[tool_call_id])
                } else {
                    None
                },
            ),
    {
        match self.calls.get(&tool_call_id) {
            Some(c) => Ok(Some(c.clone())),
            None => Ok(None),
        }
    }

    pub fn remove(&mut self, tool_call_id: u128) -> (r: Result<(), AgentStoreError>)
        ensures
            r == Ok::<(), AgentStoreError>(()),
            final(self).calls_view() == old(self).calls_view().remove(tool_call_id),
            final(self).commands_view() == old(self).commands_view(),
    {
        let _ = self.calls.remove(&tool_call_id);
        Ok(())
    }

    pub fn put_command(&mut self, command: PreparedCommandProposal) -> (r: Result<(), AgentStoreError>)
        ensures
            r == Ok::<(), AgentStoreError>(()),
            final(self).commands_view() == old(self).commands_view().insert(command.command_id, command),
            final(self).calls_view() == old(self).calls_view(),
    {
        let id = command.command_id;
        self.commands.insert(id, command);
        Ok(())
    }

    pub fn get_command(&self, command_id: u128) -> (r: Result<Option<PreparedCommandProposal>, AgentStoreError>)
        ensures
            r == Ok::<Option<PreparedCommandProposal>, AgentStoreError>(
                if self.commands_view().contains_key(command_id) {
                    Some(self.commands_view()[command_id])
                } else {
                    None
                },
            ),
    {
        match self.commands.get(&command_id) {
            Some(c) => Ok(Some(c.clone())),
            None => Ok(None),
        }
    }

    pub fn remove_command(&mut self, command_id: u128) -> (r: Result<(), AgentStoreError>)
        ensures
            r == Ok::<(), AgentStoreError>(()),
            final(self).commands_view() == old(self).commands_view().remove(command_id),
            final(self).calls_view() == old(self).calls_view(),
    {
        let _ = self.commands.remove(&command_id);
        Ok(())
    }
}

} // verus!
