//! Fleet DAG scheduler: issues leases for exact target/session pairs of an
//! approved fleet graph, records child outcomes, applies the failure policy,
//! and pauses, continues or cancels the graph.
use vstd::prelude::*;
use crate::fleet_control::{FleetApprovalStateV2, FleetApprovalV2, seals_graph};
use crate::fleet_run::{
    FleetChildRun, FleetExecutionStrategyV2, FleetFailurePolicyV2, FleetRecoveryStateV2,
    FleetRunStateV2, FleetRunV2, FleetStage, FleetStageStateV2, error_code_acceptable,
    error_code_ok,
};
use crate::fleet_target::{FleetTargetBinding, clone_binding, same_bindings, target_views};
use crate::ids::new_id;

verus! {

/// Most children a fleet run keeps active at once.
pub const MAX_FLEET_ACTIVE_CHILDREN: usize = 10;

/// A lease for one attempt of one stage on one exact target.
#[derive(Clone, Debug, PartialEq, Eq)]
pub struct FleetChildLeaseV2 {
    pub fleet_run_id: u128,
    pub fleet_version: u64,
    pub graph_digest: String,
    pub approval_id: u128,
    pub stage_id: u128,
    pub agent_run_id: u128,
    pub target: FleetTargetBinding,
    pub attempt: u32,
    pub policy_version: u64,
    pub policy_hash: String,
}

#[derive(Clone, Copy, Debug, PartialEq, Eq, Structural)]
pub enum FleetChildOutcomeV2 {
    Succeeded,
    Failed,
    Cancelled,
}

#[derive(Clone, Copy, Debug, PartialEq, Eq, Structural)]
pub enum FleetCoordinatorError {
    InvalidAuthority,
    InvalidState,
    InvalidChild,
}

/// The scheduler; it holds no state of its own.
pub struct FleetCoordinatorV2;

/// A child that is still doing work.
pub open spec fn child_active(s: FleetStageStateV2) -> bool {
    s is Running || s is AwaitingApproval || s is Verifying
}

/// A child whose attempt is over for good.
pub open spec fn child_settled(s: FleetStageStateV2) -> bool {
    s is Succeeded || s is Failed || s is Cancelled || s is RolledBack || s is RollbackFailed
}

pub fn is_active(state: FleetStageStateV2) -> (r: bool)
    ensures
        r == child_active(state),
{
    matches!(
        state,
        FleetStageStateV2::Running | FleetStageStateV2::AwaitingApproval | FleetStageStateV2::Verifying
    )
}

pub fn is_settled(state: FleetStageStateV2) -> (r: bool)
    ensures
        r == child_settled(state),
{
    matches!(
        state,
        FleetStageStateV2::Succeeded | FleetStageStateV2::Failed | FleetStageStateV2::Cancelled
            | FleetStageStateV2::RolledBack | FleetStageStateV2::RollbackFailed
    )
}

/// The run may be driven under `approval` and the current policy: it is
/// live, in an allowed state, and the granted approval seals exactly this
/// graph under exactly this policy.
pub open spec fn authority_holds(
    run: FleetRunV2,
    approval: FleetApprovalV2,
    policy_version: u64,
    policy_hash: Seq<char>,
    state_allowed: bool,
) -> bool {
    &&& run.recovery_state is Live
    &&& state_allowed
    &&& approval.state is Granted
    &&& seals_graph(approval, run)
    &&& approval.policy_version == policy_version
    &&& approval.policy_hash@ == policy_hash
}

fn check_authority(
    run: &FleetRunV2,
    approval: &FleetApprovalV2,
    policy_version: u64,
    policy_hash: &str,
    state_allowed: bool,
) -> (r: bool)
    ensures
        r == authority_holds(*run, *approval, policy_version, policy_hash@, state_allowed),
{
    run.recovery_state == FleetRecoveryStateV2::Live && state_allowed && approval.state
        == FleetApprovalStateV2::Granted && approval.fleet_run_id == run.id && approval.fleet_version
        == run.version && approval.graph_digest == run.graph_digest && same_bindings(
        &approval.targets,
        &run.targets,
    ) && approval.policy_version == policy_version && crate::text::text_eq(
        approval.policy_hash.as_str(),
        policy_hash,
    )
}

/// Agent run ids of the children in the given condition, in order.
pub open spec fn agent_ids_where(children: Seq<FleetChildRun>, active: bool) -> Seq<u128>
    decreases children.len(),
{
    if children.len() == 0 {
        Seq::empty()
    } else {
        let rest = agent_ids_where(children.drop_last(), active);
        let c = children.last();
        let selected = if active {
            child_active(c.state)
        } else {
            c.state is Blocked
        };
        if selected && c.agent_run_id is Some {
            rest.push(c.agent_run_id->0)
        } else {
            rest
        }
    }
}

fn collect_agent_ids(children: &Vec<FleetChildRun>, active: bool) -> (r: Vec<u128>)
    ensures
        r@ == agent_ids_where(children@, active),
{
    let mut out: Vec<u128> = Vec::new();
    let n = children.len();
    for i in 0..n
        invariant
            n == children@.len(),
            out@ == agent_ids_where(children@.take(i as int), active),
    {
        proof {
            assert(children@.take(i + 1).drop_last() =~= children@.take(i as int));
        }
        let c = &children[i];
        let selected = if active {
            is_active(c.state)
        } else {
            c.state == FleetStageStateV2::Blocked
        };
        if selected {
            match c.agent_run_id {
                Some(id) => out.push(id),
                None => {},
            }
        }
    }
    proof {
        assert(children@.take(n as int) =~= children@);
    }
    out
}

/// The children with every active child moved to `to`.
pub open spec fn active_children_moved(
    old_children: Seq<FleetChildRun>,
    new_children: Seq<FleetChildRun>,
    to: FleetStageStateV2,
) -> bool {
    &&& new_children.len() == old_children.len()
    &&& forall|i: int|
        0 <= i < old_children.len() ==> #[trigger] new_children[i] == if child_active(
            old_children[i].state,
        ) {
            FleetChildRun { state: to, ..old_children[i] }
        } else {
            old_children[i]
        }
}

fn move_active_children(children: &mut Vec<FleetChildRun>, to: FleetStageStateV2)
    ensures
        active_children_moved(old(children)@, final(children)@, to),
{
    let n = children.len();
    for i in 0..n
        invariant
            n == children@.len(),
            n == old(children)@.len(),
            forall|j: int|
                0 <= j < i ==> #[trigger] children@[j] == if child_active(old(children)@[j].state) {
                    FleetChildRun { state: to, ..old(children)@[j] }
                } else {
                    old(children)@[j]
                },
            forall|j: int| i <= j < n ==> #[trigger] children@[j] == old(children)@[j],
    {
        if is_active(children[i].state) {
            children[i].state = to;
        }
    }
}

/// The fields a scheduling step never touches: identity, graph, targets,
/// policy, digest, recovery state and creation time.
pub open spec fn same_graph(a: FleetRunV2, b: FleetRunV2) -> bool {
    &&& a.id == b.id
    &&& a.version == b.version
    &&& a.production == b.production
    &&& a.failure_policy == b.failure_policy
    &&& a.targets == b.targets
    &&& a.graph_digest == b.graph_digest
    &&& a.recovery_state == b.recovery_state
    &&& a.created_at_epoch_ms == b.created_at_epoch_ms
}

impl FleetCoordinatorV2 {
    /// Pauses an executing live run for review: its active children become
    /// `Blocked`, and their agent run ids are returned so they can be stopped.
    pub fn pause(run: &mut FleetRunV2, now_epoch_ms: u64) -> (r: Result<Vec<u128>, FleetCoordinatorError>)
        ensures
            !(old(run).recovery_state is Live && old(run).state is Executing) ==> r
                == Err::<Vec<u128>, FleetCoordinatorError>(FleetCoordinatorError::InvalidState)
                && *final(run) == *old(run),
            old(run).recovery_state is Live && old(run).state is Executing ==> (r matches Ok(ids)
                && ids@ == agent_ids_where(old(run).children@, true)
                && same_graph(*final(run), *old(run))
                && final(run).state is PausedForReview
                && final(run).updated_at_epoch_ms == now_epoch_ms
                && final(run).stages == old(run).stages
                && active_children_moved(old(run).children@, final(run).children@, FleetStageStateV2::Blocked)),
    {
        if run.recovery_state != FleetRecoveryStateV2::Live || run.state != FleetRunStateV2::Executing {
            return Err(FleetCoordinatorError::InvalidState);
        }
        let active = collect_agent_ids(&run.children, true);
        match run.transition_to(FleetRunStateV2::PausedForReview, now_epoch_ms) {
            Ok(()) => {},
            Err(_) => {
                return Err(FleetCoordinatorError::InvalidState);
            },
        }
        move_active_children(&mut run.children, FleetStageStateV2::Blocked);
        Ok(active)
    }

    /// Cancels a live, unfinished run: its active children become
    /// `Cancelled`, and their agent run ids are returned.
    pub fn cancel(run: &mut FleetRunV2, now_epoch_ms: u64) -> (r: Result<Vec<u128>, FleetCoordinatorError>)
        ensures
            !(old(run).recovery_state is Live && !crate::fleet_run::fleet_is_terminal(old(run).state))
                ==> r == Err::<Vec<u128>, FleetCoordinatorError>(FleetCoordinatorError::InvalidState)
                && *final(run) == *old(run),
            old(run).recovery_state is Live && !crate::fleet_run::fleet_is_terminal(old(run).state)
                ==> (r matches Ok(ids) && ids@ == agent_ids_where(old(run).children@, true)
                && same_graph(*final(run), *old(run))
                && final(run).state is Cancelled
                && final(run).updated_at_epoch_ms == now_epoch_ms
                && final(run).stages == old(run).stages
                && active_children_moved(old(run).children@, final(run).children@, FleetStageStateV2::Cancelled)),
    {
        if run.recovery_state != FleetRecoveryStateV2::Live || run.state.is_terminal() {
            return Err(FleetCoordinatorError::InvalidState);
        }
        let active = collect_agent_ids(&run.children, true);
        move_active_children(&mut run.children, FleetStageStateV2::Cancelled);
        match run.transition_to(FleetRunStateV2::Cancelled, now_epoch_ms) {
            Ok(()) => {},
            Err(_) => {
                return Err(FleetCoordinatorError::InvalidState);
            },
        }
        Ok(active)
    }
}

/// Some child of stage `sid` is in a state satisfying the selector:
/// 0 = failed, 1 = active.
pub open spec fn stage_child_is(children: Seq<FleetChildRun>, sid: u128, kind: int) -> bool {
    exists|i: int|
        0 <= i < children.len() && (#[trigger] children[i]).stage_id == sid && if kind == 0 {
            children[i].state is Failed
        } else {
            child_active(children[i].state)
        }
}

/// Some child of stage `sid` on target `tid` has succeeded.
pub open spec fn target_succeeded(children: Seq<FleetChildRun>, sid: u128, tid: u128) -> bool {
    exists|i: int|
        0 <= i < children.len() && (#[trigger] children[i]).stage_id == sid && children[i].target_id
            == tid && children[i].state is Succeeded
}

/// Some child of stage `sid` on target `tid` has settled.
pub open spec fn target_settled(children: Seq<FleetChildRun>, sid: u128, tid: u128) -> bool {
    exists|i: int|
        0 <= i < children.len() && (#[trigger] children[i]).stage_id == sid && children[i].target_id
            == tid && child_settled(children[i].state)
}

/// Every target of the stage has a succeeded child.
pub open spec fn all_targets_succeeded(stage: FleetStage, children: Seq<FleetChildRun>) -> bool {
    forall|t: int|
        0 <= t < stage.target_ids@.len() ==> target_succeeded(children, stage.id, #[trigger] stage.target_ids@[t])
}

/// A stage's state recomputed from its children: failed if any child
/// failed, succeeded if every target succeeded, running if any child is
/// active, and otherwise unchanged.
pub open spec fn refreshed_stage_state(stage: FleetStage, children: Seq<FleetChildRun>) -> FleetStageStateV2 {
    if stage_child_is(children, stage.id, 0) {
        FleetStageStateV2::Failed
    } else if all_targets_succeeded(stage, children) {
        FleetStageStateV2::Succeeded
    } else if stage_child_is(children, stage.id, 1) {
        FleetStageStateV2::Running
    } else {
        stage.state
    }
}

/// Position `k` holds the first stage with identifier `sid`.
pub open spec fn first_stage_at(stages: Seq<FleetStage>, sid: u128, k: int) -> bool {
    0 <= k < stages.len() && stages[k].id == sid && forall|j: int| 0 <= j < k ==> (#[trigger] stages[j]).id != sid
}

/// The stages after refreshing the first stage with identifier `sid`.
pub open spec fn stages_refreshed(
    stages: Seq<FleetStage>,
    children: Seq<FleetChildRun>,
    sid: u128,
) -> Seq<FleetStage> {
    if exists|k: int| first_stage_at(stages, sid, k) {
        let k = choose|k: int| first_stage_at(stages, sid, k);
        stages.update(k, FleetStage { state: refreshed_stage_state(stages[k], children), ..stages[k] })
    } else {
        stages
    }
}

/// Position `k` holds the first active child run as `agent_run_id`.
pub open spec fn first_claimed_child(children: Seq<FleetChildRun>, agent_run_id: u128, k: int) -> bool {
    &&& 0 <= k < children.len()
    &&& children[k].agent_run_id == Some(agent_run_id)
    &&& child_active(children[k].state)
    &&& forall|j: int|
        0 <= j < k ==> !((#[trigger] children[j]).agent_run_id == Some(agent_run_id) && child_active(
            children[j].state,
        ))
}

pub open spec fn outcome_state(outcome: FleetChildOutcomeV2) -> FleetStageStateV2 {
    match outcome {
        FleetChildOutcomeV2::Succeeded => FleetStageStateV2::Succeeded,
        FleetChildOutcomeV2::Failed => FleetStageStateV2::Failed,
        FleetChildOutcomeV2::Cancelled => FleetStageStateV2::Cancelled,
    }
}

pub open spec fn any_stage_failed(stages: Seq<FleetStage>) -> bool {
    exists|i: int| 0 <= i < stages.len() && (#[trigger] stages[i]).state is Failed
}

pub open spec fn all_stages_succeeded(stages: Seq<FleetStage>) -> bool {
    forall|i: int| 0 <= i < stages.len() ==> (#[trigger] stages[i]).state is Succeeded
}

/// The run state the failure policy chooses once a stage has failed.
pub open spec fn policy_state(policy: FleetFailurePolicyV2) -> FleetRunStateV2 {
    match policy {
        FleetFailurePolicyV2::Stop => FleetRunStateV2::Failed,
        FleetFailurePolicyV2::PauseForReview => FleetRunStateV2::PausedForReview,
        FleetFailurePolicyV2::Rollback => FleetRunStateV2::RollingBack,
        FleetFailurePolicyV2::Continue => FleetRunStateV2::Executing,
    }
}

/// The outcome of child `k` applied to an executing run.
pub open spec fn outcome_applied(
    before: FleetRunV2,
    after: FleetRunV2,
    k: int,
    outcome: FleetChildOutcomeV2,
    error_code: Option<String>,
    now_epoch_ms: u64,
) -> bool {
    let child = before.children@[k];
    let children1 = before.children@.update(
        k,
        FleetChildRun { state: outcome_state(outcome), error_code: error_code, ..child },
    );
    let stages1 = stages_refreshed(before.stages@, children1, child.stage_id);
    let state1 = if any_stage_failed(stages1) {
        policy_state(before.failure_policy)
    } else {
        FleetRunStateV2::Executing
    };
    let children_ok = if state1 is PausedForReview {
        active_children_moved(children1, after.children@, FleetStageStateV2::Blocked)
    } else {
        after.children@ == children1
    };
    let state2 = if state1 is Executing && all_stages_succeeded(stages1) {
        FleetRunStateV2::Verifying
    } else {
        state1
    };
    &&& same_graph(after, before)
    &&& after.stages@ == stages1
    &&& children_ok
    &&& after.state == state2
    &&& after.updated_at_epoch_ms == now_epoch_ms
}

/// The reported error code is acceptable for the outcome.
pub open spec fn outcome_code_ok(outcome: FleetChildOutcomeV2, error_code: Option<String>) -> bool {
    match error_code {
        Some(code) => error_code_acceptable(code@) && !(outcome is Succeeded),
        None => true,
    }
}

fn find_first_stage(stages: &Vec<FleetStage>, sid: u128) -> (r: Option<usize>)
    ensures
        match r {
            Some(k) => first_stage_at(stages@, sid, k as int),
            None => !exists|k: int| first_stage_at(stages@, sid, k),
        },
{
    let n = stages.len();
    for k in 0..n
        invariant
            n == stages@.len(),
            forall|j: int| 0 <= j < k ==> (#[trigger] stages@[j]).id != sid,
    {
        if stages[k].id == sid {
            return Some(k);
        }
    }
    proof {
        assert forall|k: int| !first_stage_at(stages@, sid, k) by {
            if 0 <= k < n && stages@[k].id == sid {
                assert(stages@[k].id != sid);
            }
        }
    }
    None
}

fn refreshed_state_exec(stage: &FleetStage, children: &Vec<FleetChildRun>) -> (r: FleetStageStateV2)
    ensures
        r == refreshed_stage_state(*stage, children@),
{
    let sid = stage.id;
    let n = children.len();
    let mut failed = false;
    let mut active = false;
    for i in 0..n
        invariant
            n == children@.len(),
            failed == exists|j: int| 0 <= j < i && (#[trigger] children@[j]).stage_id == sid && children@[j].state is Failed,
            active == exists|j: int| 0 <= j < i && (#[trigger] children@[j]).stage_id == sid && child_active(children@[j].state),
    {
        if children[i].stage_id == sid {
            if children[i].state == FleetStageStateV2::Failed {
                failed = true;
            }
            if is_active(children[i].state) {
                active = true;
            }
        }
    }
    proof {
        assert(failed == stage_child_is(children@, sid, 0));
        assert(active == stage_child_is(children@, sid, 1));
    }
    if failed {
        return FleetStageStateV2::Failed;
    }
    let m = stage.target_ids.len();
    let mut all = true;
    for t in 0..m
        invariant
            m == stage.target_ids@.len(),
            n == children@.len(),
            all == forall|u: int| 0 <= u < t ==> target_succeeded(children@, sid, #[trigger] stage.target_ids@[u]),
    {
        let tid = stage.target_ids[t];
        let mut found = false;
        for i in 0..n
            invariant
                n == children@.len(),
                found == exists|j: int| 0 <= j < i && (#[trigger] children@[j]).stage_id == sid && children@[j].target_id == tid && children@[j].state is Succeeded,
        {
            if children[i].stage_id == sid && children[i].target_id == tid && children[i].state
                == FleetStageStateV2::Succeeded {
                found = true;
            }
        }
        if !found {
            all = false;
        }
    }
    if all {
        return FleetStageStateV2::Succeeded;
    }
    if active {
        return FleetStageStateV2::Running;
    }
    stage.state
}

fn stages_all_succeeded(stages: &Vec<FleetStage>) -> (r: bool)
    ensures
        r == all_stages_succeeded(stages@),
{
    let n = stages.len();
    for i in 0..n
        invariant
            n == stages@.len(),
            forall|j: int| 0 <= j < i ==> (#[trigger] stages@[j]).state is Succeeded,
    {
        if stages[i].state != FleetStageStateV2::Succeeded {
            return false;
        }
    }
    true
}

fn stages_any_failed(stages: &Vec<FleetStage>) -> (r: bool)
    ensures
        r == any_stage_failed(stages@),
{
    let n = stages.len();
    for i in 0..n
        invariant
            n == stages@.len(),
            forall|j: int| 0 <= j < i ==> !((#[trigger] stages@[j]).state is Failed),
    {
        if stages[i].state == FleetStageStateV2::Failed {
            return true;
        }
    }
    false
}

/// Whether target `tid` of stage `sid` has a settled child.
fn has_settled(children: &Vec<FleetChildRun>, sid: u128, tid: u128) -> (r: bool)
    ensures
        r == target_settled(children@, sid, tid),
{
    let n = children.len();
    for i in 0..n
        invariant
            n == children@.len(),
            forall|j: int| 0 <= j < i ==> !((#[trigger] children@[j]).stage_id == sid && children@[j].target_id == tid && child_settled(children@[j].state)),
    {
        if children[i].stage_id == sid && children[i].target_id == tid && is_settled(children[i].state) {
            return true;
        }
    }
    false
}

/// A stage to reopen after review: failed or blocked, with a target that has
/// no settled child.
pub open spec fn stage_reopens(stage: FleetStage, children: Seq<FleetChildRun>) -> bool {
    (stage.state is Failed || stage.state is Blocked) && exists|t: int|
        0 <= t < stage.target_ids@.len() && !target_settled(children, stage.id, #[trigger] stage.target_ids@[t])
}

impl FleetCoordinatorV2 {
    /// Records the outcome of the first active child run as `agent_run_id`,
    /// refreshes its stage, applies the failure policy, and moves to
    /// verification when every stage has succeeded.
    pub fn record_outcome(
        run: &mut FleetRunV2,
        agent_run_id: u128,
        outcome: FleetChildOutcomeV2,
        error_code: Option<String>,
        now_epoch_ms: u64,
    ) -> (r: Result<(), FleetCoordinatorError>)
        ensures
            !(old(run).recovery_state is Live && old(run).state is Executing) ==> r == Err::<(), FleetCoordinatorError>(
                FleetCoordinatorError::InvalidState,
            ) && *final(run) == *old(run),
            old(run).recovery_state is Live && old(run).state is Executing && !outcome_code_ok(outcome, error_code)
                ==> r == Err::<(), FleetCoordinatorError>(FleetCoordinatorError::InvalidChild) && *final(run) == *old(run),
            old(run).recovery_state is Live && old(run).state is Executing && outcome_code_ok(outcome, error_code)
                && !(exists|k: int| first_claimed_child(old(run).children@, agent_run_id, k))
                ==> r == Err::<(), FleetCoordinatorError>(FleetCoordinatorError::InvalidChild) && *final(run) == *old(run),
            old(run).recovery_state is Live && old(run).state is Executing && outcome_code_ok(outcome, error_code)
                && (exists|k: int| first_claimed_child(old(run).children@, agent_run_id, k))
                ==> r is Ok && exists|k: int| first_claimed_child(old(run).children@, agent_run_id, k)
                && outcome_applied(*old(run), *final(run), k, outcome, error_code, now_epoch_ms),
    {
        if run.recovery_state != FleetRecoveryStateV2::Live || run.state != FleetRunStateV2::Executing {
            return Err(FleetCoordinatorError::InvalidState);
        }
        let code_bad = match &error_code {
            Some(code) => !error_code_ok(code) || outcome == FleetChildOutcomeV2::Succeeded,
            None => false,
        };
        if code_bad {
            return Err(FleetCoordinatorError::InvalidChild);
        }
        let n = run.children.len();
        let mut found: Option<usize> = None;
        for i in 0..n
            invariant
                n == run.children@.len(),
                match found {
                    Some(k) => first_claimed_child(run.children@, agent_run_id, k as int),
                    None => forall|j: int| 0 <= j < i ==> !((#[trigger] run.children@[j]).agent_run_id == Some(agent_run_id) && child_active(run.children@[j].state)),
                },
        {
            if found.is_none() {
                let matches = match run.children[i].agent_run_id {
                    Some(id) => id == agent_run_id,
                    None => false,
                };
                if matches && is_active(run.children[i].state) {
                    found = Some(i);
                }
            }
        }
        let k = match found {
            Some(k) => k,
            None => {
                proof {
                    assert forall|k: int| !first_claimed_child(old(run).children@, agent_run_id, k) by {}
                }
                return Err(FleetCoordinatorError::InvalidChild);
            },
        };
        let ghost before = *run;
        let ghost child = run.children@[k as int];
        run.children[k].state = match outcome {
            FleetChildOutcomeV2::Succeeded => FleetStageStateV2::Succeeded,
            FleetChildOutcomeV2::Failed => FleetStageStateV2::Failed,
            FleetChildOutcomeV2::Cancelled => FleetStageStateV2::Cancelled,
        };
        run.children[k].error_code = error_code;
        let ghost children1 = run.children@;
        proof {
            assert(children1 =~= before.children@.update(
                k as int,
                FleetChildRun { state: outcome_state(outcome), error_code: error_code, ..child },
            ));
        }
        let stage_id = run.children[k].stage_id;
        match find_first_stage(&run.stages, stage_id) {
            Some(s) => {
                let st = refreshed_state_exec(&run.stages[s], &run.children);
                run.stages[s].state = st;
                proof {
                    assert(exists|k: int| first_stage_at(before.stages@, stage_id, k));
                    let kk = choose|kk: int| first_stage_at(before.stages@, stage_id, kk);
                    assert(kk == s);
                    assert(run.stages@ =~= stages_refreshed(before.stages@, children1, stage_id));
                }
            },
            None => {
                proof {
                    assert(run.stages@ =~= stages_refreshed(before.stages@, children1, stage_id));
                }
            },
        }
        if stages_any_failed(&run.stages) {
            let next = match run.failure_policy {
                FleetFailurePolicyV2::Stop => Some(FleetRunStateV2::Failed),
                FleetFailurePolicyV2::PauseForReview => Some(FleetRunStateV2::PausedForReview),
                FleetFailurePolicyV2::Rollback => Some(FleetRunStateV2::RollingBack),
                FleetFailurePolicyV2::Continue => None,
            };
            match next {
                Some(next) => {
                    match run.transition_to(next, now_epoch_ms) {
                        Ok(()) => {},
                        Err(_) => {
                            return Err(FleetCoordinatorError::InvalidState);
                        },
                    }
                },
                None => {},
            }
        }
        if run.state == FleetRunStateV2::PausedForReview {
            move_active_children(&mut run.children, FleetStageStateV2::Blocked);
        }
        if run.state == FleetRunStateV2::Executing && stages_all_succeeded(&run.stages) {
            match run.transition_to(FleetRunStateV2::Verifying, now_epoch_ms) {
                Ok(()) => {},
                Err(_) => {
                    return Err(FleetCoordinatorError::InvalidState);
                },
            }
        }
        run.updated_at_epoch_ms = now_epoch_ms;
        proof {
            assert(outcome_applied(before, *run, k as int, outcome, error_code, now_epoch_ms));
        }
        Ok(())
    }

    /// Continues the same approved graph after explicit review. Failed or
    /// cancelled targets stay settled and are never retried implicitly;
    /// stages with unsettled targets reopen, and the agent run ids of the
    /// blocked children are returned so they can be stopped before fresh
    /// attempts.
    pub fn continue_after_review(
        run: &mut FleetRunV2,
        approval: &FleetApprovalV2,
        current_policy_version: u64,
        current_policy_hash: &str,
        now_epoch_ms: u64,
    ) -> (r: Result<Vec<u128>, FleetCoordinatorError>)
        ensures
            !authority_holds(*old(run), *approval, current_policy_version, current_policy_hash@, old(run).state is PausedForReview)
                ==> r == Err::<Vec<u128>, FleetCoordinatorError>(FleetCoordinatorError::InvalidAuthority)
                && *final(run) == *old(run),
            authority_holds(*old(run), *approval, current_policy_version, current_policy_hash@, old(run).state is PausedForReview)
                ==> (r matches Ok(ids) && ids@ == agent_ids_where(old(run).children@, false)
                && same_graph(*final(run), *old(run))
                && final(run).children == old(run).children
                && final(run).state is Executing
                && final(run).updated_at_epoch_ms == now_epoch_ms
                && final(run).stages@.len() == old(run).stages@.len()
                && forall|i: int| 0 <= i < old(run).stages@.len() ==> #[trigger] final(run).stages@[i] == if stage_reopens(old(run).stages@[i], old(run).children@) {
                    FleetStage { state: FleetStageStateV2::Running, ..old(run).stages@[i] }
                } else {
                    old(run).stages@[i]
                }),
    {
        let allowed = run.state == FleetRunStateV2::PausedForReview;
        if !check_authority(run, approval, current_policy_version, current_policy_hash, allowed) {
            return Err(FleetCoordinatorError::InvalidAuthority);
        }
        let paused = collect_agent_ids(&run.children, false);
        let n = run.stages.len();
        let ghost before = *run;
        for i in 0..n
            invariant
                n == run.stages@.len(),
                n == before.stages@.len(),
                run.children == before.children,
                run.state == before.state,
                run.recovery_state == before.recovery_state,
                same_graph(*run, before),
                run.updated_at_epoch_ms == before.updated_at_epoch_ms,
                forall|j: int| 0 <= j < i ==> #[trigger] run.stages@[j] == if stage_reopens(before.stages@[j], before.children@) {
                    FleetStage { state: FleetStageStateV2::Running, ..before.stages@[j] }
                } else {
                    before.stages@[j]
                },
                forall|j: int| i <= j < n ==> #[trigger] run.stages@[j] == before.stages@[j],
        {
            let st = run.stages[i].state;
            if st == FleetStageStateV2::Failed || st == FleetStageStateV2::Blocked {
                let m = run.stages[i].target_ids.len();
                let mut open = false;
                for t in 0..m
                    invariant
                        m == run.stages@[i as int].target_ids@.len(),
                        i < n,
                        n == run.stages@.len(),
                        open == exists|u: int| 0 <= u < t && !target_settled(run.children@, run.stages@[i as int].id, #[trigger] run.stages@[i as int].target_ids@[u]),
                {
                    if !has_settled(&run.children, run.stages[i].id, run.stages[i].target_ids[t]) {
                        open = true;
                    }
                }
                if open {
                    run.stages[i].state = FleetStageStateV2::Running;
                }
            }
        }
        match run.transition_to(FleetRunStateV2::Executing, now_epoch_ms) {
            Ok(()) => {},
            Err(_) => {
                return Err(FleetCoordinatorError::InvalidState);
            },
        }
        Ok(paused)
    }
}

/// Some stage with identifier `id` has failed or is blocked.
pub open spec fn failed_or_blocked_id(stages: Seq<FleetStage>, id: u128) -> bool {
    exists|j: int|
        0 <= j < stages.len() && (#[trigger] stages[j]).id == id && (stages[j].state is Failed
            || stages[j].state is Blocked)
}

/// Some stage with identifier `id` has succeeded.
pub open spec fn succeeded_id(stages: Seq<FleetStage>, id: u128) -> bool {
    exists|j: int| 0 <= j < stages.len() && (#[trigger] stages[j]).id == id && stages[j].state is Succeeded
}

/// A pending stage that depends on a failed or blocked stage.
pub open spec fn blocked_by_failure(stages: Seq<FleetStage>, s: int) -> bool {
    stages[s].state is Pending && exists|d: int|
        0 <= d < stages[s].depends_on@.len() && failed_or_blocked_id(stages, #[trigger] stages[s].depends_on@[d])
}

/// The stages with every pending stage behind a failure marked `Blocked`
/// (the failure set is taken before any stage changes).
pub open spec fn block_refreshed(stages: Seq<FleetStage>) -> Seq<FleetStage> {
    Seq::new(
        stages.len(),
        |s: int|
            if blocked_by_failure(stages, s) {
                FleetStage { state: FleetStageStateV2::Blocked, ..stages[s] }
            } else {
                stages[s]
            },
    )
}

/// Stage `s` may be scheduled: pending or running, and every dependency is
/// the identifier of a succeeded stage.
pub open spec fn stage_ready(stages: Seq<FleetStage>, s: int) -> bool {
    &&& 0 <= s < stages.len()
    &&& (stages[s].state is Pending || stages[s].state is Running)
    &&& forall|d: int|
        0 <= d < stages[s].depends_on@.len() ==> succeeded_id(stages, #[trigger] stages[s].depends_on@[d])
}

/// Target `tid` of stage `sid` already has an active or settled child.
pub open spec fn pair_busy(children: Seq<FleetChildRun>, sid: u128, tid: u128) -> bool {
    exists|i: int|
        0 <= i < children.len() && (#[trigger] children[i]).stage_id == sid && children[i].target_id
            == tid && (child_active(children[i].state) || child_settled(children[i].state))
}

/// Number of active children.
pub open spec fn active_count(children: Seq<FleetChildRun>) -> nat
    decreases children.len(),
{
    if children.len() == 0 {
        0
    } else {
        active_count(children.drop_last()) + if child_active(children.last().state) {
            1nat
        } else {
            0nat
        }
    }
}

/// Highest attempt number among the children for target `tid` of stage
/// `sid` (zero when there is none).
pub open spec fn max_attempt(children: Seq<FleetChildRun>, sid: u128, tid: u128) -> nat
    decreases children.len(),
{
    if children.len() == 0 {
        0
    } else {
        let rest = max_attempt(children.drop_last(), sid, tid);
        let c = children.last();
        if c.stage_id == sid && c.target_id == tid && c.attempt > rest {
            c.attempt as nat
        } else {
            rest
        }
    }
}

/// The next attempt number, saturating at `u32::MAX`.
pub open spec fn next_attempt(children: Seq<FleetChildRun>, sid: u128, tid: u128) -> u32 {
    if max_attempt(children, sid, tid) < u32::MAX {
        (max_attempt(children, sid, tid) + 1) as u32
    } else {
        u32::MAX
    }
}

/// Position `j` holds the last binding of profile `pid`.
pub open spec fn last_binding_at(targets: Seq<FleetTargetBinding>, pid: u128, j: int) -> bool {
    0 <= j < targets.len() && targets[j].profile_id == pid && forall|k: int|
        j < k < targets.len() ==> (#[trigger] targets[k]).profile_id != pid
}

/// Lease `k` and its child are well formed: the child is a fresh running
/// attempt for a free target of a ready stage, bound to the exact target
/// binding, and the lease carries the sealed graph and current policy.
pub open spec fn lease_ok(
    before: FleetRunV2,
    staged: Seq<FleetStage>,
    children: Seq<FleetChildRun>,
    leases: Seq<FleetChildLeaseV2>,
    k: int,
    approval_id: u128,
    policy_version: u64,
    policy_hash: Seq<char>,
) -> bool {
    let n0 = before.children@.len();
    let c = children[n0 + k];
    let l = leases[k];
    let prior = children.take(n0 + k);
    &&& c.stage_id == l.stage_id
    &&& c.target_id == l.target.profile_id
    &&& c.agent_run_id == Some(l.agent_run_id)
    &&& c.attempt == l.attempt
    &&& c.state is Running
    &&& c.error_code is None
    &&& l.fleet_run_id == before.id
    &&& l.fleet_version == before.version
    &&& l.graph_digest@ == before.graph_digest@
    &&& l.approval_id == approval_id
    &&& l.policy_version == policy_version
    &&& l.policy_hash@ == policy_hash
    &&& exists|j: int| last_binding_at(before.targets@, c.target_id, j) && l.target@ == before.targets@[j]@
    &&& !pair_busy(prior, c.stage_id, c.target_id)
    &&& l.attempt == next_attempt(prior, c.stage_id, c.target_id)
    &&& exists|s: int| #[trigger] lease_stage(before, staged, prior, c, s)
}

/// Child `c` was claimed from stage `s`: the stage was ready, holds the
/// target, a sequential stage had no active child, and a canary stage whose
/// first target had not yet succeeded claims only that first target.
pub open spec fn lease_stage(
    before: FleetRunV2,
    staged: Seq<FleetStage>,
    prior: Seq<FleetChildRun>,
    c: FleetChildRun,
    s: int,
) -> bool {
    &&& stage_ready(staged, s)
    &&& staged[s].id == c.stage_id
    &&& staged[s].target_ids@.contains(c.target_id)
    &&& (staged[s].execution_strategy is Sequential ==> !stage_child_is(before.children@, c.stage_id, 1))
    &&& (staged[s].execution_strategy is Canary && !target_succeeded(prior, c.stage_id, staged[s].target_ids@[0])
        ==> c.target_id == staged[s].target_ids@[0])
}

/// The bookkeeping of a claim in progress: the existing children are kept,
/// one new child per lease, every lease well formed, the graph untouched.
pub open spec fn claim_inv(
    before: FleetRunV2,
    staged: Seq<FleetStage>,
    run: FleetRunV2,
    leases: Seq<FleetChildLeaseV2>,
    approval_id: u128,
    policy_version: u64,
    policy_hash: Seq<char>,
) -> bool {
    &&& same_graph(run, before)
    &&& run.state is Executing
    &&& run.children@.len() == before.children@.len() + leases.len()
    &&& run.children@.take(before.children@.len() as int) == before.children@
    &&& forall|k: int| 0 <= k < leases.len() ==> #[trigger] lease_ok(before, staged, run.children@, leases, k, approval_id, policy_version, policy_hash)
    &&& run.stages@.len() == staged.len()
    &&& forall|s: int| 0 <= s < staged.len() ==> #[trigger] stage_after_claim(staged, run.stages@, s)
}

/// Stage `s` after a claim: its fields are kept, and its state is the
/// refreshed one or `Running` when it is ready.
pub open spec fn stage_after_claim(staged: Seq<FleetStage>, after: Seq<FleetStage>, s: int) -> bool {
    after[s] == staged[s] || (stage_ready(staged, s) && after[s] == FleetStage { state: FleetStageStateV2::Running, ..staged[s] })
}

/// Every canary stage has a first target.
pub open spec fn canary_stages_have_targets(stages: Seq<FleetStage>) -> bool {
    forall|s: int| 0 <= s < stages.len() && (#[trigger] stages[s]).execution_strategy is Canary ==> stages[s].target_ids@.len() > 0
}

fn refresh_blocked_stages(stages: &mut Vec<FleetStage>)
    ensures
        final(stages)@ == block_refreshed(old(stages)@),
{
    let n = stages.len();
    let mut blocked: Vec<bool> = Vec::new();
    for s in 0..n
        invariant
            n == stages@.len(),
            stages@ == old(stages)@,
            blocked@.len() == s,
            forall|j: int| 0 <= j < s ==> blocked@[j] == blocked_by_failure(stages@, j),
    {
        let mut hit = false;
        if stages[s].state == FleetStageStateV2::Pending {
            let m = stages[s].depends_on.len();
            for d in 0..m
                invariant
                    n == stages@.len(),
                    s < n,
                    m == stages@[s as int].depends_on@.len(),
                    hit == exists|e: int| 0 <= e < d && failed_or_blocked_id(stages@, #[trigger] stages@[s as int].depends_on@[e]),
            {
                let dep = stages[s].depends_on[d];
                let mut found = false;
                for j in 0..n
                    invariant
                        n == stages@.len(),
                        found == exists|x: int| 0 <= x < j && (#[trigger] stages@[x]).id == dep && (stages@[x].state is Failed || stages@[x].state is Blocked),
                {
                    if stages[j].id == dep && (stages[j].state == FleetStageStateV2::Failed || stages[j].state == FleetStageStateV2::Blocked) {
                        found = true;
                    }
                }
                if found {
                    hit = true;
                }
            }
        }
        blocked.push(hit);
    }
    for s in 0..n
        invariant
            n == stages@.len(),
            n == old(stages)@.len(),
            blocked@.len() == n,
            forall|j: int| 0 <= j < n ==> blocked@[j] == blocked_by_failure(old(stages)@, j),
            forall|j: int| 0 <= j < s ==> #[trigger] stages@[j] == block_refreshed(old(stages)@)[j],
            forall|j: int| s <= j < n ==> #[trigger] stages@[j] == old(stages)@[j],
    {
        if blocked[s] {
            stages[s].state = FleetStageStateV2::Blocked;
        }
    }
    proof {
        assert(stages@ =~= block_refreshed(old(stages)@));
    }
}

fn count_active(children: &Vec<FleetChildRun>) -> (r: usize)
    ensures
        r as nat == active_count(children@),
{
    let n = children.len();
    let mut c: usize = 0;
    for i in 0..n
        invariant
            n == children@.len(),
            c as nat == active_count(children@.take(i as int)),
            c <= i,
    {
        proof {
            assert(children@.take(i + 1).drop_last() =~= children@.take(i as int));
        }
        if is_active(children[i].state) {
            c = c + 1;
        }
    }
    proof {
        assert(children@.take(n as int) =~= children@);
    }
    c
}

fn stage_active_count(children: &Vec<FleetChildRun>, sid: u128) -> (r: usize)
    ensures
        r as nat == stage_active_n(children@, sid),
        (r == 0) == !stage_child_is(children@, sid, 1),
{
    let n = children.len();
    let mut c: usize = 0;
    for i in 0..n
        invariant
            n == children@.len(),
            c <= i,
            c as nat == stage_active_n(children@.take(i as int), sid),
    {
        proof {
            assert(children@.take(i + 1).drop_last() =~= children@.take(i as int));
        }
        if children[i].stage_id == sid && is_active(children[i].state) {
            c = c + 1;
        }
    }
    proof {
        assert(children@.take(n as int) =~= children@);
        lemma_stage_active_n_zero(children@, sid);
    }
    c
}

fn pair_busy_exec(children: &Vec<FleetChildRun>, sid: u128, tid: u128) -> (r: bool)
    ensures
        r == pair_busy(children@, sid, tid),
{
    let n = children.len();
    for i in 0..n
        invariant
            n == children@.len(),
            forall|j: int| 0 <= j < i ==> !((#[trigger] children@[j]).stage_id == sid && children@[j].target_id == tid && (child_active(children@[j].state) || child_settled(children@[j].state))),
    {
        let c = &children[i];
        if c.stage_id == sid && c.target_id == tid && (is_active(c.state) || is_settled(c.state)) {
            return true;
        }
    }
    false
}

fn has_succeeded(children: &Vec<FleetChildRun>, sid: u128, tid: u128) -> (r: bool)
    ensures
        r == target_succeeded(children@, sid, tid),
{
    let n = children.len();
    for i in 0..n
        invariant
            n == children@.len(),
            forall|j: int| 0 <= j < i ==> !((#[trigger] children@[j]).stage_id == sid && children@[j].target_id == tid && children@[j].state is Succeeded),
    {
        let c = &children[i];
        if c.stage_id == sid && c.target_id == tid && c.state == FleetStageStateV2::Succeeded {
            return true;
        }
    }
    false
}

fn next_attempt_exec(children: &Vec<FleetChildRun>, sid: u128, tid: u128) -> (r: u32)
    ensures
        r == next_attempt(children@, sid, tid),
{
    let n = children.len();
    let mut best: u32 = 0;
    for i in 0..n
        invariant
            n == children@.len(),
            best as nat == max_attempt(children@.take(i as int), sid, tid),
    {
        proof {
            assert(children@.take(i + 1).drop_last() =~= children@.take(i as int));
        }
        let c = &children[i];
        if c.stage_id == sid && c.target_id == tid && c.attempt > best {
            best = c.attempt;
        }
    }
    proof {
        assert(children@.take(n as int) =~= children@);
    }
    if best < u32::MAX {
        best + 1
    } else {
        u32::MAX
    }
}

fn find_binding(targets: &Vec<FleetTargetBinding>, pid: u128) -> (r: Option<usize>)
    ensures
        match r {
            Some(j) => last_binding_at(targets@, pid, j as int),
            None => forall|j: int| 0 <= j < targets@.len() ==> (#[trigger] targets@[j]).profile_id != pid,
        },
{
    let n = targets.len();
    let mut i = n;
    while i > 0
        invariant
            i <= n,
            n == targets@.len(),
            forall|k: int| i <= k < n ==> (#[trigger] targets@[k]).profile_id != pid,
        decreases i,
    {
        i = i - 1;
        if targets[i].profile_id == pid {
            return Some(i);
        }
    }
    None
}

fn all_deps_succeeded(stages: &Vec<FleetStage>, s: usize) -> (r: bool)
    requires
        s < stages@.len(),
    ensures
        r == forall|d: int|
            0 <= d < stages@[s as int].depends_on@.len() ==> succeeded_id(stages@, #[trigger] stages@[s as int].depends_on@[d]),
{
    let m = stages[s].depends_on.len();
    let n = stages.len();
    for d in 0..m
        invariant
            s < n,
            n == stages@.len(),
            m == stages@[s as int].depends_on@.len(),
            forall|e: int| 0 <= e < d ==> succeeded_id(stages@, #[trigger] stages@[s as int].depends_on@[e]),
    {
        let dep = stages[s].depends_on[d];
        let mut found = false;
        for j in 0..n
            invariant
                n == stages@.len(),
                found == exists|x: int| 0 <= x < j && (#[trigger] stages@[x]).id == dep && stages@[x].state is Succeeded,
        {
            if stages[j].id == dep && stages[j].state == FleetStageStateV2::Succeeded {
                found = true;
            }
        }
        if !found {
            return false;
        }
    }
    true
}

proof fn lemma_lease_ok_push(
    before: FleetRunV2,
    staged: Seq<FleetStage>,
    children: Seq<FleetChildRun>,
    leases: Seq<FleetChildLeaseV2>,
    c: FleetChildRun,
    l: FleetChildLeaseV2,
    k: int,
    approval_id: u128,
    policy_version: u64,
    policy_hash: Seq<char>,
)
    requires
        0 <= k < leases.len(),
        children.len() == before.children@.len() + leases.len(),
        lease_ok(before, staged, children, leases, k, approval_id, policy_version, policy_hash),
    ensures
        lease_ok(before, staged, children.push(c), leases.push(l), k, approval_id, policy_version, policy_hash),
{
    let n0 = before.children@.len();
    assert(children.push(c).take(n0 + k) =~= children.take(n0 + k));
    assert(children.push(c)[n0 + k] == children[n0 + k]);
    assert(leases.push(l)[k] == leases[k]);
    let s = choose|s: int| #[trigger] lease_stage(before, staged, children.take(n0 + k), children[n0 + k], s);
    assert(lease_stage(before, staged, children.push(c).take(n0 + k), children.push(c)[n0 + k], s));
}

/// Tries to claim target `tid` of stage `si`: nothing changes when the pair
/// already has an active or settled child; otherwise one fresh running child
/// and its lease are added and the stage runs.
fn try_claim(
    run: &mut FleetRunV2,
    leases: &mut Vec<FleetChildLeaseV2>,
    approval_id: u128,
    policy_version: u64,
    policy_hash: &str,
    si: usize,
    tid: u128,
    Ghost(before): Ghost<FleetRunV2>,
    Ghost(staged): Ghost<Seq<FleetStage>>,
) -> (r: Result<bool, FleetCoordinatorError>)
    requires
        claim_inv(before, staged, *old(run), old(leases)@, approval_id, policy_version, policy_hash@),
        stage_ready(staged, si as int),
        staged[si as int].target_ids@.contains(tid),
        staged[si as int].execution_strategy is Sequential ==> !stage_child_is(before.children@, staged[si as int].id, 1),
        staged[si as int].execution_strategy is Canary && !target_succeeded(old(run).children@, staged[si as int].id, staged[si as int].target_ids@[0])
            ==> tid == staged[si as int].target_ids@[0],
    ensures
        r is Ok ==> claim_inv(before, staged, *final(run), final(leases)@, approval_id, policy_version, policy_hash@),
        r matches Ok(true) ==> final(leases)@.len() == old(leases)@.len() + 1
            && claim_pairs(final(leases)@) == claim_pairs(old(leases)@).push((old(run).stages@[si as int].id, tid)),
        r matches Ok(false) <==> r is Ok && pair_busy(old(run).children@, old(run).stages@[si as int].id, tid),
        r is Err ==> !pair_busy(old(run).children@, old(run).stages@[si as int].id, tid),
        r matches Ok(true) ==> final(run).stages@[si as int] == (FleetStage {
            state: FleetStageStateV2::Running,
            ..old(run).stages@[si as int]
        }),
        r matches Ok(false) ==> *final(run) == *old(run) && final(leases)@ == old(leases)@,
        final(run).children@.len() >= old(run).children@.len(),
        final(run).children@.take(old(run).children@.len() as int) == old(run).children@,
        r is Err ==> r == Err::<bool, FleetCoordinatorError>(FleetCoordinatorError::InvalidChild)
            && forall|j: int| 0 <= j < before.targets@.len() ==> (#[trigger] before.targets@[j]).profile_id != tid,
        forall|s: int| 0 <= s < final(run).stages@.len() && s != si ==> final(run).stages@[s] == old(run).stages@[s],
        final(run).stages@.len() == old(run).stages@.len(),
{
    proof {
        assert(stage_after_claim(staged, run.stages@, si as int));
    }
    let sid = run.stages[si].id;
    if pair_busy_exec(&run.children, sid, tid) {
        return Ok(false);
    }
    let j = match find_binding(&run.targets, tid) {
        Some(j) => j,
        None => {
            return Err(FleetCoordinatorError::InvalidChild);
        },
    };
    let attempt = next_attempt_exec(&run.children, sid, tid);
    let agent_run_id = new_id();
    let target = clone_binding(&run.targets[j]);
    let ghost old_children = run.children@;
    let ghost old_leases = leases@;
    let child = FleetChildRun {
        stage_id: sid,
        target_id: tid,
        agent_run_id: Some(agent_run_id),
        attempt,
        state: FleetStageStateV2::Running,
        error_code: None,
    };
    let lease = FleetChildLeaseV2 {
        fleet_run_id: run.id,
        fleet_version: run.version,
        graph_digest: run.graph_digest.clone(),
        approval_id,
        stage_id: sid,
        agent_run_id,
        target,
        attempt,
        policy_version,
        policy_hash: policy_hash.to_owned(),
    };
    let ghost gc = child;
    let ghost gl = lease;
    run.children.push(child);
    leases.push(lease);
    let ghost old_stages = run.stages@;
    run.stages[si].state = FleetStageStateV2::Running;
    proof {
        let n0 = before.children@.len();
        let k = old_leases.len() as int;
        assert(run.children@ == old_children.push(gc));
        assert(leases@ == old_leases.push(gl));
        assert forall|kk: int| 0 <= kk < leases@.len() implies #[trigger] lease_ok(before, staged, run.children@, leases@, kk, approval_id, policy_version, policy_hash@) by {
            if kk < k {
                lemma_lease_ok_push(before, staged, old_children, old_leases, gc, gl, kk, approval_id, policy_version, policy_hash@);
            } else {
                assert(run.children@.take(n0 + k) =~= old_children);
                assert(lease_stage(before, staged, old_children, gc, si as int));
                assert(last_binding_at(before.targets@, tid, j as int));
            }
        }
        assert(run.children@.take(n0 as int) =~= old_children.take(n0 as int));
        assert(run.children@.take(old_children.len() as int) =~= old_children);
        assert forall|s: int| 0 <= s < staged.len() implies #[trigger] stage_after_claim(staged, run.stages@, s) by {
            if s != si {
                assert(stage_after_claim(staged, old_stages, s));
            }
        }
    }
    Ok(true)
}

/// Number of active children of stage `sid`.
pub open spec fn stage_active_n(children: Seq<FleetChildRun>, sid: u128) -> nat
    decreases children.len(),
{
    if children.len() == 0 {
        0
    } else {
        stage_active_n(children.drop_last(), sid) + if children.last().stage_id == sid && child_active(
            children.last().state,
        ) {
            1nat
        } else {
            0nat
        }
    }
}

proof fn lemma_stage_active_n_zero(children: Seq<FleetChildRun>, sid: u128)
    ensures
        (stage_active_n(children, sid) == 0) == !stage_child_is(children, sid, 1),
    decreases children.len(),
{
    if children.len() > 0 {
        let prev = children.drop_last();
        lemma_stage_active_n_zero(prev, sid);
        if stage_child_is(prev, sid, 1) {
            let i = choose|i: int| 0 <= i < prev.len() && (#[trigger] prev[i]).stage_id == sid && child_active(prev[i].state);
            assert(children[i] == prev[i]);
        }
        if stage_child_is(children, sid, 1) {
            let i = choose|i: int| 0 <= i < children.len() && (#[trigger] children[i]).stage_id == sid && child_active(children[i].state);
            if i < children.len() - 1 {
                assert(prev[i] == children[i]);
            }
        }
    }
}

/// The (stage, target) pair of each lease.
pub open spec fn claim_pairs(leases: Seq<FleetChildLeaseV2>) -> Seq<(u128, u128)> {
    leases.map_values(|l: FleetChildLeaseV2| (l.stage_id, l.target.profile_id))
}

/// How many claims are for stage `sid`.
pub open spec fn stage_claims_n(claims: Seq<(u128, u128)>, sid: u128) -> nat
    decreases claims.len(),
{
    if claims.len() == 0 {
        0
    } else {
        stage_claims_n(claims.drop_last(), sid) + if claims.last().0 == sid { 1nat } else { 0nat }
    }
}

/// During a scan, target `tid` of stage `sid` is taken: it had an active or
/// settled child before the scan, or the scan already claimed it.
pub open spec fn busy_now(children0: Seq<FleetChildRun>, claims: Seq<(u128, u128)>, sid: u128, tid: u128) -> bool {
    pair_busy(children0, sid, tid) || claims.contains((sid, tid))
}

/// How many targets ready stage `s` may still claim: the remaining capacity,
/// capped by the stage's concurrency minus its active children, and none
/// for a sequential stage that has an active child.
pub open spec fn stage_room(
    staged: Seq<FleetStage>,
    s: int,
    children0: Seq<FleetChildRun>,
    claims: Seq<(u128, u128)>,
    capacity: nat,
) -> nat {
    let sid = staged[s].id;
    let active = stage_active_n(children0, sid) + stage_claims_n(claims, sid);
    let conc = staged[s].concurrency_limit as nat;
    let strategy_room: nat = if conc > active { (conc - active) as nat } else { 0 };
    if staged[s].execution_strategy is Sequential && active > 0 {
        0
    } else if capacity < strategy_room {
        capacity
    } else {
        strategy_room
    }
}

/// The claims a scan of the targets of stage `s`, from position `ti` on,
/// makes with room for `room` more: each free target is claimed in order.
pub open spec fn scan_targets(
    staged: Seq<FleetStage>,
    s: int,
    children0: Seq<FleetChildRun>,
    claims: Seq<(u128, u128)>,
    room: nat,
    ti: int,
) -> Seq<(u128, u128)>
    decreases staged[s].target_ids@.len() - ti,
{
    if ti < 0 || ti >= staged[s].target_ids@.len() || room == 0 {
        Seq::empty()
    } else {
        let sid = staged[s].id;
        let t = staged[s].target_ids@[ti];
        if busy_now(children0, claims, sid, t) {
            scan_targets(staged, s, children0, claims, room, ti + 1)
        } else {
            seq![(sid, t)] + scan_targets(staged, s, children0, claims.push((sid, t)), (room - 1) as nat, ti + 1)
        }
    }
}

/// The claims of stage `s` in a scan: none unless the stage is ready and
/// capacity remains; a canary stage whose first target has not succeeded
/// claims only that target; every other stage claims its free targets in
/// order within its room.
pub open spec fn scan_stage(
    staged: Seq<FleetStage>,
    s: int,
    children0: Seq<FleetChildRun>,
    claims: Seq<(u128, u128)>,
    capacity: nat,
) -> Seq<(u128, u128)> {
    if capacity == 0 || !stage_ready(staged, s) {
        Seq::empty()
    } else {
        let sid = staged[s].id;
        let room = stage_room(staged, s, children0, claims, capacity);
        let first = staged[s].target_ids@[0];
        if staged[s].execution_strategy is Canary && !target_succeeded(children0, sid, first) {
            if room > 0 && !busy_now(children0, claims, sid, first) {
                seq![(sid, first)]
            } else {
                Seq::empty()
            }
        } else {
            scan_targets(staged, s, children0, claims, room, 0)
        }
    }
}

/// The claims a scan of the first `s` stages makes, in order, within
/// `capacity` claims in all.
pub open spec fn claim_scan(staged: Seq<FleetStage>, children0: Seq<FleetChildRun>, capacity: nat, s: int) -> Seq<(u128, u128)>
    decreases s,
{
    if s <= 0 {
        Seq::empty()
    } else {
        let prev = claim_scan(staged, children0, capacity, s - 1);
        prev + scan_stage(
            staged,
            s - 1,
            children0,
            prev,
            if capacity >= prev.len() { (capacity - prev.len()) as nat } else { 0 },
        )
    }
}

/// Stage `s` after the scan: running when the scan claimed one of its
/// targets, as refreshed otherwise.
pub open spec fn stage_scanned(staged: Seq<FleetStage>, children0: Seq<FleetChildRun>, capacity: nat, s: int) -> FleetStage {
    let prev = claim_scan(staged, children0, capacity, s);
    if claim_scan(staged, children0, capacity, s + 1).len() > prev.len() {
        FleetStage { state: FleetStageStateV2::Running, ..staged[s] }
    } else {
        staged[s]
    }
}

proof fn lemma_scan_targets_len(
    staged: Seq<FleetStage>,
    s: int,
    children0: Seq<FleetChildRun>,
    claims: Seq<(u128, u128)>,
    room: nat,
    ti: int,
)
    ensures
        scan_targets(staged, s, children0, claims, room, ti).len() <= room,
    decreases staged[s].target_ids@.len() - ti,
{
    if !(ti < 0 || ti >= staged[s].target_ids@.len() || room == 0) {
        let sid = staged[s].id;
        let t = staged[s].target_ids@[ti];
        if busy_now(children0, claims, sid, t) {
            lemma_scan_targets_len(staged, s, children0, claims, room, ti + 1);
        } else {
            lemma_scan_targets_len(staged, s, children0, claims.push((sid, t)), (room - 1) as nat, ti + 1);
        }
    }
}

proof fn lemma_claim_scan_len(staged: Seq<FleetStage>, children0: Seq<FleetChildRun>, capacity: nat, s: int)
    ensures
        claim_scan(staged, children0, capacity, s).len() <= capacity,
    decreases s,
{
    if s > 0 {
        lemma_claim_scan_len(staged, children0, capacity, s - 1);
        let prev = claim_scan(staged, children0, capacity, s - 1);
        let cap = (capacity - prev.len()) as nat;
        if cap > 0 && stage_ready(staged, s - 1) {
            let room = stage_room(staged, s - 1, children0, prev, cap);
            lemma_scan_targets_len(staged, s - 1, children0, prev, room, 0);
        }
    }
}

proof fn lemma_claim_scan_prefix(staged: Seq<FleetStage>, children0: Seq<FleetChildRun>, capacity: nat, a: int, b: int)
    requires
        0 <= a <= b,
    ensures
        claim_scan(staged, children0, capacity, a).len() <= claim_scan(staged, children0, capacity, b).len(),
        claim_scan(staged, children0, capacity, b).take(claim_scan(staged, children0, capacity, a).len() as int)
            == claim_scan(staged, children0, capacity, a),
    decreases b - a,
{
    if b > a {
        lemma_claim_scan_prefix(staged, children0, capacity, a, b - 1);
        let pa = claim_scan(staged, children0, capacity, a);
        let pb1 = claim_scan(staged, children0, capacity, b - 1);
        let pb = claim_scan(staged, children0, capacity, b);
        assert(pb.take(pb1.len() as int) =~= pb1);
        assert(pb.take(pa.len() as int) =~= pb1.take(pa.len() as int));
    } else {
        let pa = claim_scan(staged, children0, capacity, a);
        assert(pa.take(pa.len() as int) =~= pa);
    }
}

/// The new children line up with the claims: same stage and target, and
/// running.
pub open spec fn children_match(new: Seq<FleetChildRun>, claims: Seq<(u128, u128)>) -> bool {
    &&& new.len() == claims.len()
    &&& forall|k: int| 0 <= k < new.len() ==> (#[trigger] new[k]).stage_id == claims[k].0 && new[k].target_id == claims[k].1
        && new[k].state is Running
}

proof fn lemma_children_match_facts(
    children0: Seq<FleetChildRun>,
    new: Seq<FleetChildRun>,
    claims: Seq<(u128, u128)>,
    sid: u128,
    tid: u128,
)
    requires
        children_match(new, claims),
    ensures
        pair_busy(children0 + new, sid, tid) == busy_now(children0, claims, sid, tid),
        stage_active_n(children0 + new, sid) == stage_active_n(children0, sid) + stage_claims_n(claims, sid),
        target_succeeded(children0 + new, sid, tid) == target_succeeded(children0, sid, tid),
        stage_child_is(children0 + new, sid, 1) == (stage_child_is(children0, sid, 1) || stage_claims_n(claims, sid) > 0),
    decreases new.len(),
{
    let all = children0 + new;
    if new.len() == 0 {
        assert(all =~= children0);
        lemma_stage_active_n_zero(children0, sid);
    } else {
        let pn = new.drop_last();
        let pc = claims.drop_last();
        assert(children_match(pn, pc)) by {
            assert forall|k: int| 0 <= k < pn.len() implies (#[trigger] pn[k]).stage_id == pc[k].0 && pn[k].target_id
                == pc[k].1 && pn[k].state is Running by {
                assert(pn[k] == new[k]);
                assert(pc[k] == claims[k]);
            }
        }
        lemma_children_match_facts(children0, pn, pc, sid, tid);
        let prev = children0 + pn;
        assert(all.drop_last() =~= prev);
        let c = new.last();
        assert(all.last() == c);
        assert(c.stage_id == claims.last().0 && c.target_id == claims.last().1 && c.state is Running) by {
            assert(new[new.len() - 1] == c);
        }
        // busy
        if pair_busy(all, sid, tid) {
            let i = choose|i: int| 0 <= i < all.len() && (#[trigger] all[i]).stage_id == sid && all[i].target_id == tid
                && (child_active(all[i].state) || child_settled(all[i].state));
            if i < all.len() - 1 {
                assert(prev[i] == all[i]);
                assert(pair_busy(prev, sid, tid));
                if pc.contains((sid, tid)) {
                    let q = choose|q: int| 0 <= q < pc.len() && pc[q] == (sid, tid);
                    assert(claims[q] == pc[q]);
                }
            } else {
                assert(claims[claims.len() - 1] == (sid, tid));
            }
        }
        if busy_now(children0, claims, sid, tid) {
            if pair_busy(children0, sid, tid) {
                let i = choose|i: int| 0 <= i < children0.len() && (#[trigger] children0[i]).stage_id == sid && children0[i].target_id
                    == tid && (child_active(children0[i].state) || child_settled(children0[i].state));
                assert(all[i] == children0[i]);
            } else {
                let q = choose|q: int| 0 <= q < claims.len() && claims[q] == (sid, tid);
                if q < claims.len() - 1 {
                    assert(pc[q] == claims[q]);
                    assert(pc.contains((sid, tid)));
                    assert(pair_busy(prev, sid, tid));
                    let i = choose|i: int| 0 <= i < prev.len() && (#[trigger] prev[i]).stage_id == sid && prev[i].target_id == tid
                        && (child_active(prev[i].state) || child_settled(prev[i].state));
                    assert(all[i] == prev[i]);
                } else {
                    assert(all[all.len() - 1] == c);
                }
            }
        }
        // succeeded
        if target_succeeded(all, sid, tid) {
            let i = choose|i: int| 0 <= i < all.len() && (#[trigger] all[i]).stage_id == sid && all[i].target_id == tid
                && all[i].state is Succeeded;
            assert(i < all.len() - 1);
            assert(prev[i] == all[i]);
        }
        if target_succeeded(prev, sid, tid) {
            let i = choose|i: int| 0 <= i < prev.len() && (#[trigger] prev[i]).stage_id == sid && prev[i].target_id == tid
                && prev[i].state is Succeeded;
            assert(all[i] == prev[i]);
        }
        // counts
        assert(claims.drop_last() == pc);
        lemma_stage_active_n_zero(all, sid);
        lemma_stage_active_n_zero(children0, sid);
    }
}

/// The (stage, target) pairs a claim of `requested` capacity leases, in
/// order: the scan of the refreshed stages of `run`.
pub open spec fn claim_plan(run: FleetRunV2, requested: usize) -> Seq<(u128, u128)> {
    claim_scan(
        block_refreshed(run.stages@),
        run.children@,
        claim_capacity(requested, active_count(run.children@)),
        run.stages@.len() as int,
    )
}

/// No binding of the run has `t` as profile.
pub open spec fn unbound_target(run: FleetRunV2, t: u128) -> bool {
    forall|j: int| 0 <= j < run.targets@.len() ==> (#[trigger] run.targets@[j]).profile_id != t
}

proof fn lemma_claim_inv_match(
    before: FleetRunV2,
    staged: Seq<FleetStage>,
    run: FleetRunV2,
    leases: Seq<FleetChildLeaseV2>,
    approval_id: u128,
    policy_version: u64,
    policy_hash: Seq<char>,
)
    requires
        claim_inv(before, staged, run, leases, approval_id, policy_version, policy_hash),
    ensures
        run.children@ == before.children@ + run.children@.skip(before.children@.len() as int),
        children_match(run.children@.skip(before.children@.len() as int), claim_pairs(leases)),
{
    let n0 = before.children@.len() as int;
    let new = run.children@.skip(n0);
    assert(run.children@ =~= run.children@.take(n0) + new);
    assert forall|k: int| 0 <= k < new.len() implies (#[trigger] new[k]).stage_id == claim_pairs(leases)[k].0 && new[k].target_id
        == claim_pairs(leases)[k].1 && new[k].state is Running by {
        assert(lease_ok(before, staged, run.children@, leases, k, approval_id, policy_version, policy_hash));
        assert(new[k] == run.children@[n0 + k]);
    }
}

/// The number of leases a claim may issue: the requested capacity, capped
/// at the fleet-wide limit, minus the children already active.
pub open spec fn claim_capacity(requested: usize, active: nat) -> nat {
    let cap = if requested < MAX_FLEET_ACTIVE_CHILDREN { requested as nat } else { MAX_FLEET_ACTIVE_CHILDREN as nat };
    if cap > active { (cap - active) as nat } else { 0 }
}

proof fn lemma_prefix_no_active(children: Seq<FleetChildRun>, n0: int, sid: u128)
    requires
        0 <= n0 <= children.len(),
        !stage_child_is(children, sid, 1),
    ensures
        !stage_child_is(children.take(n0), sid, 1),
{
    if stage_child_is(children.take(n0), sid, 1) {
        let i = choose|i: int| 0 <= i < children.take(n0).len() && (#[trigger] children.take(n0)[i]).stage_id == sid && child_active(children.take(n0)[i].state);
        assert(children[i] == children.take(n0)[i]);
    }
}

proof fn lemma_succeeded_kept(old_children: Seq<FleetChildRun>, children: Seq<FleetChildRun>, sid: u128, tid: u128)
    requires
        old_children.len() <= children.len(),
        children.take(old_children.len() as int) == old_children,
        target_succeeded(old_children, sid, tid),
    ensures
        target_succeeded(children, sid, tid),
{
    let i = choose|i: int| 0 <= i < old_children.len() && (#[trigger] old_children[i]).stage_id == sid && old_children[i].target_id == tid && old_children[i].state is Succeeded;
    assert(children[i] == children.take(old_children.len() as int)[i]);
}

impl FleetCoordinatorV2 {
    /// Claims ready work of an approved or executing graph: validates the
    /// authority, starts execution, blocks pending stages behind failures,
    /// and scans the stages in order, leasing each free target of a ready
    /// stage in order within the capacity, the stage concurrency and the
    /// strategy (a sequential stage waits for its active child; a canary
    /// stage claims only its first target until that target has succeeded).
    /// A target that the scan would lease but that no binding holds refuses
    /// the claim.
    pub fn claim_ready(
        run: &mut FleetRunV2,
        approval: &FleetApprovalV2,
        current_policy_version: u64,
        current_policy_hash: &str,
        requested_capacity: usize,
        now_epoch_ms: u64,
    ) -> (r: Result<Vec<FleetChildLeaseV2>, FleetCoordinatorError>)
        requires
            canary_stages_have_targets(old(run).stages@),
        ensures
            !authority_holds(*old(run), *approval, current_policy_version, current_policy_hash@, old(run).state is Approved || old(run).state is Executing)
                ==> r == Err::<Vec<FleetChildLeaseV2>, FleetCoordinatorError>(FleetCoordinatorError::InvalidAuthority)
                && *final(run) == *old(run),
            authority_holds(*old(run), *approval, current_policy_version, current_policy_hash@, old(run).state is Approved || old(run).state is Executing)
                && requested_capacity == 0 ==> (r matches Ok(ls) && ls@.len() == 0) && *final(run) == *old(run),
            authority_holds(*old(run), *approval, current_policy_version, current_policy_hash@, old(run).state is Approved || old(run).state is Executing)
                && requested_capacity > 0 ==> match r {
                    Ok(leases) => {
                        &&& claim_inv(*old(run), block_refreshed(old(run).stages@), *final(run), leases@, approval.id, current_policy_version, current_policy_hash@)
                        &&& claim_pairs(leases@) == claim_plan(*old(run), requested_capacity)
                        &&& forall|s: int| 0 <= s < final(run).stages@.len() ==> #[trigger] final(run).stages@[s] == stage_scanned(
                            block_refreshed(old(run).stages@),
                            old(run).children@,
                            claim_capacity(requested_capacity, active_count(old(run).children@)),
                            s,
                        )
                        &&& leases@.len() <= claim_capacity(requested_capacity, active_count(old(run).children@))
                        &&& final(run).updated_at_epoch_ms == now_epoch_ms
                    },
                    Err(e) => e is InvalidChild && exists|k: int| 0 <= k < claim_plan(*old(run), requested_capacity).len()
                        && #[trigger] unbound_target(*old(run), claim_plan(*old(run), requested_capacity)[k].1),
                },
    {
        let ghost before = *run;
        let allowed = run.state == FleetRunStateV2::Approved || run.state == FleetRunStateV2::Executing;
        if !check_authority(run, approval, current_policy_version, current_policy_hash, allowed) {
            return Err(FleetCoordinatorError::InvalidAuthority);
        }
        if requested_capacity == 0 {
            return Ok(Vec::new());
        }
        if run.state == FleetRunStateV2::Approved {
            match run.transition_to(FleetRunStateV2::Executing, now_epoch_ms) {
                Ok(()) => {},
                Err(_) => {
                    return Err(FleetCoordinatorError::InvalidState);
                },
            }
        }
        refresh_blocked_stages(&mut run.stages);
        let ghost staged = run.stages@;
        let ghost c0 = before.children@;
        let active = count_active(&run.children);
        let cap0 = if requested_capacity < MAX_FLEET_ACTIVE_CHILDREN { requested_capacity } else { MAX_FLEET_ACTIVE_CHILDREN };
        let mut capacity: usize = if cap0 > active { cap0 - active } else { 0 };
        let ghost total: nat = capacity as nat;
        let n = run.stages.len();
        let mut deps_ok: Vec<bool> = Vec::new();
        for s in 0..n
            invariant
                n == run.stages@.len(),
                run.stages@ == staged,
                deps_ok@.len() == s,
                forall|j: int| 0 <= j < s ==> deps_ok@[j] == forall|d: int|
                    0 <= d < staged[j].depends_on@.len() ==> succeeded_id(staged, #[trigger] staged[j].depends_on@[d]),
        {
            let ok = all_deps_succeeded(&run.stages, s);
            deps_ok.push(ok);
        }
        let mut leases: Vec<FleetChildLeaseV2> = Vec::new();
        proof {
            assert(run.children@.take(before.children@.len() as int) =~= before.children@);
            assert forall|s: int| 0 <= s < staged.len() implies #[trigger] stage_after_claim(staged, run.stages@, s) by {}
            assert(claim_inv(before, staged, *run, leases@, approval.id, current_policy_version, current_policy_hash@));
            assert(claim_pairs(leases@) =~= claim_scan(staged, c0, total, 0));
        }
        for si in 0..n
            invariant
                before == *old(run),
                c0 == before.children@,
                requested_capacity > 0,
                authority_holds(before, *approval, current_policy_version, current_policy_hash@, before.state is Approved || before.state is Executing),
                n == staged.len(),
                staged == block_refreshed(before.stages@),
                canary_stages_have_targets(before.stages@),
                claim_inv(before, staged, *run, leases@, approval.id, current_policy_version, current_policy_hash@),
                capacity + leases@.len() == total,
                total == claim_capacity(requested_capacity, active_count(before.children@)),
                deps_ok@.len() == n,
                forall|j: int| 0 <= j < n ==> deps_ok@[j] == forall|d: int|
                    0 <= d < staged[j].depends_on@.len() ==> succeeded_id(staged, #[trigger] staged[j].depends_on@[d]),
                forall|s: int| si <= s < n ==> #[trigger] run.stages@[s] == staged[s],
                claim_pairs(leases@) == claim_scan(staged, c0, total, si as int),
                forall|s: int| 0 <= s < si ==> #[trigger] run.stages@[s] == stage_scanned(staged, c0, total, s),
        {
            let ghost pre = claim_pairs(leases@);
            proof {
                lemma_claim_inv_match(before, staged, *run, leases@, approval.id, current_policy_version, current_policy_hash@);
                lemma_claim_scan_len(staged, c0, total, si as int);
            }
            let st = run.stages[si].state;
            if capacity > 0 && (st == FleetStageStateV2::Pending || st == FleetStageStateV2::Running) && deps_ok[si] {
            proof {
                assert(stage_ready(staged, si as int));
                assert(staged[si as int].execution_strategy is Canary ==> staged[si as int].target_ids@.len() > 0) by {
                    assert(staged[si as int].target_ids == before.stages@[si as int].target_ids);
                    assert(staged[si as int].execution_strategy == before.stages@[si as int].execution_strategy);
                }
            }
            let sid = run.stages[si].id;
            let stage_active = stage_active_count(&run.children, sid);
            proof {
                lemma_children_match_facts(c0, run.children@.skip(c0.len() as int), pre, sid, 0);
            }
            let conc = run.stages[si].concurrency_limit;
            let strategy_capacity = if conc > stage_active { conc - stage_active } else { 0 };
            let mut available = if capacity < strategy_capacity { capacity } else { strategy_capacity };
            let strategy = run.stages[si].execution_strategy;
            if strategy == FleetExecutionStrategyV2::Sequential && stage_active > 0 {
                available = 0;
            }
            proof {
                assert(available as nat == stage_room(staged, si as int, c0, pre, capacity as nat));
                if strategy is Sequential && available > 0 {
                    lemma_prefix_no_active(run.children@, before.children@.len() as int, sid);
                }
            }
            let m = run.stages[si].target_ids.len();
            let mut gate = false;
            let mut first: u128 = 0;
            if strategy == FleetExecutionStrategyV2::Canary {
                first = run.stages[si].target_ids[0];
                gate = !has_succeeded(&run.children, sid, first);
                proof {
                    lemma_children_match_facts(c0, run.children@.skip(c0.len() as int), pre, sid, first);
                }
            }
            if gate {
                if available > 0 {
                    proof {
                        assert(staged[si as int].target_ids@.contains(first)) by {
                            assert(staged[si as int].target_ids@[0] == first);
                        }
                    }
                    match try_claim(run, &mut leases, approval.id, current_policy_version, current_policy_hash, si, first, Ghost(before), Ghost(staged)) {
                        Ok(true) => {
                            capacity = capacity - 1;
                        },
                        Ok(false) => {},
                        Err(e) => {
                            proof {
                                let plan = claim_scan(staged, c0, total, si + 1);
                                assert(plan =~= pre.push((sid, first)));
                                lemma_claim_scan_prefix(staged, c0, total, si + 1, n as int);
                                let full = claim_scan(staged, c0, total, n as int);
                                assert(full[pre.len() as int] == plan[pre.len() as int]);
                                assert(block_refreshed(before.stages@).len() == before.stages@.len());
                                assert(claim_plan(before, requested_capacity) == full);
                                assert(unbound_target(before, full[pre.len() as int].1));
                                assert(0 <= pre.len() < claim_plan(before, requested_capacity).len());
                            }
                            return Err(e);
                        },
                    }
                }
                proof {
                    assert(claim_pairs(leases@) =~= claim_scan(staged, c0, total, si + 1));
                }
            } else {
            proof {
                assert(claim_scan(staged, c0, total, si + 1) =~= pre + scan_targets(staged, si as int, c0, pre, available as nat, 0));
            }
            let mut ti: usize = 0;
            while ti < m && available > 0
                invariant
                    before == *old(run),
                    c0 == before.children@,
                    requested_capacity > 0,
                    authority_holds(before, *approval, current_policy_version, current_policy_hash@, before.state is Approved || before.state is Executing),
                    n == staged.len(),
                    si < n,
                    staged == block_refreshed(before.stages@),
                    claim_inv(before, staged, *run, leases@, approval.id, current_policy_version, current_policy_hash@),
                    capacity + leases@.len() == total,
                    available <= capacity,
                    stage_ready(staged, si as int),
                    sid == staged[si as int].id,
                    m == staged[si as int].target_ids@.len(),
                    strategy == staged[si as int].execution_strategy,
                    strategy is Sequential && available > 0 ==> !stage_child_is(before.children@, sid, 1),
                    strategy is Canary ==> target_succeeded(run.children@, sid, staged[si as int].target_ids@[0]),
                    forall|s: int| si < s < n ==> #[trigger] run.stages@[s] == staged[s],
                    forall|s: int| 0 <= s < si ==> #[trigger] run.stages@[s] == stage_scanned(staged, c0, total, s),
                    pre == claim_scan(staged, c0, total, si as int),
                    total == claim_capacity(requested_capacity, active_count(before.children@)),
                    claim_pairs(leases@) + scan_targets(staged, si as int, c0, claim_pairs(leases@), available as nat, ti as int)
                        == claim_scan(staged, c0, total, si + 1),
                    claim_pairs(leases@).len() >= pre.len(),
                    run.stages@[si as int] == (if claim_pairs(leases@).len() > pre.len() {
                        FleetStage { state: FleetStageStateV2::Running, ..staged[si as int] }
                    } else {
                        staged[si as int]
                    }),
                decreases m - ti,
            {
                proof {
                    assert(stage_after_claim(staged, run.stages@, si as int));
                    lemma_claim_inv_match(before, staged, *run, leases@, approval.id, current_policy_version, current_policy_hash@);
                }
                let tid = run.stages[si].target_ids[ti];
                proof {
                    assert(staged[si as int].target_ids@.contains(tid)) by {
                        assert(staged[si as int].target_ids@[ti as int] == tid);
                    }
                    lemma_children_match_facts(c0, run.children@.skip(c0.len() as int), claim_pairs(leases@), sid, tid);
                }
                let ghost pre_children = run.children@;
                let ghost cur = claim_pairs(leases@);
                let ghost avail0 = available as nat;
                match try_claim(run, &mut leases, approval.id, current_policy_version, current_policy_hash, si, tid, Ghost(before), Ghost(staged)) {
                    Ok(true) => {
                        available = available - 1;
                        capacity = capacity - 1;
                        proof {
                            assert(scan_targets(staged, si as int, c0, cur, avail0, ti as int) =~= seq![(sid, tid)]
                                + scan_targets(staged, si as int, c0, cur.push((sid, tid)), (avail0 - 1) as nat, ti + 1));
                            assert(cur + scan_targets(staged, si as int, c0, cur, avail0, ti as int) =~= cur.push((sid, tid))
                                + scan_targets(staged, si as int, c0, cur.push((sid, tid)), (avail0 - 1) as nat, ti + 1));
                        }
                    },
                    Ok(false) => {},
                    Err(e) => {
                        proof {
                            let plan = claim_scan(staged, c0, total, si + 1);
                            assert(scan_targets(staged, si as int, c0, cur, avail0, ti as int)[0] == (sid, tid));
                            assert(plan[cur.len() as int] == (sid, tid));
                            lemma_claim_scan_prefix(staged, c0, total, si + 1, n as int);
                            let full = claim_scan(staged, c0, total, n as int);
                            assert(full[cur.len() as int] == plan[cur.len() as int]);
                            assert(block_refreshed(before.stages@).len() == before.stages@.len());
                            assert(claim_plan(before, requested_capacity) == full);
                            assert(unbound_target(before, full[cur.len() as int].1));
                            assert(0 <= cur.len() < claim_plan(before, requested_capacity).len());
                        }
                        return Err(e);
                    },
                }
                proof {
                    if strategy is Canary {
                        lemma_succeeded_kept(pre_children, run.children@, sid, staged[si as int].target_ids@[0]);
                    }
                }
                ti = ti + 1;
            }
            proof {
                assert(scan_targets(staged, si as int, c0, claim_pairs(leases@), available as nat, ti as int) =~= Seq::<(u128, u128)>::empty());
                assert(claim_pairs(leases@) =~= claim_scan(staged, c0, total, si + 1));
            }
                    }
            } else {
                proof {
                    assert(claim_scan(staged, c0, total, si + 1) =~= claim_scan(staged, c0, total, si as int));
                }
            }
            proof {
                assert(run.stages@[si as int] == stage_scanned(staged, c0, total, si as int));
            }
        }
        proof {
            lemma_claim_scan_len(staged, c0, total, n as int);
        }
        run.updated_at_epoch_ms = now_epoch_ms;
        Ok(leases)
    }
}

/// Recovered metadata never carries authority to lease work.
pub proof fn lemma_recovered_runs_never_claim(
    run: FleetRunV2,
    approval: FleetApprovalV2,
    policy_version: u64,
    policy_hash: Seq<char>,
    state_allowed: bool,
)
    requires
        run.recovery_state is MetadataOnly,
    ensures
        !authority_holds(run, approval, policy_version, policy_hash, state_allowed),
{
}

/// Any drift of graph, targets or policy away from what the approval sealed
/// removes the authority to lease work.
pub proof fn lemma_drift_removes_authority(
    run: FleetRunV2,
    approval: FleetApprovalV2,
    policy_version: u64,
    policy_hash: Seq<char>,
    state_allowed: bool,
)
    requires
        approval.fleet_version != run.version || approval.graph_digest@ != run.graph_digest@
            || target_views(approval.targets@) != target_views(run.targets@)
            || approval.policy_version != policy_version || approval.policy_hash@ != policy_hash,
    ensures
        !authority_holds(run, approval, policy_version, policy_hash, state_allowed),
{
}

/// A claim never leases a (stage, target) pair that already had a running or
/// finished attempt; in particular a failed target is never retried
/// implicitly.
pub proof fn lemma_claim_never_releases_a_used_pair(
    before: FleetRunV2,
    staged: Seq<FleetStage>,
    run: FleetRunV2,
    leases: Seq<FleetChildLeaseV2>,
    approval_id: u128,
    policy_version: u64,
    policy_hash: Seq<char>,
    k: int,
    i: int,
)
    requires
        claim_inv(before, staged, run, leases, approval_id, policy_version, policy_hash),
        0 <= k < leases.len(),
        0 <= i < before.children@.len(),
        before.children@[i].stage_id == leases[k].stage_id,
        before.children@[i].target_id == leases[k].target.profile_id,
    ensures
        !child_active(before.children@[i].state),
        !child_settled(before.children@[i].state),
{
    let n0 = before.children@.len();
    assert(lease_ok(before, staged, run.children@, leases, k, approval_id, policy_version, policy_hash));
    let prior = run.children@.take(n0 + k);
    assert(prior[i] == run.children@.take(n0 as int)[i]);
    assert(prior[i] == before.children@[i]);
    if child_active(before.children@[i].state) || child_settled(before.children@[i].state) {
        assert(pair_busy(prior, leases[k].stage_id, leases[k].target.profile_id));
    }
}


/// A failed target is never retried implicitly: once a child's attempt is
/// recorded as failed, and whatever review keeps the run's children as they
/// are, no later claim leases that child's stage and target again.
pub proof fn lemma_failed_target_never_retried(
    before: FleetRunV2,
    recorded: FleetRunV2,
    k: int,
    error_code: Option<String>,
    recorded_at: u64,
    reviewed: FleetRunV2,
    staged: Seq<FleetStage>,
    claimed: FleetRunV2,
    leases: Seq<FleetChildLeaseV2>,
    approval_id: u128,
    policy_version: u64,
    policy_hash: Seq<char>,
    j: int,
)
    requires
        0 <= k < before.children@.len(),
        outcome_applied(before, recorded, k, FleetChildOutcomeV2::Failed, error_code, recorded_at),
        reviewed.children@ == recorded.children@,
        claim_inv(reviewed, staged, claimed, leases, approval_id, policy_version, policy_hash),
        0 <= j < leases.len(),
    ensures
        !(leases[j].stage_id == recorded.children@[k].stage_id
            && leases[j].target.profile_id == recorded.children@[k].target_id),
{
    let child = before.children@[k];
    let children1 = before.children@.update(
        k,
        FleetChildRun { state: FleetStageStateV2::Failed, error_code: error_code, ..child },
    );
    assert(children1[k].state is Failed);
    assert(recorded.children@[k] == children1[k]);
    assert(child_settled(reviewed.children@[k].state));
    if leases[j].stage_id == recorded.children@[k].stage_id
        && leases[j].target.profile_id == recorded.children@[k].target_id {
        lemma_claim_never_releases_a_used_pair(
            reviewed,
            staged,
            claimed,
            leases,
            approval_id,
            policy_version,
            policy_hash,
            j,
            k,
        );
    }
}

} // verus!
