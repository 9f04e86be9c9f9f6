//! Fleet runs: the orchestration graph over several exact targets, its state
//! machine, and the validation that turns a draft into an acyclic, bounded
//! stage graph sealed by a digest.
use vstd::prelude::*;
use vstd::string::StringSliceAdditionalSpecFns;
use crate::fleet_target::{FleetTargetBinding, TargetView, target_views, MAX_FLEET_TARGETS};
use crate::encoding::{hex_lower, sha256, sha256_hex, SHA256_MAX_INPUT_BYTES};
use crate::fleet_digest::{graph_json, graph_json_text};
use crate::ids::new_id;
use crate::text::{chars_of, string_from_chars, trim, trim_bounds};
use vstd::utf8::encode_utf8;

verus! {

pub const MAX_FLEET_STAGES: usize = 64;
pub const MAX_STAGE_SUMMARY_BYTES: usize = 512;

#[derive(Clone, Copy, Debug, PartialEq, Eq, Structural)]
pub enum FleetRunStateV2 {
    Draft,
    ValidatingTargets,
    Investigating,
    Planning,
    AwaitingApproval,
    Approved,
    Executing,
    Verifying,
    PausedForReview,
    Succeeded,
    Failed,
    RollingBack,
    RolledBack,
    RollbackFailed,
    Interrupted,
    Cancelled,
}

pub open spec fn fleet_is_terminal(s: FleetRunStateV2) -> bool {
    s is Succeeded || s is Failed || s is RolledBack || s is RollbackFailed || s is Interrupted
        || s is Cancelled
}

pub open spec fn fleet_is_in_flight(s: FleetRunStateV2) -> bool {
    s is ValidatingTargets || s is Investigating || s is Planning || s is Executing
        || s is Verifying || s is RollingBack
}

/// The fleet transition table. Anything not listed is invalid.
pub open spec fn fleet_step(from: FleetRunStateV2, next: FleetRunStateV2) -> bool {
    if fleet_is_terminal(from) {
        false
    } else if next is Cancelled || next is Failed || next is Interrupted {
        true
    } else {
        match from {
            FleetRunStateV2::Draft => next is ValidatingTargets,
            FleetRunStateV2::ValidatingTargets => next is Investigating,
            FleetRunStateV2::Investigating => next is Planning || next is PausedForReview,
            FleetRunStateV2::Planning => next is AwaitingApproval || next is PausedForReview,
            FleetRunStateV2::AwaitingApproval => next is Approved || next is Executing
                || next is Planning,
            FleetRunStateV2::Approved => next is Executing,
            FleetRunStateV2::Executing => next is Verifying || next is PausedForReview
                || next is RollingBack,
            FleetRunStateV2::Verifying => next is Succeeded || next is PausedForReview
                || next is RollingBack,
            FleetRunStateV2::PausedForReview => next is Investigating || next is Planning
                || next is Executing || next is RollingBack,
            FleetRunStateV2::RollingBack => next is RolledBack || next is RollbackFailed,
            _ => false,
        }
    }
}

impl FleetRunStateV2 {
    pub fn is_terminal(self) -> (r: bool)
        ensures
            r == fleet_is_terminal(self),
    {
        matches!(
            self,
            FleetRunStateV2::Succeeded | FleetRunStateV2::Failed | FleetRunStateV2::RolledBack
                | FleetRunStateV2::RollbackFailed | FleetRunStateV2::Interrupted
                | FleetRunStateV2::Cancelled
        )
    }

    pub fn is_in_flight(self) -> (r: bool)
        ensures
            r == fleet_is_in_flight(self),
    {
        matches!(
            self,
            FleetRunStateV2::ValidatingTargets | FleetRunStateV2::Investigating
                | FleetRunStateV2::Planning | FleetRunStateV2::Executing
                | FleetRunStateV2::Verifying | FleetRunStateV2::RollingBack
        )
    }

    pub fn can_transition_to(self, next: FleetRunStateV2) -> (r: bool)
        ensures
            r == fleet_step(self, next),
    {
        if self.is_terminal() {
            return false;
        }
        if matches!(
            next,
            FleetRunStateV2::Cancelled | FleetRunStateV2::Failed | FleetRunStateV2::Interrupted
        ) {
            return true;
        }
        match self {
            FleetRunStateV2::Draft => matches!(next, FleetRunStateV2::ValidatingTargets),
            FleetRunStateV2::ValidatingTargets => matches!(next, FleetRunStateV2::Investigating),
            FleetRunStateV2::Investigating => matches!(
                next,
                FleetRunStateV2::Planning | FleetRunStateV2::PausedForReview
            ),
            FleetRunStateV2::Planning => matches!(
                next,
                FleetRunStateV2::AwaitingApproval | FleetRunStateV2::PausedForReview
            ),
            FleetRunStateV2::AwaitingApproval => matches!(
                next,
                FleetRunStateV2::Approved | FleetRunStateV2::Executing | FleetRunStateV2::Planning
            ),
            FleetRunStateV2::Approved => matches!(next, FleetRunStateV2::Executing),
            FleetRunStateV2::Executing => matches!(
                next,
                FleetRunStateV2::Verifying | FleetRunStateV2::PausedForReview
                    | FleetRunStateV2::RollingBack
            ),
            FleetRunStateV2::Verifying => matches!(
                next,
                FleetRunStateV2::Succeeded | FleetRunStateV2::PausedForReview
                    | FleetRunStateV2::RollingBack
            ),
            FleetRunStateV2::PausedForReview => matches!(
                next,
                FleetRunStateV2::Investigating | FleetRunStateV2::Planning
                    | FleetRunStateV2::Executing | FleetRunStateV2::RollingBack
            ),
            FleetRunStateV2::RollingBack => matches!(
                next,
                FleetRunStateV2::RolledBack | FleetRunStateV2::RollbackFailed
            ),
            _ => false,
        }
    }
}

#[derive(Clone, Copy, Debug, PartialEq, Eq, Structural)]
pub enum FleetStageStateV2 {
    Pending,
    Ready,
    Running,
    AwaitingApproval,
    Verifying,
    Succeeded,
    Failed,
    Blocked,
    Cancelled,
    RollbackPending,
    RolledBack,
    RollbackFailed,
}

#[derive(Clone, Copy, Debug, PartialEq, Eq, Structural)]
pub enum FleetExecutionStrategyV2 {
    Sequential,
    Canary,
    RollingBatch,
    Parallel,
}

#[derive(Clone, Copy, Debug, PartialEq, Eq, Structural)]
pub enum FleetFailurePolicyV2 {
    Stop,
    PauseForReview,
    Continue,
    Rollback,
}

#[derive(Clone, Copy, Debug, PartialEq, Eq, Structural)]
pub enum FleetRecoveryStateV2 {
    Live,
    MetadataOnly,
}

#[derive(Clone, Debug)]
pub struct FleetStageDraft {
    pub id: u128,
    pub summary: String,
    pub target_ids: Vec<u128>,
    pub depends_on: Vec<u128>,
    pub execution_strategy: FleetExecutionStrategyV2,
    pub concurrency_limit: usize,
}

#[derive(Clone, Debug)]
pub struct FleetStage {
    pub id: u128,
    pub summary: String,
    pub target_ids: Vec<u128>,
    pub depends_on: Vec<u128>,
    pub execution_strategy: FleetExecutionStrategyV2,
    pub concurrency_limit: usize,
    pub state: FleetStageStateV2,
}

#[derive(Clone, Debug)]
pub struct FleetChildRun {
    pub stage_id: u128,
    pub target_id: u128,
    pub agent_run_id: Option<u128>,
    pub attempt: u32,
    pub state: FleetStageStateV2,
    pub error_code: Option<String>,
}

#[derive(Clone, Debug)]
pub struct FleetRunV2 {
    pub id: u128,
    pub version: u64,
    pub state: FleetRunStateV2,
    pub production: bool,
    pub failure_policy: FleetFailurePolicyV2,
    pub targets: Vec<FleetTargetBinding>,
    pub stages: Vec<FleetStage>,
    pub children: Vec<FleetChildRun>,
    pub graph_digest: String,
    pub recovery_state: FleetRecoveryStateV2,
    pub created_at_epoch_ms: u64,
    pub updated_at_epoch_ms: u64,
}

#[derive(Clone, Debug)]
pub struct FleetRunDraft {
    pub production: bool,
    pub failure_policy: FleetFailurePolicyV2,
    pub targets: Vec<FleetTargetBinding>,
    pub stages: Vec<FleetStageDraft>,
}

#[derive(Clone, Copy, Debug, PartialEq, Eq, Structural)]
pub enum FleetPlanError {
    InvalidTargets,
    InvalidStages,
    UnknownTarget,
    InvalidDependency,
    DependencyCycle,
    ProductionParallel,
    InvalidTransition,
}

/// The mathematical content of a stage.
pub struct StageView {
    pub id: u128,
    pub summary: Seq<char>,
    pub target_ids: Seq<u128>,
    pub depends_on: Seq<u128>,
    pub execution_strategy: FleetExecutionStrategyV2,
    pub concurrency_limit: nat,
    pub state: FleetStageStateV2,
}

impl View for FleetStage {
    type V = StageView;

    open spec fn view(&self) -> StageView {
        StageView {
            id: self.id,
            summary: self.summary@,
            target_ids: self.target_ids@,
            depends_on: self.depends_on@,
            execution_strategy: self.execution_strategy,
            concurrency_limit: self.concurrency_limit as nat,
            state: self.state,
        }
    }
}

pub open spec fn stage_views(stages: Seq<FleetStage>) -> Seq<StageView> {
    stages.map_values(|s: FleetStage| s@)
}

pub open spec fn profile_ids(targets: Seq<FleetTargetBinding>) -> Seq<u128> {
    targets.map_values(|t: FleetTargetBinding| t.profile_id)
}

/// A target set is well formed: two to ten targets, ordinals equal to
/// positions, no repeated profile and no repeated session.
pub open spec fn targets_valid(targets: Seq<FleetTargetBinding>) -> bool {
    &&& 2 <= targets.len() <= MAX_FLEET_TARGETS
    &&& forall|i: int| 0 <= i < targets.len() ==> (#[trigger] targets[i]).ordinal == i
    &&& forall|i: int, j: int|
        0 <= i < j < targets.len() ==> targets[i].profile_id != targets[j].profile_id
            && targets[i].session_id != targets[j].session_id
}

/// `id` is the identifier of some stage at a position where `done` holds.
pub open spec fn is_done_id(stages: Seq<StageView>, done: Seq<bool>, id: u128) -> bool {
    exists|j: int| 0 <= j < stages.len() && done[j] && (#[trigger] stages[j]).id == id
}

/// `order` lists every stage position once, so that every dependency of a
/// stage is the identifier of a stage listed earlier.
pub open spec fn is_topological_order(stages: Seq<StageView>, order: Seq<int>) -> bool {
    &&& order.len() == stages.len()
    &&& order.no_duplicates()
    &&& forall|p: int| 0 <= p < order.len() ==> 0 <= #[trigger] order[p] < stages.len()
    &&& order_respects_deps(stages, order)
}

/// The stage graph has no dependency cycle (and no dependency outside it).
pub open spec fn acyclic(stages: Seq<StageView>) -> bool {
    exists|order: Seq<int>| is_topological_order(stages, order)
}

/// Whether every dependency of stage `i` is the identifier of a done stage.
fn deps_done(stages: &Vec<FleetStage>, done: &Vec<bool>, i: usize) -> (r: bool)
    requires
        i < stages@.len(),
        done@.len() == stages@.len(),
    ensures
        r == forall|d: int|
            0 <= d < stages@[i as int].depends_on@.len() ==> is_done_id(
                stage_views(stages@),
                done@,
                #[trigger] stages@[i as int].depends_on@[d],
            ),
{
    let deps = &stages[i].depends_on;
    let m = deps.len();
    let n = stages.len();
    for d in 0..m
        invariant
            m == deps@.len(),
            deps@ == stages@[i as int].depends_on@,
            n == stages@.len(),
            done@.len() == n,
            forall|e: int| 0 <= e < d ==> is_done_id(stage_views(stages@), done@, #[trigger] deps@[e]),
    {
        let target = deps[d];
        let mut found = false;
        for j in 0..n
            invariant
                n == stages@.len(),
                done@.len() == n,
                found ==> is_done_id(stage_views(stages@), done@, target),
                !found ==> forall|k: int| 0 <= k < j ==> !(done@[k] && #[trigger] stages@[k].id == target),
        {
            if done[j] && stages[j].id == target {
                proof {
                    assert(stage_views(stages@)[j as int].id == target);
                }
                found = true;
            }
        }
        if !found {
            proof {
                assert forall|k: int| 0 <= k < n implies !(done@[k] && #[trigger] stage_views(stages@)[k].id == target) by {
                    assert(stage_views(stages@)[k].id == stages@[k].id);
                }
            }
            return false;
        }
    }
    true
}

/// Some stage listed before position `p` of `order` has identifier `id`.
pub open spec fn listed_before(sv: Seq<StageView>, order: Seq<int>, p: int, id: u128) -> bool {
    exists|q: int| 0 <= q < p && (#[trigger] sv[order[q]]).id == id
}

/// Every dependency of a listed stage is the identifier of a stage listed
/// before it.
pub open spec fn order_respects_deps(sv: Seq<StageView>, order: Seq<int>) -> bool {
    forall|p: int, d: int|
        #![trigger sv[order[p]].depends_on[d]]
        0 <= p < order.len() && 0 <= d < sv[order[p]].depends_on.len() ==> listed_before(
            sv,
            order,
            p,
            sv[order[p]].depends_on[d],
        )
}

/// The bookkeeping of the scheduling scan: `order` lists exactly the done
/// positions, without repetition, respecting dependencies.
pub open spec fn scan_inv(sv: Seq<StageView>, done: Seq<bool>, order: Seq<int>) -> bool {
    &&& done.len() == sv.len()
    &&& order.no_duplicates()
    &&& forall|p: int| 0 <= p < order.len() ==> 0 <= #[trigger] order[p] < sv.len()
    &&& forall|k: int| 0 <= k < sv.len() ==> (done[k] <==> order.contains(k))
    &&& order_respects_deps(sv, order)
}

/// All dependencies of stage `k` are identifiers of done stages.
pub open spec fn deps_all_done(sv: Seq<StageView>, done: Seq<bool>, k: int) -> bool {
    forall|d: int| 0 <= d < sv[k].depends_on.len() ==> is_done_id(sv, done, #[trigger] sv[k].depends_on[d])
}

proof fn lemma_scan_push(sv: Seq<StageView>, done: Seq<bool>, order: Seq<int>, i: int)
    requires
        scan_inv(sv, done, order),
        0 <= i < sv.len(),
        !done[i],
        deps_all_done(sv, done, i),
    ensures
        scan_inv(sv, done.update(i, true), order.push(i)),
{
    let o2 = order.push(i);
    let d2 = done.update(i, true);
    assert(!order.contains(i));
    assert forall|p: int, d: int|
        #![trigger sv[o2[p]].depends_on[d]]
        0 <= p < o2.len() && 0 <= d < sv[o2[p]].depends_on.len() implies listed_before(
            sv,
            o2,
            p,
            sv[o2[p]].depends_on[d],
        ) by {
        if p < order.len() {
            assert(o2[p] == order[p]);
            assert(listed_before(sv, order, p, sv[order[p]].depends_on[d]));
            let q = choose|q: int| 0 <= q < p && (#[trigger] sv[order[q]]).id == sv[order[p]].depends_on[d];
            assert(o2[q] == order[q]);
            assert(sv[o2[q]].id == sv[o2[p]].depends_on[d]);
        } else {
            assert(o2[p] == i);
            assert(is_done_id(sv, done, sv[i].depends_on[d]));
            let j = choose|j: int| 0 <= j < sv.len() && done[j] && (#[trigger] sv[j]).id == sv[i].depends_on[d];
            assert(order.contains(j));
            let q = choose|q: int| 0 <= q < order.len() && order[q] == j;
            assert(o2[q] == j);
            assert(sv[o2[q]].id == sv[o2[p]].depends_on[d]);
        }
    }
    assert forall|k: int| 0 <= k < sv.len() implies (d2[k] <==> o2.contains(k)) by {
        if k == i {
            assert(o2[o2.len() - 1] == i);
        } else {
            if o2.contains(k) {
                let q = choose|q: int| 0 <= q < o2.len() && o2[q] == k;
                assert(q < order.len());
                assert(order[q] == k);
            }
            if order.contains(k) {
                let q = choose|q: int| 0 <= q < order.len() && order[q] == k;
                assert(o2[q] == k);
            }
        }
    }
    assert forall|a: int, b: int| 0 <= a < o2.len() && 0 <= b < o2.len() && a != b implies o2[a] != o2[b] by {
        if a < order.len() && b < order.len() {
        } else if a < order.len() {
            assert(order.contains(order[a]));
        } else if b < order.len() {
            assert(order.contains(order[b]));
        }
    }
}

/// A repetition-free list of positions below `n` has at most `n` entries,
/// and exactly `n` when it lists every position.
proof fn lemma_positions_len(order: Seq<int>, n: int)
    requires
        0 <= n,
        order.no_duplicates(),
        forall|p: int| 0 <= p < order.len() ==> 0 <= #[trigger] order[p] < n,
    ensures
        order.len() <= n,
        (forall|k: int| 0 <= k < n ==> order.contains(k)) ==> order.len() == n,
{
    let s = Set::new(|k: int| 0 <= k < n);
    lemma_range_set_len(n);
    order.unique_seq_to_set();
    assert(order.to_set().subset_of(s));
    vstd::set_lib::lemma_len_subset(order.to_set(), s);
    if forall|k: int| 0 <= k < n ==> order.contains(k) {
        assert(order.to_set() =~= s) by {
            assert forall|k: int| s.contains(k) implies order.to_set().contains(k) by {
                assert(order.contains(k));
            }
        }
    }
}

/// Whether the stage graph admits a topological order: every dependency is
/// the identifier of a stage, and there is no dependency cycle.
pub fn validate_acyclic(stages: &Vec<FleetStage>) -> (r: bool)
    ensures
        r == acyclic(stage_views(stages@)),
{
    let n = stages.len();
    let ghost sv = stage_views(stages@);
    let mut done: Vec<bool> = Vec::new();
    for i in 0..n
        invariant
            done@.len() == i,
            forall|k: int| 0 <= k < i ==> !done@[k],
    {
        done.push(false);
    }
    let mut count: usize = 0;
    let ghost mut gorder: Seq<int> = Seq::empty();
    proof {
        assert(scan_inv(sv, done@, gorder));
    }
    let mut progress = true;
    while progress
        invariant
            n == stages@.len(),
            sv == stage_views(stages@),
            scan_inv(sv, done@, gorder),
            count == gorder.len(),
            count <= n,
            !progress ==> forall|k: int| 0 <= k < n && !done@[k] ==> !deps_all_done(sv, done@, k),
        decreases n - count, (if progress { 1int } else { 0int }),
    {
        progress = false;
        let ghost start_len = count;
        for i in 0..n
            invariant
                n == stages@.len(),
                sv == stage_views(stages@),
                scan_inv(sv, done@, gorder),
                count == gorder.len(),
                start_len <= count <= n,
                progress ==> count > start_len,
                !progress ==> forall|k: int| 0 <= k < i && !done@[k] ==> !deps_all_done(sv, done@, k),
        {
            if !done[i] {
                let ready = deps_done(stages, &done, i);
                proof {
                    assert(ready == deps_all_done(sv, done@, i as int)) by {
                        assert forall|d: int| 0 <= d < sv[i as int].depends_on.len() implies sv[i as int].depends_on[d] == stages@[i as int].depends_on@[d] by {}
                    }
                }
                if ready {
                    proof {
                        lemma_scan_push(sv, done@, gorder, i as int);
                        gorder = gorder.push(i as int);
                        lemma_positions_len(gorder, n as int);
                    }
                    done.set(i, true);
                    count = count + 1;
                    progress = true;
                }
            }
        }
    }
    proof {
        lemma_positions_len(gorder, n as int);
    }
    if count == n {
        proof {
            assert(is_topological_order(sv, gorder));
        }
        true
    } else {
        proof {
            if acyclic(sv) {
                let topo = choose|o: Seq<int>| is_topological_order(sv, o);
                assert(exists|k: int| 0 <= k < n && !done@[k]) by {
                    if forall|k: int| 0 <= k < n ==> done@[k] {
                        assert forall|k: int| 0 <= k < n implies gorder.contains(k) by {
                            assert(done@[k]);
                        }
                    }
                }
                let p0 = lemma_first_undone(sv, done@, topo);
                let k = topo[p0];
                assert(!deps_all_done(sv, done@, k));
                let d = choose|d: int| 0 <= d < sv[k].depends_on.len() && !is_done_id(sv, done@, #[trigger] sv[k].depends_on[d]);
                assert(listed_before(sv, topo, p0, sv[topo[p0]].depends_on[d]));
                let q = choose|q: int| 0 <= q < p0 && (#[trigger] sv[topo[q]]).id == sv[topo[p0]].depends_on[d];
                assert(done@[topo[q]]);
                assert(is_done_id(sv, done@, sv[k].depends_on[d]));
            }
        }
        false
    }
}

/// A set of positions below `n` has `n` elements.
proof fn lemma_range_set_len(n: int)
    requires
        0 <= n,
    ensures
        Set::new(|k: int| 0 <= k < n).finite(),
        Set::new(|k: int| 0 <= k < n).len() == n,
    decreases n,
{
    if n == 0 {
        assert(Set::new(|k: int| 0 <= k < n) =~= Set::empty());
    } else {
        lemma_range_set_len(n - 1);
        assert(Set::new(|k: int| 0 <= k < n) =~= Set::new(|k: int| 0 <= k < n - 1).insert(n - 1));
    }
}

/// In a topological order of a graph with an unfinished stage, some position
/// holds the earliest unfinished stage.
proof fn lemma_first_undone(sv: Seq<StageView>, done: Seq<bool>, topo: Seq<int>) -> (p: int)
    requires
        is_topological_order(sv, topo),
        done.len() == sv.len(),
        exists|k: int| 0 <= k < sv.len() && !done[k],
    ensures
        0 <= p < topo.len(),
        !done[topo[p]],
        forall|q: int| 0 <= q < p ==> done[#[trigger] topo[q]],
{
    let k = choose|k: int| 0 <= k < sv.len() && !done[k];
    let s = Set::new(|x: int| 0 <= x < sv.len());
    lemma_range_set_len(sv.len() as int);
    topo.unique_seq_to_set();
    assert(topo.to_set().subset_of(s));
    vstd::set_lib::lemma_len_subset(topo.to_set(), s);
    vstd::set_lib::lemma_subset_equality(topo.to_set(), s);
    assert(topo.to_set().contains(k));
    let pk = choose|pk: int| 0 <= pk < topo.len() && topo[pk] == k;
    lemma_first_false(done, topo, pk)
}

proof fn lemma_first_false(done: Seq<bool>, topo: Seq<int>, pk: int) -> (p: int)
    requires
        0 <= pk < topo.len(),
        forall|q: int| 0 <= q < topo.len() ==> 0 <= #[trigger] topo[q] < done.len(),
        !done[topo[pk]],
    ensures
        0 <= p <= pk,
        !done[topo[p]],
        forall|q: int| 0 <= q < p ==> done[#[trigger] topo[q]],
    decreases pk,
{
    if forall|q: int| 0 <= q < pk ==> done[#[trigger] topo[q]] {
        pk
    } else {
        let q = choose|q: int| 0 <= q < pk && !done[#[trigger] topo[q]];
        lemma_first_false(done, topo, q)
    }
}

/// Whether `id` occurs in `ids`.
pub fn contains_id(ids: &Vec<u128>, id: u128) -> (r: bool)
    ensures
        r == ids@.contains(id),
{
    let n = ids.len();
    for i in 0..n
        invariant
            n == ids@.len(),
            forall|j: int| 0 <= j < i ==> ids@[j] != id,
    {
        if ids[i] == id {
            return true;
        }
    }
    false
}

/// Whether the identifiers are pairwise distinct.
pub fn distinct_ids(ids: &Vec<u128>) -> (r: bool)
    ensures
        r == ids@.no_duplicates(),
{
    let n = ids.len();
    for i in 0..n
        invariant
            n == ids@.len(),
            forall|a: int, b: int| 0 <= a < b < i ==> ids@[a] != ids@[b],
    {
        for j in 0..i
            invariant
                i < n,
                n == ids@.len(),
                forall|a: int| 0 <= a < j ==> ids@[a] != ids@[i as int],
        {
            if ids[j] == ids[i] {
                return false;
            }
        }
    }
    true
}

/// Every identifier of `xs` occurs in `known`.
pub open spec fn all_in(xs: Seq<u128>, known: Seq<u128>) -> bool {
    forall|i: int| 0 <= i < xs.len() ==> known.contains(#[trigger] xs[i])
}

/// Whether every identifier of `xs` occurs in `known`.
pub fn all_known(xs: &Vec<u128>, known: &Vec<u128>) -> (r: bool)
    ensures
        r == all_in(xs@, known@),
{
    let n = xs.len();
    for i in 0..n
        invariant
            n == xs@.len(),
            forall|j: int| 0 <= j < i ==> known@.contains(#[trigger] xs@[j]),
    {
        if !contains_id(known, xs[i]) {
            return false;
        }
    }
    true
}

pub open spec fn draft_stage_ids(drafts: Seq<FleetStageDraft>) -> Seq<u128> {
    drafts.map_values(|d: FleetStageDraft| d.id)
}

pub open spec fn stage_ids(stages: Seq<FleetStage>) -> Seq<u128> {
    stages.map_values(|s: FleetStage| s.id)
}

/// The first rule a stage draft breaks, if any: a blank or oversized
/// trimmed summary, an empty or repeated target list, a target outside the
/// fleet, a repeated, self or unknown dependency, a concurrency limit outside
/// `1..=targets`, a sequential stage with a limit other than one, or a
/// parallel stage in production.
pub open spec fn draft_stage_error(
    d: FleetStageDraft,
    production: bool,
    known_targets: Seq<u128>,
    known_stages: Seq<u128>,
) -> Option<FleetPlanError> {
    let summary = trim(d.summary@);
    if summary.len() == 0 || encode_utf8(summary).len() > MAX_STAGE_SUMMARY_BYTES {
        Some(FleetPlanError::InvalidStages)
    } else if d.target_ids@.len() == 0 || !d.target_ids@.no_duplicates() {
        Some(FleetPlanError::InvalidStages)
    } else if !all_in(d.target_ids@, known_targets) {
        Some(FleetPlanError::UnknownTarget)
    } else if !d.depends_on@.no_duplicates() || d.depends_on@.contains(d.id) || !all_in(
        d.depends_on@,
        known_stages,
    ) {
        Some(FleetPlanError::InvalidDependency)
    } else if d.concurrency_limit == 0 || d.concurrency_limit > d.target_ids@.len() {
        Some(FleetPlanError::InvalidStages)
    } else if d.execution_strategy is Sequential && d.concurrency_limit != 1 {
        Some(FleetPlanError::InvalidStages)
    } else if production && d.execution_strategy is Parallel {
        Some(FleetPlanError::ProductionParallel)
    } else {
        None
    }
}

/// The first error among the first `k` stage drafts, in order.
pub open spec fn first_stage_error(
    drafts: Seq<FleetStageDraft>,
    production: bool,
    known_targets: Seq<u128>,
    known_stages: Seq<u128>,
    k: int,
) -> Option<FleetPlanError>
    decreases k,
{
    if k <= 0 {
        None
    } else {
        match first_stage_error(drafts, production, known_targets, known_stages, k - 1) {
            Some(e) => Some(e),
            None => draft_stage_error(drafts[k - 1], production, known_targets, known_stages),
        }
    }
}

/// The stage a valid draft becomes: trimmed summary, `Pending` state.
pub open spec fn planned_stage(d: FleetStageDraft) -> StageView {
    StageView {
        id: d.id,
        summary: trim(d.summary@),
        target_ids: d.target_ids@,
        depends_on: d.depends_on@,
        execution_strategy: d.execution_strategy,
        concurrency_limit: d.concurrency_limit as nat,
        state: FleetStageStateV2::Pending,
    }
}

pub open spec fn planned_stages(drafts: Seq<FleetStageDraft>) -> Seq<StageView> {
    drafts.map_values(|d: FleetStageDraft| planned_stage(d))
}

/// The digest text that seals a graph: lower-case hexadecimal SHA-256 of
/// the UTF-8 bytes of its canonical JSON.
pub open spec fn graph_digest_of(
    production: bool,
    policy: FleetFailurePolicyV2,
    targets: Seq<TargetView>,
    stages: Seq<StageView>,
) -> Seq<char> {
    hex_lower(sha256(encode_utf8(graph_json(production, policy, targets, stages))))
}

/// Why a draft cannot become a fleet run, checked in order; `None` when it
/// can.
pub open spec fn plan_error(request: FleetRunDraft) -> Option<FleetPlanError> {
    let known_targets = profile_ids(request.targets@);
    let known_stages = draft_stage_ids(request.stages@);
    if !targets_valid(request.targets@) {
        Some(FleetPlanError::InvalidTargets)
    } else if request.stages@.len() == 0 || request.stages@.len() > MAX_FLEET_STAGES
        || !known_stages.no_duplicates() {
        Some(FleetPlanError::InvalidStages)
    } else {
        match first_stage_error(
            request.stages@,
            request.production,
            known_targets,
            known_stages,
            request.stages@.len() as int,
        ) {
            Some(e) => Some(e),
            None => if !acyclic(planned_stages(request.stages@)) {
                Some(FleetPlanError::DependencyCycle)
            } else if encode_utf8(
                graph_json(
                    request.production,
                    request.failure_policy,
                    target_views(request.targets@),
                    planned_stages(request.stages@),
                ),
            ).len() > SHA256_MAX_INPUT_BYTES {
                Some(FleetPlanError::InvalidStages)
            } else {
                None
            },
        }
    }
}

/// Whether a target set is well formed.
pub fn validate_targets(targets: &Vec<FleetTargetBinding>) -> (r: bool)
    ensures
        r == targets_valid(targets@),
{
    let n = targets.len();
    if n < 2 || n > MAX_FLEET_TARGETS {
        return false;
    }
    for i in 0..n
        invariant
            n == targets@.len(),
            forall|k: int| 0 <= k < i ==> (#[trigger] targets@[k]).ordinal == k,
            forall|a: int, b: int|
                0 <= a < b < i ==> targets@[a].profile_id != targets@[b].profile_id
                    && targets@[a].session_id != targets@[b].session_id,
    {
        if targets[i].ordinal != i {
            return false;
        }
        for j in 0..i
            invariant
                i < n,
                n == targets@.len(),
                forall|a: int|
                    0 <= a < j ==> targets@[a].profile_id != targets@[i as int].profile_id
                        && targets@[a].session_id != targets@[i as int].session_id,
        {
            if targets[j].profile_id == targets[i].profile_id || targets[j].session_id
                == targets[i].session_id {
                return false;
            }
        }
    }
    true
}

fn collect_profile_ids(targets: &Vec<FleetTargetBinding>) -> (r: Vec<u128>)
    ensures
        r@ == profile_ids(targets@),
{
    let mut out: Vec<u128> = Vec::new();
    let n = targets.len();
    for i in 0..n
        invariant
            n == targets@.len(),
            out@ == profile_ids(targets@.take(i as int)),
    {
        out.push(targets[i].profile_id);
        proof {
            assert(profile_ids(targets@.take(i + 1)) =~= profile_ids(targets@.take(i as int)).push(
                targets@[i as int].profile_id,
            ));
        }
    }
    proof {
        assert(targets@.take(n as int) =~= targets@);
    }
    out
}

/// The trimmed text of a summary.
fn trimmed_text(s: &String) -> (r: String)
    ensures
        r@ == trim(s@),
{
    let chars = chars_of(s.as_str());
    let (start, end) = trim_bounds(chars.as_slice());
    let mut out: Vec<char> = Vec::new();
    let mut i = start;
    while i < end
        invariant
            start <= i <= end <= chars@.len(),
            out@ == chars@.subrange(start as int, i as int),
        decreases end - i,
    {
        out.push(chars[i]);
        i = i + 1;
    }
    string_from_chars(out.as_slice())
}

/// Checks one stage draft against the rules, in order.
fn check_stage_draft(
    d: &FleetStageDraft,
    production: bool,
    known_targets: &Vec<u128>,
    known_stages: &Vec<u128>,
    summary: &String,
) -> (r: Option<FleetPlanError>)
    requires
        summary@ == trim(d.summary@),
    ensures
        r == draft_stage_error(*d, production, known_targets@, known_stages@),
{
    let bytes = summary.as_str().as_bytes().len();
    proof {
        assert(bytes == encode_utf8(summary@).len());
    }
    if bytes == 0 || bytes > MAX_STAGE_SUMMARY_BYTES {
        proof {
            if summary@.len() > 0 {
                lemma_encode_nonempty(summary@);
            }
        }
        return Some(FleetPlanError::InvalidStages);
    }
    proof {
        if summary@.len() == 0 {
            assert(encode_utf8(summary@).len() == 0);
        }
        assert(summary@.len() != 0);
        assert(encode_utf8(summary@).len() <= MAX_STAGE_SUMMARY_BYTES);
    }
    if d.target_ids.len() == 0 || !distinct_ids(&d.target_ids) {
        return Some(FleetPlanError::InvalidStages);
    }
    if !all_known(&d.target_ids, known_targets) {
        return Some(FleetPlanError::UnknownTarget);
    }
    if !distinct_ids(&d.depends_on) || contains_id(&d.depends_on, d.id) || !all_known(
        &d.depends_on,
        known_stages,
    ) {
        return Some(FleetPlanError::InvalidDependency);
    }
    if d.concurrency_limit == 0 || d.concurrency_limit > d.target_ids.len() {
        return Some(FleetPlanError::InvalidStages);
    }
    if d.execution_strategy == FleetExecutionStrategyV2::Sequential && d.concurrency_limit != 1 {
        return Some(FleetPlanError::InvalidStages);
    }
    if production && d.execution_strategy == FleetExecutionStrategyV2::Parallel {
        return Some(FleetPlanError::ProductionParallel);
    }
    None
}

/// A non-empty text has a non-empty UTF-8 encoding.
pub proof fn lemma_encode_nonempty(s: Seq<char>)
    requires
        s.len() > 0,
    ensures
        encode_utf8(s).len() > 0,
{
    assert(vstd::utf8::encode_scalar(s[0] as u32).len() >= 1);
}

/// The run a valid draft becomes.
pub open spec fn drafted_from(run: FleetRunV2, request: FleetRunDraft, now_epoch_ms: u64) -> bool {
    &&& run.version == 1
    &&& run.state is Draft
    &&& run.production == request.production
    &&& run.failure_policy == request.failure_policy
    &&& run.targets@ == request.targets@
    &&& stage_views(run.stages@) == planned_stages(request.stages@)
    &&& run.children@.len() == 0
    &&& run.graph_digest@.len() == 64
    &&& run.graph_digest@ == graph_digest_of(
        request.production,
        request.failure_policy,
        target_views(request.targets@),
        planned_stages(request.stages@),
    )
    &&& run.recovery_state is Live
    &&& run.created_at_epoch_ms == now_epoch_ms
    &&& run.updated_at_epoch_ms == now_epoch_ms
}

/// The run after a validated move to `next` at `now_epoch_ms`.
pub open spec fn moved_to(run: FleetRunV2, next: FleetRunStateV2, now_epoch_ms: u64) -> FleetRunV2 {
    FleetRunV2 { state: next, updated_at_epoch_ms: now_epoch_ms, ..run }
}

/// A run may move to `next`: it is live and the table allows the move.
pub open spec fn run_can_move(run: FleetRunV2, next: FleetRunStateV2) -> bool {
    run.recovery_state is Live && fleet_step(run.state, next)
}

impl FleetRunV2 {
    /// Validates a draft and builds the sealed fleet graph in `Draft` state.
    pub fn draft(request: FleetRunDraft, now_epoch_ms: u64) -> (r: Result<FleetRunV2, FleetPlanError>)
        ensures
            match plan_error(request) {
                Some(e) => r == Err::<FleetRunV2, FleetPlanError>(e),
                None => r matches Ok(run) && drafted_from(run, request, now_epoch_ms),
            },
    {
        if !validate_targets(&request.targets) {
            return Err(FleetPlanError::InvalidTargets);
        }
        let n = request.stages.len();
        if n == 0 || n > MAX_FLEET_STAGES {
            return Err(FleetPlanError::InvalidStages);
        }
        let mut known_stages: Vec<u128> = Vec::new();
        for i in 0..n
            invariant
                n == request.stages@.len(),
                known_stages@ == draft_stage_ids(request.stages@.take(i as int)),
        {
            known_stages.push(request.stages[i].id);
            proof {
                assert(draft_stage_ids(request.stages@.take(i + 1)) =~= draft_stage_ids(
                    request.stages@.take(i as int),
                ).push(request.stages@[i as int].id));
            }
        }
        proof {
            assert(request.stages@.take(n as int) =~= request.stages@);
        }
        if !distinct_ids(&known_stages) {
            return Err(FleetPlanError::InvalidStages);
        }
        let known_targets = collect_profile_ids(&request.targets);
        let mut stages: Vec<FleetStage> = Vec::new();
        for i in 0..n
            invariant
                n == request.stages@.len(),
                known_stages@ == draft_stage_ids(request.stages@),
                known_targets@ == profile_ids(request.targets@),
                targets_valid(request.targets@),
                0 < n <= MAX_FLEET_STAGES,
                known_stages@.no_duplicates(),
                first_stage_error(
                    request.stages@,
                    request.production,
                    known_targets@,
                    known_stages@,
                    i as int,
                ) is None,
                stages@.len() == i,
                stage_views(stages@) == planned_stages(request.stages@.take(i as int)),
        {
            let d = &request.stages[i];
            let summary = trimmed_text(&d.summary);
            match check_stage_draft(d, request.production, &known_targets, &known_stages, &summary) {
                Some(e) => {
                    proof {
                        lemma_first_error_stable(
                            request.stages@,
                            request.production,
                            known_targets@,
                            known_stages@,
                            i + 1,
                            n as int,
                        );
                    }
                    return Err(e);
                },
                None => {},
            }
            let target_ids = d.target_ids.clone();
            let depends_on = d.depends_on.clone();
            proof {
                assert(target_ids@ =~= d.target_ids@);
                assert(depends_on@ =~= d.depends_on@);
            }
            let ghost before = stages@;
            stages.push(
                FleetStage {
                    id: d.id,
                    summary,
                    target_ids,
                    depends_on,
                    execution_strategy: d.execution_strategy,
                    concurrency_limit: d.concurrency_limit,
                    state: FleetStageStateV2::Pending,
                },
            );
            proof {
                assert(stages@ == before.push(stages@[i as int]));
                assert(stages@[i as int]@ == planned_stage(request.stages@[i as int]));
                assert(request.stages@.take(i + 1) =~= request.stages@.take(i as int).push(request.stages@[i as int]));
                assert(stage_views(stages@) =~= stage_views(before).push(stages@[i as int]@));
                assert(planned_stages(request.stages@.take(i + 1)) =~= planned_stages(request.stages@.take(i as int)).push(planned_stage(request.stages@[i as int])));
            }
        }
        proof {
            assert(request.stages@.take(n as int) =~= request.stages@);
        }
        if !validate_acyclic(&stages) {
            return Err(FleetPlanError::DependencyCycle);
        }
        let json = graph_json_text(request.production, request.failure_policy, &request.targets, &stages);
        let text = string_from_chars(json.as_slice());
        let byte_len = text.as_str().as_bytes().len();
        if byte_len as u64 > SHA256_MAX_INPUT_BYTES {
            return Err(FleetPlanError::InvalidStages);
        }
        let graph_digest = sha256_hex(text.as_str());
        let FleetRunDraft { production, failure_policy, targets, stages: _ } = request;
        Ok(
            FleetRunV2 {
                id: new_id(),
                version: 1,
                state: FleetRunStateV2::Draft,
                production,
                failure_policy,
                targets,
                stages,
                children: Vec::new(),
                graph_digest,
                recovery_state: FleetRecoveryStateV2::Live,
                created_at_epoch_ms: now_epoch_ms,
                updated_at_epoch_ms: now_epoch_ms,
            },
        )
    }

    /// Validated state change: a live run moves along the table, stamping the
    /// time; otherwise nothing changes.
    pub fn transition_to(&mut self, next: FleetRunStateV2, now_epoch_ms: u64) -> (r: Result<(), FleetPlanError>)
        ensures
            run_can_move(*old(self), next) ==> r is Ok && *final(self) == moved_to(*old(self), next, now_epoch_ms),
            !run_can_move(*old(self), next) ==> r == Err::<(), FleetPlanError>(FleetPlanError::InvalidTransition)
                && *final(self) == *old(self),
    {
        if self.recovery_state != FleetRecoveryStateV2::Live || !self.state.can_transition_to(next) {
            return Err(FleetPlanError::InvalidTransition);
        }
        self.state = next;
        self.updated_at_epoch_ms = now_epoch_ms;
        Ok(())
    }
}

proof fn lemma_first_error_stable(
    drafts: Seq<FleetStageDraft>,
    production: bool,
    known_targets: Seq<u128>,
    known_stages: Seq<u128>,
    k: int,
    m: int,
)
    requires
        0 <= k <= m,
        first_stage_error(drafts, production, known_targets, known_stages, k) is Some,
    ensures
        first_stage_error(drafts, production, known_targets, known_stages, m) == first_stage_error(
            drafts,
            production,
            known_targets,
            known_stages,
            k,
        ),
    decreases m - k,
{
    if k < m {
        lemma_first_error_stable(drafts, production, known_targets, known_stages, k, m - 1);
    }
}

/// A hexadecimal digit character.
pub open spec fn is_hex_digit(c: char) -> bool {
    ('0' <= c && c <= '9') || ('a' <= c && c <= 'f') || ('A' <= c && c <= 'F')
}

/// A well-formed digest text: 64 hexadecimal digits.
pub open spec fn digest_well_formed(d: Seq<char>) -> bool {
    d.len() == 64 && forall|i: int| 0 <= i < d.len() ==> is_hex_digit(#[trigger] d[i])
}

/// A stable error code: 1 to 96 characters, each an upper-case ASCII letter
/// or `_` (all ASCII, so this is also its byte length).
pub open spec fn error_code_acceptable(code: Seq<char>) -> bool {
    0 < code.len() <= 96 && forall|i: int|
        0 <= i < code.len() ==> ('A' <= #[trigger] code[i] && code[i] <= 'Z') || code[i] == '_'
}

/// Whether `code` is a stable error code.
pub fn error_code_ok(code: &String) -> (r: bool)
    ensures
        r == error_code_acceptable(code@),
{
    let chars = chars_of(code.as_str());
    let n = chars.len();
    if n == 0 || n > 96 {
        return false;
    }
    for i in 0..n
        invariant
            n == chars@.len(),
            chars@ == code@,
            forall|j: int| 0 <= j < i ==> ('A' <= #[trigger] chars@[j] && chars@[j] <= 'Z') || chars@[j] == '_',
    {
        let c = chars[i];
        if !(('A' <= c && c <= 'Z') || c == '_') {
            return false;
        }
    }
    true
}

fn digest_ok(d: &String) -> (r: bool)
    ensures
        r == digest_well_formed(d@),
{
    let chars = chars_of(d.as_str());
    let n = chars.len();
    if n != 64 {
        return false;
    }
    for i in 0..n
        invariant
            n == chars@.len(),
            chars@ == d@,
            forall|j: int| 0 <= j < i ==> is_hex_digit(#[trigger] chars@[j]),
    {
        let c = chars[i];
        if !(('0' <= c && c <= '9') || ('a' <= c && c <= 'f') || ('A' <= c && c <= 'F')) {
            return false;
        }
    }
    true
}

/// The rule a recovered stage breaks, if any.
pub open spec fn stage_meta_error(
    s: StageView,
    production: bool,
    known_targets: Seq<u128>,
    known_stages: Seq<u128>,
) -> Option<FleetPlanError> {
    if s.target_ids.len() == 0 || !s.target_ids.no_duplicates() || !all_in(s.target_ids, known_targets)
        || !s.depends_on.no_duplicates() || s.depends_on.contains(s.id) || !all_in(
        s.depends_on,
        known_stages,
    ) || s.concurrency_limit == 0 || s.concurrency_limit > s.target_ids.len() || (
    s.execution_strategy is Sequential && s.concurrency_limit != 1) {
        Some(FleetPlanError::InvalidStages)
    } else if production && s.execution_strategy is Parallel {
        Some(FleetPlanError::ProductionParallel)
    } else {
        None
    }
}

/// The first error among the first `k` recovered stages, in order.
pub open spec fn first_meta_stage_error(
    stages: Seq<StageView>,
    production: bool,
    known_targets: Seq<u128>,
    known_stages: Seq<u128>,
    k: int,
) -> Option<FleetPlanError>
    decreases k,
{
    if k <= 0 {
        None
    } else {
        match first_meta_stage_error(stages, production, known_targets, known_stages, k - 1) {
            Some(e) => Some(e),
            None => stage_meta_error(stages[k - 1], production, known_targets, known_stages),
        }
    }
}

/// Child `k` is well formed: its stage and target exist, its attempt is
/// positive, no earlier child has the same stage, target and attempt, and its
/// error code, if any, is a stable code.
pub open spec fn child_well_formed(
    children: Seq<FleetChildRun>,
    k: int,
    known_stages: Seq<u128>,
    known_targets: Seq<u128>,
) -> bool {
    let c = children[k];
    &&& known_stages.contains(c.stage_id)
    &&& known_targets.contains(c.target_id)
    &&& c.attempt != 0
    &&& forall|j: int|
        0 <= j < k ==> !((#[trigger] children[j]).stage_id == c.stage_id && children[j].target_id
            == c.target_id && children[j].attempt == c.attempt)
    &&& match c.error_code {
        Some(code) => error_code_acceptable(code@),
        None => true,
    }
}

/// Why recovered metadata is not a consistent fleet run, checked in order;
/// `None` when it is.
pub open spec fn metadata_error(run: FleetRunV2) -> Option<FleetPlanError> {
    let known_targets = profile_ids(run.targets@);
    let known_stages = stage_ids(run.stages@);
    if !targets_valid(run.targets@) {
        Some(FleetPlanError::InvalidTargets)
    } else if run.stages@.len() == 0 || run.stages@.len() > MAX_FLEET_STAGES {
        Some(FleetPlanError::InvalidStages)
    } else if !known_stages.no_duplicates() || !digest_well_formed(run.graph_digest@) {
        Some(FleetPlanError::InvalidStages)
    } else {
        match first_meta_stage_error(
            stage_views(run.stages@),
            run.production,
            known_targets,
            known_stages,
            run.stages@.len() as int,
        ) {
            Some(e) => Some(e),
            None => if !acyclic(stage_views(run.stages@)) {
                Some(FleetPlanError::DependencyCycle)
            } else if exists|k: int|
                0 <= k < run.children@.len() && !#[trigger] child_well_formed(
                    run.children@,
                    k,
                    known_stages,
                    known_targets,
                ) {
                Some(FleetPlanError::InvalidStages)
            } else {
                None
            },
        }
    }
}

fn collect_stage_ids(stages: &Vec<FleetStage>) -> (r: Vec<u128>)
    ensures
        r@ == stage_ids(stages@),
{
    let mut out: Vec<u128> = Vec::new();
    let n = stages.len();
    for i in 0..n
        invariant
            n == stages@.len(),
            out@ == stage_ids(stages@.take(i as int)),
    {
        out.push(stages[i].id);
        proof {
            assert(stage_ids(stages@.take(i + 1)) =~= stage_ids(stages@.take(i as int)).push(
                stages@[i as int].id,
            ));
        }
    }
    proof {
        assert(stages@.take(n as int) =~= stages@);
    }
    out
}

fn check_stage_meta(
    s: &FleetStage,
    production: bool,
    known_targets: &Vec<u128>,
    known_stages: &Vec<u128>,
) -> (r: Option<FleetPlanError>)
    ensures
        r == stage_meta_error(s@, production, known_targets@, known_stages@),
{
    if s.target_ids.len() == 0 || !distinct_ids(&s.target_ids) || !all_known(&s.target_ids, known_targets)
        || !distinct_ids(&s.depends_on) || contains_id(&s.depends_on, s.id) || !all_known(
        &s.depends_on,
        known_stages,
    ) || s.concurrency_limit == 0 || s.concurrency_limit > s.target_ids.len() || (
    s.execution_strategy == FleetExecutionStrategyV2::Sequential && s.concurrency_limit != 1) {
        return Some(FleetPlanError::InvalidStages);
    }
    if production && s.execution_strategy == FleetExecutionStrategyV2::Parallel {
        return Some(FleetPlanError::ProductionParallel);
    }
    None
}

fn check_child(
    children: &Vec<FleetChildRun>,
    k: usize,
    known_stages: &Vec<u128>,
    known_targets: &Vec<u128>,
) -> (r: bool)
    requires
        k < children@.len(),
    ensures
        r == child_well_formed(children@, k as int, known_stages@, known_targets@),
{
    let c = &children[k];
    if !contains_id(known_stages, c.stage_id) || !contains_id(known_targets, c.target_id) || c.attempt
        == 0 {
        return false;
    }
    for j in 0..k
        invariant
            k < children@.len(),
            c == &children@[k as int],
            forall|i: int|
                0 <= i < j ==> !((#[trigger] children@[i]).stage_id == c.stage_id
                    && children@[i].target_id == c.target_id && children@[i].attempt == c.attempt),
    {
        if children[j].stage_id == c.stage_id && children[j].target_id == c.target_id
            && children[j].attempt == c.attempt {
            return false;
        }
    }
    match &c.error_code {
        Some(code) => error_code_ok(code),
        None => true,
    }
}

proof fn lemma_first_meta_error_stable(
    stages: Seq<StageView>,
    production: bool,
    known_targets: Seq<u128>,
    known_stages: Seq<u128>,
    k: int,
    m: int,
)
    requires
        0 <= k <= m,
        first_meta_stage_error(stages, production, known_targets, known_stages, k) is Some,
    ensures
        first_meta_stage_error(stages, production, known_targets, known_stages, m)
            == first_meta_stage_error(stages, production, known_targets, known_stages, k),
    decreases m - k,
{
    if k < m {
        lemma_first_meta_error_stable(stages, production, known_targets, known_stages, k, m - 1);
    }
}

impl FleetRunV2 {
    /// Checks that recovered metadata is a consistent fleet run: valid
    /// targets, a bounded, acyclic, well-formed stage graph, a well-formed
    /// digest, and unique well-formed children.
    pub fn validate_metadata(&self) -> (r: Result<(), FleetPlanError>)
        ensures
            match metadata_error(*self) {
                Some(e) => r == Err::<(), FleetPlanError>(e),
                None => r is Ok,
            },
    {
        if !validate_targets(&self.targets) {
            return Err(FleetPlanError::InvalidTargets);
        }
        let n = self.stages.len();
        if n == 0 || n > MAX_FLEET_STAGES {
            return Err(FleetPlanError::InvalidStages);
        }
        let known_stages = collect_stage_ids(&self.stages);
        if !distinct_ids(&known_stages) || !digest_ok(&self.graph_digest) {
            return Err(FleetPlanError::InvalidStages);
        }
        let known_targets = collect_profile_ids(&self.targets);
        let ghost sv = stage_views(self.stages@);
        for i in 0..n
            invariant
                n == self.stages@.len(),
                sv == stage_views(self.stages@),
                known_stages@ == stage_ids(self.stages@),
                known_targets@ == profile_ids(self.targets@),
                first_meta_stage_error(sv, self.production, known_targets@, known_stages@, i as int) is None,
                targets_valid(self.targets@),
                0 < n <= MAX_FLEET_STAGES,
                known_stages@.no_duplicates(),
                digest_well_formed(self.graph_digest@),
        {
            match check_stage_meta(&self.stages[i], self.production, &known_targets, &known_stages) {
                Some(e) => {
                    proof {
                        assert(sv[i as int] == self.stages@[i as int]@);
                        lemma_first_meta_error_stable(
                            sv,
                            self.production,
                            known_targets@,
                            known_stages@,
                            i + 1,
                            n as int,
                        );
                    }
                    return Err(e);
                },
                None => {
                    proof {
                        assert(sv[i as int] == self.stages@[i as int]@);
                    }
                },
            }
        }
        if !validate_acyclic(&self.stages) {
            return Err(FleetPlanError::DependencyCycle);
        }
        let m = self.children.len();
        for k in 0..m
            invariant
                m == self.children@.len(),
                known_stages@ == stage_ids(self.stages@),
                known_targets@ == profile_ids(self.targets@),
                n == self.stages@.len(),
                first_meta_stage_error(stage_views(self.stages@), self.production, known_targets@, known_stages@, n as int) is None,
                acyclic(stage_views(self.stages@)),
                targets_valid(self.targets@),
                0 < n <= MAX_FLEET_STAGES,
                known_stages@.no_duplicates(),
                digest_well_formed(self.graph_digest@),
                forall|j: int|
                    0 <= j < k ==> #[trigger] child_well_formed(
                        self.children@,
                        j,
                        known_stages@,
                        known_targets@,
                    ),
        {
            if !check_child(&self.children, k, &known_stages, &known_targets) {
                return Err(FleetPlanError::InvalidStages);
            }
        }
        Ok(())
    }
}

/// A finished fleet run never moves again.
pub proof fn lemma_fleet_terminal_states_are_final(s: FleetRunStateV2, next: FleetRunStateV2)
    requires
        fleet_is_terminal(s),
    ensures
        !fleet_step(s, next),
{
}

/// A fleet run that has not finished can always be cancelled, failed or
/// interrupted.
pub proof fn lemma_fleet_stop_always_possible(s: FleetRunStateV2)
    requires
        !fleet_is_terminal(s),
    ensures
        fleet_step(s, FleetRunStateV2::Cancelled),
        fleet_step(s, FleetRunStateV2::Failed),
        fleet_step(s, FleetRunStateV2::Interrupted),
{
}

/// A fleet run recovered as metadata only can never change state.
pub proof fn lemma_recovered_runs_never_move(run: FleetRunV2, next: FleetRunStateV2)
    requires
        run.recovery_state is MetadataOnly,
    ensures
        !run_can_move(run, next),
{
}

/// Approval is the only way from a plan to execution: execution is entered
/// only from an approved, awaiting-approval, paused or already executing
/// run.
pub proof fn lemma_execution_follows_approval(s: FleetRunStateV2)
    requires
        fleet_step(s, FleetRunStateV2::Executing),
    ensures
        s is AwaitingApproval || s is Approved || s is PausedForReview,
{
}


/// Every move of the documented fleet lifecycle is allowed, one by one, so a
/// fleet run can go from draft through validation, investigation, planning,
/// approval and execution to verification and success, be paused for
/// review and resumed, or be rolled back; and any fleet run that has not
/// finished can be cancelled, failed or interrupted.
pub proof fn lemma_documented_fleet_transitions(from: FleetRunStateV2)
    ensures
        fleet_step(FleetRunStateV2::Draft, FleetRunStateV2::ValidatingTargets),
        fleet_step(FleetRunStateV2::ValidatingTargets, FleetRunStateV2::Investigating),
        fleet_step(FleetRunStateV2::Investigating, FleetRunStateV2::Planning),
        fleet_step(FleetRunStateV2::Investigating, FleetRunStateV2::PausedForReview),
        fleet_step(FleetRunStateV2::Planning, FleetRunStateV2::AwaitingApproval),
        fleet_step(FleetRunStateV2::Planning, FleetRunStateV2::PausedForReview),
        fleet_step(FleetRunStateV2::AwaitingApproval, FleetRunStateV2::Executing),
        fleet_step(FleetRunStateV2::AwaitingApproval, FleetRunStateV2::Planning),
        fleet_step(FleetRunStateV2::Executing, FleetRunStateV2::Verifying),
        fleet_step(FleetRunStateV2::Executing, FleetRunStateV2::PausedForReview),
        fleet_step(FleetRunStateV2::Executing, FleetRunStateV2::RollingBack),
        fleet_step(FleetRunStateV2::Verifying, FleetRunStateV2::Succeeded),
        fleet_step(FleetRunStateV2::Verifying, FleetRunStateV2::PausedForReview),
        fleet_step(FleetRunStateV2::Verifying, FleetRunStateV2::RollingBack),
        fleet_step(FleetRunStateV2::PausedForReview, FleetRunStateV2::Investigating),
        fleet_step(FleetRunStateV2::PausedForReview, FleetRunStateV2::Planning),
        fleet_step(FleetRunStateV2::PausedForReview, FleetRunStateV2::Executing),
        fleet_step(FleetRunStateV2::PausedForReview, FleetRunStateV2::RollingBack),
        fleet_step(FleetRunStateV2::RollingBack, FleetRunStateV2::RolledBack),
        fleet_step(FleetRunStateV2::RollingBack, FleetRunStateV2::RollbackFailed),
        !(from is Succeeded || from is Failed || from is RolledBack || from is RollbackFailed
            || from is Interrupted || from is Cancelled) ==> fleet_step(from, FleetRunStateV2::Cancelled)
            && fleet_step(from, FleetRunStateV2::Failed) && fleet_step(from, FleetRunStateV2::Interrupted),
{
}

} // verus!
