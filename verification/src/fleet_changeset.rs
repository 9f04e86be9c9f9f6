//! Fleet change sets: the execution strategies they are drafted with, which
//! fleet runs may own them, and how a drafted change set binds one change
//! per target of the run.
use vstd::prelude::*;
use crate::fleet_run::{FleetRecoveryStateV2, FleetRunStateV2, FleetRunV2};
use crate::fleet_target::FleetTargetBinding;
use crate::text::{byte_len, trim, trimmed_chars};

verus! {

/// Longest fleet change title, in bytes.
pub const MAX_FLEET_CHANGE_TITLE_BYTES: usize = 256;

#[derive(Clone, Copy, Debug, PartialEq, Eq, Structural)]
pub enum FleetChangeExecutionStrategy {
    Sequential,
    Canary,
    RollingBatch,
    Parallel,
}

/// Why a fleet change set operation was refused.
#[derive(Clone, Copy, Debug, PartialEq, Eq, Structural)]
pub enum FleetChangeError {
    /// The run is not the live, approved parent the change set is bound to.
    InvalidOperation,
}

/// A fleet run may own change sets bound to `id` at `version`: it is that
/// run at that version, live, and approved or further along (executing,
/// verifying, or paused for review).
pub open spec fn parent_ok(run: FleetRunV2, id: u128, version: u64) -> bool {
    &&& run.id == id
    &&& run.version == version
    &&& run.recovery_state is Live
    &&& (run.state is Approved || run.state is Executing || run.state is Verifying || run.state is PausedForReview)
}

/// Checks that `run` is the live, approved parent of a change set bound to
/// `id` at `version`.
pub fn validate_parent(run: &FleetRunV2, id: u128, version: u64) -> (r: Result<(), FleetChangeError>)
    ensures
        r == (if parent_ok(*run, id, version) {
            Ok::<(), FleetChangeError>(())
        } else {
            Err(FleetChangeError::InvalidOperation)
        }),
{
    let state_ok = match run.state {
        FleetRunStateV2::Approved | FleetRunStateV2::Executing | FleetRunStateV2::Verifying
        | FleetRunStateV2::PausedForReview => true,
        _ => false,
    };
    if run.id != id || run.version != version || run.recovery_state != FleetRecoveryStateV2::Live || !state_ok {
        return Err(FleetChangeError::InvalidOperation);
    }
    Ok(())
}


/// The change requested for one target of a fleet run. Its steps are the
/// change-set service's own and stay with the caller, found again by the
/// request's position.
#[derive(Debug)]
pub struct FleetTargetChangeDraft {
    pub profile_id: u128,
    pub title: String,
}

/// A request to draft one change set per target of a fleet run.
#[derive(Debug)]
pub struct FleetChangeSetDraftRequest {
    pub fleet_run_id: u128,
    pub fleet_run_version: u64,
    pub title: String,
    pub targets: Vec<FleetTargetChangeDraft>,
    pub execution_strategy: FleetChangeExecutionStrategy,
    pub batch_size: usize,
    pub canary_count: usize,
    pub service_verification: Option<String>,
    pub cross_target_verification: bool,
}

/// The change set to draft for one target binding: in the binding's
/// session, with the title of the request at `request_index`.
#[derive(Debug)]
pub struct ChangeSetDraftTarget {
    pub session_id: u128,
    pub title: String,
    pub request_index: usize,
}

/// The profiles the requests name, in order.
pub open spec fn requested_profiles(requests: Seq<FleetTargetChangeDraft>) -> Seq<u128> {
    requests.map_values(|t: FleetTargetChangeDraft| t.profile_id)
}

/// Every binding of the run has exactly one request: as many requests as
/// bindings, no profile requested twice, and every bound profile requested.
pub open spec fn one_request_per_binding(bindings: Seq<FleetTargetBinding>, requests: Seq<FleetTargetChangeDraft>) -> bool {
    &&& requests.len() == bindings.len()
    &&& requested_profiles(requests).no_duplicates()
    &&& forall|i: int| 0 <= i < bindings.len() ==> requested_profiles(requests).contains(#[trigger] bindings[i].profile_id)
}

/// A fleet change request the run can draft: the run is its live, approved
/// parent; the title is not blank and at most `MAX_FLEET_CHANGE_TITLE_BYTES`
/// long; a production run is never changed on all targets at once; and
/// every binding has exactly one request.
pub open spec fn change_request_ok(run: FleetRunV2, request: FleetChangeSetDraftRequest) -> bool {
    &&& parent_ok(run, request.fleet_run_id, request.fleet_run_version)
    &&& trim(request.title@).len() > 0
    &&& byte_len(request.title@) <= MAX_FLEET_CHANGE_TITLE_BYTES
    &&& !(run.production && request.execution_strategy is Parallel)
    &&& one_request_per_binding(run.targets@, request.targets@)
}

/// Checks a fleet change request against its run, before any change set is
/// drafted, and binds each target binding, in run order, to its request.
pub fn check_fleet_change_request(
    run: &FleetRunV2,
    request: &FleetChangeSetDraftRequest,
) -> (r: Result<Vec<ChangeSetDraftTarget>, FleetChangeError>)
    ensures
        r is Ok <==> change_request_ok(*run, *request),
        r is Err ==> r == Err::<Vec<ChangeSetDraftTarget>, FleetChangeError>(FleetChangeError::InvalidOperation),
        r matches Ok(drafts) ==> {
            &&& drafts@.len() == run.targets@.len()
            &&& forall|i: int| 0 <= i < drafts@.len() ==> {
                let d = #[trigger] drafts@[i];
                &&& d.session_id == run.targets@[i].session_id
                &&& d.request_index < request.targets@.len()
                &&& request.targets@[d.request_index as int].profile_id == run.targets@[i].profile_id
                &&& d.title@ == request.targets@[d.request_index as int].title@
            }
        },
{
    match validate_parent(run, request.fleet_run_id, request.fleet_run_version) {
        Ok(()) => {},
        Err(e) => return Err(e),
    }
    let trimmed = trimmed_chars(request.title.as_str());
    if trimmed.len() == 0 || request.title.as_str().len() > MAX_FLEET_CHANGE_TITLE_BYTES
        || request.targets.len() != run.targets.len() {
        return Err(FleetChangeError::InvalidOperation);
    }
    if run.production && request.execution_strategy == FleetChangeExecutionStrategy::Parallel {
        return Err(FleetChangeError::InvalidOperation);
    }
    let n = request.targets.len();
    let ghost profiles = requested_profiles(request.targets@);
    // No profile is requested twice.
    let mut a: usize = 0;
    while a < n
        invariant
            n == request.targets@.len(),
            a <= n,
            profiles == requested_profiles(request.targets@),
            forall|x: int, y: int| 0 <= x < y < n && x < a ==> profiles[x] != profiles[y],
        decreases n - a,
    {
        let mut b: usize = a + 1;
        while b < n
            invariant
                n == request.targets@.len(),
                a < n,
                a + 1 <= b <= n,
                profiles == requested_profiles(request.targets@),
                forall|x: int, y: int| 0 <= x < y < n && x < a ==> profiles[x] != profiles[y],
                forall|y: int| a < y < b ==> profiles[a as int] != profiles[y],
            decreases n - b,
        {
            if request.targets[a].profile_id == request.targets[b].profile_id {
                proof {
                    assert(profiles[a as int] == profiles[b as int]);
                    assert(!profiles.no_duplicates());
                }
                return Err(FleetChangeError::InvalidOperation);
            }
            b = b + 1;
        }
        a = a + 1;
    }
    assert(profiles.no_duplicates());
    // Every binding has its request, taken in run order.
    let mut drafts: Vec<ChangeSetDraftTarget> = Vec::new();
    let mut i: usize = 0;
    while i < run.targets.len()
        invariant
            n == request.targets@.len(),
            n == run.targets@.len(),
            i <= n,
            profiles == requested_profiles(request.targets@),
            profiles.no_duplicates(),
            forall|k: int| 0 <= k < i ==> profiles.contains(#[trigger] run.targets@[k].profile_id),
            drafts@.len() == i,
            forall|k: int| 0 <= k < i ==> {
                let d = #[trigger] drafts@[k];
                &&& d.session_id == run.targets@[k].session_id
                &&& d.request_index < n
                &&& request.targets@[d.request_index as int].profile_id == run.targets@[k].profile_id
                &&& d.title@ == request.targets@[d.request_index as int].title@
            },
        decreases n - i,
    {
        let profile = run.targets[i].profile_id;
        let mut j: usize = 0;
        while j < n && request.targets[j].profile_id != profile
            invariant
                n == request.targets@.len(),
                j <= n,
                profiles == requested_profiles(request.targets@),
                forall|y: int| 0 <= y < j ==> profiles[y] != profile,
            decreases n - j,
        {
            j = j + 1;
        }
        if j == n {
            proof {
                assert(!profiles.contains(profile));
                assert(!one_request_per_binding(run.targets@, request.targets@)) by {
                    assert(run.targets@[i as int].profile_id == profile);
                }
            }
            return Err(FleetChangeError::InvalidOperation);
        }
        proof {
            assert(profiles[j as int] == profile);
        }
        drafts.push(ChangeSetDraftTarget {
            session_id: run.targets[i].session_id,
            title: request.targets[j].title.clone(),
            request_index: j,
        });
        i = i + 1;
    }
    Ok(drafts)
}

} // verus!
