//! Fleet approval: it never authorizes a shell command directly; it seals
//! one validated orchestration graph (run, version, digest, exact targets)
//! under one policy.
use vstd::prelude::*;
use crate::fleet_run::{FleetPlanError, FleetRecoveryStateV2, FleetRunStateV2, FleetRunV2, moved_to};
use crate::fleet_target::{FleetTargetBinding, clone_bindings, same_bindings, target_views};
use crate::ids::new_id;

verus! {

pub const FLEET_APPROVAL_GRAPH_CHANGED: &'static str = "FLEET_APPROVAL_GRAPH_CHANGED";
pub const FLEET_APPROVAL_TARGETS_CHANGED: &'static str = "FLEET_APPROVAL_TARGETS_CHANGED";
pub const FLEET_APPROVAL_POLICY_CHANGED: &'static str = "FLEET_APPROVAL_POLICY_CHANGED";
pub const FLEET_APPROVAL_NOT_PENDING: &'static str = "FLEET_APPROVAL_NOT_PENDING";
pub const FLEET_APPROVAL_RECOVERED: &'static str = "FLEET_APPROVAL_RECOVERED";

#[derive(Clone, Copy, Debug, PartialEq, Eq, Structural)]
pub enum FleetApprovalStateV2 {
    Pending,
    Granted,
    Rejected,
    Invalidated,
}

#[derive(Clone, Debug, PartialEq, Eq)]
pub struct FleetApprovalV2 {
    pub id: u128,
    pub fleet_run_id: u128,
    pub fleet_version: u64,
    pub graph_digest: String,
    pub targets: Vec<FleetTargetBinding>,
    pub policy_version: u64,
    pub policy_hash: String,
    pub state: FleetApprovalStateV2,
    pub invalidation_code: Option<String>,
    pub created_at_epoch_ms: u64,
    pub decided_at_epoch_ms: Option<u64>,
}

#[derive(Clone, Copy, Debug, PartialEq, Eq, Structural)]
pub enum FleetEventKindV2 {
    DraftCreated,
    ApprovalRequired,
    ApprovalGranted,
    ApprovalRejected,
    ApprovalInvalidated,
    ChildClaimed,
    StateChanged,
    RecoveryInterrupted,
}

#[derive(Clone, Debug)]
pub struct FleetEventEnvelopeV2 {
    pub fleet_run_id: u128,
    pub seq: u64,
    pub timestamp_ms: u64,
    pub kind: FleetEventKindV2,
    pub state: FleetRunStateV2,
    pub approval_id: Option<u128>,
    pub code: Option<String>,
}

/// The approval still seals exactly this run: same run, version, digest and
/// targets.
pub open spec fn seals_graph(approval: FleetApprovalV2, run: FleetRunV2) -> bool {
    &&& approval.fleet_run_id == run.id
    &&& approval.fleet_version == run.version
    &&& approval.graph_digest@ == run.graph_digest@
    &&& target_views(approval.targets@) == target_views(run.targets@)
}

/// Why a pending approval cannot be decided against `run` under the current
/// policy, checked in order; `None` when it can.
pub open spec fn fleet_approval_verdict(
    approval: FleetApprovalV2,
    run: FleetRunV2,
    policy_version: u64,
    policy_hash: Seq<char>,
) -> Option<Seq<char>> {
    if !(approval.state is Pending) {
        Some(FLEET_APPROVAL_NOT_PENDING@)
    } else if !(run.recovery_state is Live) {
        Some(FLEET_APPROVAL_RECOVERED@)
    } else if !(run.state is AwaitingApproval) {
        Some(FLEET_APPROVAL_GRAPH_CHANGED@)
    } else if approval.fleet_run_id != run.id || approval.fleet_version != run.version
        || approval.graph_digest@ != run.graph_digest@ {
        Some(FLEET_APPROVAL_GRAPH_CHANGED@)
    } else if target_views(approval.targets@) != target_views(run.targets@) {
        Some(FLEET_APPROVAL_TARGETS_CHANGED@)
    } else if approval.policy_version != policy_version || approval.policy_hash@ != policy_hash {
        Some(FLEET_APPROVAL_POLICY_CHANGED@)
    } else {
        None
    }
}

impl FleetApprovalV2 {
    /// A pending approval sealing a live run that awaits approval.
    pub fn bind(run: &FleetRunV2, policy_version: u64, policy_hash: String, now_epoch_ms: u64) -> (r: Result<
        FleetApprovalV2,
        &'static str,
    >)
        ensures
            !(run.recovery_state is Live && run.state is AwaitingApproval) ==> (r matches Err(code)
                && code@ == FLEET_APPROVAL_RECOVERED@),
            run.recovery_state is Live && run.state is AwaitingApproval ==> (r matches Ok(a) && {
                &&& seals_graph(a, *run)
                &&& a.policy_version == policy_version
                &&& a.policy_hash@ == policy_hash@
                &&& a.state is Pending
                &&& a.invalidation_code is None
                &&& a.created_at_epoch_ms == now_epoch_ms
                &&& a.decided_at_epoch_ms is None
            }),
    {
        if run.recovery_state != FleetRecoveryStateV2::Live || run.state
            != FleetRunStateV2::AwaitingApproval {
            return Err(FLEET_APPROVAL_RECOVERED);
        }
        Ok(
            FleetApprovalV2 {
                id: new_id(),
                fleet_run_id: run.id,
                fleet_version: run.version,
                graph_digest: run.graph_digest.clone(),
                targets: clone_bindings(&run.targets),
                policy_version,
                policy_hash,
                state: FleetApprovalStateV2::Pending,
                invalidation_code: None,
                created_at_epoch_ms: now_epoch_ms,
                decided_at_epoch_ms: None,
            },
        )
    }

    /// Checks the approval against the run and the current policy.
    pub fn validate(&self, run: &FleetRunV2, policy_version: u64, policy_hash: &str) -> (r: Result<
        (),
        &'static str,
    >)
        ensures
            match fleet_approval_verdict(*self, *run, policy_version, policy_hash@) {
                None => r is Ok,
                Some(code) => r matches Err(c) && c@ == code,
            },
    {
        if self.state != FleetApprovalStateV2::Pending {
            return Err(FLEET_APPROVAL_NOT_PENDING);
        }
        if run.recovery_state != FleetRecoveryStateV2::Live {
            return Err(FLEET_APPROVAL_RECOVERED);
        }
        if run.state != FleetRunStateV2::AwaitingApproval {
            return Err(FLEET_APPROVAL_GRAPH_CHANGED);
        }
        if self.fleet_run_id != run.id || self.fleet_version != run.version || self.graph_digest
            != run.graph_digest {
            return Err(FLEET_APPROVAL_GRAPH_CHANGED);
        }
        if !same_bindings(&self.targets, &run.targets) {
            return Err(FLEET_APPROVAL_TARGETS_CHANGED);
        }
        if self.policy_version != policy_version || !crate::text::text_eq(
            self.policy_hash.as_str(),
            policy_hash,
        ) {
            return Err(FLEET_APPROVAL_POLICY_CHANGED);
        }
        Ok(())
    }

    /// Records the decision and its time.
    pub fn decide(&mut self, state: FleetApprovalStateV2, now_epoch_ms: u64)
        ensures
            *final(self) == (FleetApprovalV2 {
                state,
                decided_at_epoch_ms: Some(now_epoch_ms),
                ..*old(self)
            }),
    {
        self.state = state;
        self.decided_at_epoch_ms = Some(now_epoch_ms);
    }

    /// Invalidates the approval with a stable code and its time.
    pub fn invalidate(&mut self, code: &'static str, now_epoch_ms: u64)
        ensures
            final(self).state is Invalidated,
            final(self).invalidation_code matches Some(c) && c@ == code@,
            final(self).decided_at_epoch_ms == Some(now_epoch_ms),
            final(self).id == old(self).id,
            final(self).fleet_run_id == old(self).fleet_run_id,
            final(self).fleet_version == old(self).fleet_version,
            final(self).graph_digest == old(self).graph_digest,
            final(self).targets == old(self).targets,
            final(self).policy_version == old(self).policy_version,
            final(self).policy_hash == old(self).policy_hash,
            final(self).created_at_epoch_ms == old(self).created_at_epoch_ms,
    {
        self.state = FleetApprovalStateV2::Invalidated;
        self.invalidation_code = Some(code.to_owned());
        self.decided_at_epoch_ms = Some(now_epoch_ms);
    }
}

/// Why a fleet approval step was refused.
#[derive(Clone, Copy, Debug, PartialEq, Eq, Structural)]
pub enum FleetApprovalStepError {
    /// The run is stale, recovered, or not the approval's run.
    InvalidOperation,
    /// The state machine refused a move.
    Plan(FleetPlanError),
}

/// Requests approval of a live draft at the expected version: the run moves
/// through target validation, investigation and planning to awaiting
/// approval, and a pending approval sealing it is bound.
pub fn request_fleet_approval(
    run: &mut FleetRunV2,
    expected_version: u64,
    policy_version: u64,
    policy_hash: String,
    now_epoch_ms: u64,
) -> (r: Result<FleetApprovalV2, FleetApprovalStepError>)
    ensures
        old(run).version != expected_version || !(old(run).recovery_state is Live) ==> {
            &&& r == Err::<FleetApprovalV2, FleetApprovalStepError>(FleetApprovalStepError::InvalidOperation)
            &&& *final(run) == *old(run)
        },
        old(run).version == expected_version && old(run).recovery_state is Live && !(old(run).state is Draft)
            ==> {
            &&& r == Err::<FleetApprovalV2, FleetApprovalStepError>(
                FleetApprovalStepError::Plan(FleetPlanError::InvalidTransition),
            )
            &&& *final(run) == *old(run)
        },
        old(run).version == expected_version && old(run).recovery_state is Live && old(run).state is Draft ==> {
            &&& *final(run) == moved_to(*old(run), FleetRunStateV2::AwaitingApproval, now_epoch_ms)
            &&& r matches Ok(a)
            &&& seals_graph(a, *final(run))
            &&& a.policy_version == policy_version
            &&& a.policy_hash@ == policy_hash@
            &&& a.state is Pending
            &&& a.decided_at_epoch_ms is None
            &&& a.created_at_epoch_ms == now_epoch_ms
        },
{
    if run.version != expected_version || run.recovery_state != FleetRecoveryStateV2::Live {
        return Err(FleetApprovalStepError::InvalidOperation);
    }
    match run.transition_to(FleetRunStateV2::ValidatingTargets, now_epoch_ms) {
        Ok(()) => {},
        Err(e) => return Err(FleetApprovalStepError::Plan(e)),
    }
    match run.transition_to(FleetRunStateV2::Investigating, now_epoch_ms) {
        Ok(()) => {},
        Err(e) => return Err(FleetApprovalStepError::Plan(e)),
    }
    match run.transition_to(FleetRunStateV2::Planning, now_epoch_ms) {
        Ok(()) => {},
        Err(e) => return Err(FleetApprovalStepError::Plan(e)),
    }
    match run.transition_to(FleetRunStateV2::AwaitingApproval, now_epoch_ms) {
        Ok(()) => {},
        Err(e) => return Err(FleetApprovalStepError::Plan(e)),
    }
    match FleetApprovalV2::bind(run, policy_version, policy_hash, now_epoch_ms) {
        Ok(a) => Ok(a),
        Err(_) => Err(FleetApprovalStepError::InvalidOperation),
    }
}

/// Decides a fleet approval. A valid approval is granted (the run becomes
/// approved) or rejected (the run returns to planning). An approval that no
/// longer matches the run or the policy is invalidated with its stable code,
/// and a run that was awaiting approval returns to planning. The event kind
/// and code to record are returned.
pub fn decide_fleet_approval(
    approval: &mut FleetApprovalV2,
    run: &mut FleetRunV2,
    grant: bool,
    policy_version: u64,
    policy_hash: &str,
    now_epoch_ms: u64,
) -> (r: Result<(FleetEventKindV2, Option<&'static str>), FleetApprovalStepError>)
    ensures
        old(approval).fleet_run_id != old(run).id ==> {
            &&& r == Err::<(FleetEventKindV2, Option<&'static str>), FleetApprovalStepError>(
                FleetApprovalStepError::InvalidOperation,
            )
            &&& *final(approval) == *old(approval)
            &&& *final(run) == *old(run)
        },
        old(approval).fleet_run_id == old(run).id && fleet_approval_verdict(*old(approval), *old(run), policy_version, policy_hash@) is None ==> {
            &&& *final(approval) == (FleetApprovalV2 {
                state: if grant { FleetApprovalStateV2::Granted } else { FleetApprovalStateV2::Rejected },
                decided_at_epoch_ms: Some(now_epoch_ms),
                ..*old(approval)
            })
            &&& *final(run) == moved_to(
                *old(run),
                if grant { FleetRunStateV2::Approved } else { FleetRunStateV2::Planning },
                now_epoch_ms,
            )
            &&& r == Ok::<(FleetEventKindV2, Option<&'static str>), FleetApprovalStepError>((
                if grant { FleetEventKindV2::ApprovalGranted } else { FleetEventKindV2::ApprovalRejected },
                None,
            ))
        },
        old(approval).fleet_run_id == old(run).id && fleet_approval_verdict(*old(approval), *old(run), policy_version, policy_hash@) is Some ==> {
            let code = fleet_approval_verdict(*old(approval), *old(run), policy_version, policy_hash@)->0;
            &&& final(approval).state is Invalidated
            &&& final(approval).invalidation_code matches Some(c) && c@ == code
            &&& final(approval).decided_at_epoch_ms == Some(now_epoch_ms)
            &&& (old(run).state is AwaitingApproval && old(run).recovery_state is Live) ==> {
                &&& *final(run) == moved_to(*old(run), FleetRunStateV2::Planning, now_epoch_ms)
                &&& r is Ok
                &&& r->Ok_0.0 == FleetEventKindV2::ApprovalInvalidated
                &&& r->Ok_0.1 is Some
                &&& r->Ok_0.1->Some_0@ == code
            }
            &&& (old(run).state is AwaitingApproval && !(old(run).recovery_state is Live)) ==> {
                &&& *final(run) == *old(run)
                &&& r == Err::<(FleetEventKindV2, Option<&'static str>), FleetApprovalStepError>(
                    FleetApprovalStepError::Plan(FleetPlanError::InvalidTransition),
                )
            }
            &&& !(old(run).state is AwaitingApproval) ==> {
                &&& *final(run) == *old(run)
                &&& r is Ok
                &&& r->Ok_0.0 == FleetEventKindV2::ApprovalInvalidated
                &&& r->Ok_0.1 is Some
                &&& r->Ok_0.1->Some_0@ == code
            }
        },
{
    if approval.fleet_run_id != run.id {
        return Err(FleetApprovalStepError::InvalidOperation);
    }
    match approval.validate(run, policy_version, policy_hash) {
        Ok(()) => {
            if grant {
                approval.decide(FleetApprovalStateV2::Granted, now_epoch_ms);
                match run.transition_to(FleetRunStateV2::Approved, now_epoch_ms) {
                    Ok(()) => {},
                    Err(e) => return Err(FleetApprovalStepError::Plan(e)),
                }
                Ok((FleetEventKindV2::ApprovalGranted, None))
            } else {
                approval.decide(FleetApprovalStateV2::Rejected, now_epoch_ms);
                match run.transition_to(FleetRunStateV2::Planning, now_epoch_ms) {
                    Ok(()) => {},
                    Err(e) => return Err(FleetApprovalStepError::Plan(e)),
                }
                Ok((FleetEventKindV2::ApprovalRejected, None))
            }
        },
        Err(reason) => {
            approval.invalidate(reason, now_epoch_ms);
            if run.state == FleetRunStateV2::AwaitingApproval {
                match run.transition_to(FleetRunStateV2::Planning, now_epoch_ms) {
                    Ok(()) => {},
                    Err(e) => return Err(FleetApprovalStepError::Plan(e)),
                }
            }
            Ok((FleetEventKindV2::ApprovalInvalidated, Some(reason)))
        },
    }
}

/// The sequence number of a fleet run's next event: one after the last, or
/// one for an empty log.
pub fn next_fleet_event_seq(events: &[FleetEventEnvelopeV2]) -> (r: u64)
    requires
        events@.len() > 0 ==> events@.last().seq < u64::MAX,
    ensures
        r == (if events@.len() == 0 { 1 } else { events@.last().seq + 1 }),
{
    if events.len() == 0 {
        1
    } else {
        events[events.len() - 1].seq + 1
    }
}

/// A grant is possible only through a valid approval: whenever the decision
/// grants, the approval was pending and still sealed the run's graph,
/// targets and policy.
pub proof fn lemma_grant_requires_valid_approval(
    approval: FleetApprovalV2,
    run: FleetRunV2,
    policy_version: u64,
    policy_hash: Seq<char>,
)
    requires
        fleet_approval_verdict(approval, run, policy_version, policy_hash) is None,
    ensures
        approval.state is Pending,
        run.recovery_state is Live,
        run.state is AwaitingApproval,
        seals_graph(approval, run),
        approval.policy_version == policy_version,
        approval.policy_hash@ == policy_hash,
{
}

} // verus!
