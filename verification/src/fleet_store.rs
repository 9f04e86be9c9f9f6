//! The durable row form of a fleet run. Writing checks the metadata and
//! flattens the run into rows of plain values; reading turns rows back into
//! a run that is metadata only (no stage summaries, no execution authority)
//! and fails closed on anything malformed or inconsistent.
use vstd::prelude::*;
use crate::fleet_digest::{policy_name, policy_str, stage_state_name, stage_state_str, strategy_name, strategy_str};
use crate::fleet_run::{
    fleet_is_in_flight, metadata_error, FleetChildRun, FleetExecutionStrategyV2, FleetFailurePolicyV2,
    FleetRecoveryStateV2, FleetRunStateV2, FleetRunV2, FleetStage, FleetStageStateV2,
};
use crate::fleet_target::FleetTargetBinding;
use crate::encoding::uuid_text;
use crate::persistence::{
    id_list_from_json, id_list_json, parse_stored_id, parse_stored_id_list, stored_id_list_text, stored_id_text,
    uuid_from_text,
};
use crate::repository::AgentStoreError;
use crate::text::text_eq;

verus! {

/// The stable name of a `FleetRunStateV2`.
pub open spec fn run_state_name(v: FleetRunStateV2) -> Seq<char> {
    match v {
        FleetRunStateV2::Draft => "draft"@,
        FleetRunStateV2::ValidatingTargets => "validating_targets"@,
        FleetRunStateV2::Investigating => "investigating"@,
        FleetRunStateV2::Planning => "planning"@,
        FleetRunStateV2::AwaitingApproval => "awaiting_approval"@,
        FleetRunStateV2::Approved => "approved"@,
        FleetRunStateV2::Executing => "executing"@,
        FleetRunStateV2::Verifying => "verifying"@,
        FleetRunStateV2::PausedForReview => "paused_for_review"@,
        FleetRunStateV2::Succeeded => "succeeded"@,
        FleetRunStateV2::Failed => "failed"@,
        FleetRunStateV2::RollingBack => "rolling_back"@,
        FleetRunStateV2::RolledBack => "rolled_back"@,
        FleetRunStateV2::RollbackFailed => "rollback_failed"@,
        FleetRunStateV2::Interrupted => "interrupted"@,
        FleetRunStateV2::Cancelled => "cancelled"@,
    }
}

pub fn run_state_str(v: FleetRunStateV2) -> (r: &'static str)
    ensures
        r@ == run_state_name(v),
{
    match v {
        FleetRunStateV2::Draft => "draft",
        FleetRunStateV2::ValidatingTargets => "validating_targets",
        FleetRunStateV2::Investigating => "investigating",
        FleetRunStateV2::Planning => "planning",
        FleetRunStateV2::AwaitingApproval => "awaiting_approval",
        FleetRunStateV2::Approved => "approved",
        FleetRunStateV2::Executing => "executing",
        FleetRunStateV2::Verifying => "verifying",
        FleetRunStateV2::PausedForReview => "paused_for_review",
        FleetRunStateV2::Succeeded => "succeeded",
        FleetRunStateV2::Failed => "failed",
        FleetRunStateV2::RollingBack => "rolling_back",
        FleetRunStateV2::RolledBack => "rolled_back",
        FleetRunStateV2::RollbackFailed => "rollback_failed",
        FleetRunStateV2::Interrupted => "interrupted",
        FleetRunStateV2::Cancelled => "cancelled",
    }
}

/// The `FleetRunStateV2` with this stable name, if any.
pub open spec fn run_state_from_name(raw: Seq<char>) -> Option<FleetRunStateV2> {
    if raw == "draft"@ {
        Some(FleetRunStateV2::Draft)
    } else if raw == "validating_targets"@ {
        Some(FleetRunStateV2::ValidatingTargets)
    } else if raw == "investigating"@ {
        Some(FleetRunStateV2::Investigating)
    } else if raw == "planning"@ {
        Some(FleetRunStateV2::Planning)
    } else if raw == "awaiting_approval"@ {
        Some(FleetRunStateV2::AwaitingApproval)
    } else if raw == "approved"@ {
        Some(FleetRunStateV2::Approved)
    } else if raw == "executing"@ {
        Some(FleetRunStateV2::Executing)
    } else if raw == "verifying"@ {
        Some(FleetRunStateV2::Verifying)
    } else if raw == "paused_for_review"@ {
        Some(FleetRunStateV2::PausedForReview)
    } else if raw == "succeeded"@ {
        Some(FleetRunStateV2::Succeeded)
    } else if raw == "failed"@ {
        Some(FleetRunStateV2::Failed)
    } else if raw == "rolling_back"@ {
        Some(FleetRunStateV2::RollingBack)
    } else if raw == "rolled_back"@ {
        Some(FleetRunStateV2::RolledBack)
    } else if raw == "rollback_failed"@ {
        Some(FleetRunStateV2::RollbackFailed)
    } else if raw == "interrupted"@ {
        Some(FleetRunStateV2::Interrupted)
    } else if raw == "cancelled"@ {
        Some(FleetRunStateV2::Cancelled)
    } else {
        None
    }
}

/// Parses a stored `FleetRunStateV2`; an unknown name means the store is corrupt.
pub fn parse_run_state(raw: &str) -> (r: Result<FleetRunStateV2, AgentStoreError>)
    ensures
        match run_state_from_name(raw@) {
            Some(v) => r == Ok::<FleetRunStateV2, AgentStoreError>(v),
            None => r == Err::<FleetRunStateV2, AgentStoreError>(AgentStoreError::StoreCorrupt),
        },
{
    if text_eq(raw, "draft") {
        return Ok(FleetRunStateV2::Draft);
    }
    if text_eq(raw, "validating_targets") {
        return Ok(FleetRunStateV2::ValidatingTargets);
    }
    if text_eq(raw, "investigating") {
        return Ok(FleetRunStateV2::Investigating);
    }
    if text_eq(raw, "planning") {
        return Ok(FleetRunStateV2::Planning);
    }
    if text_eq(raw, "awaiting_approval") {
        return Ok(FleetRunStateV2::AwaitingApproval);
    }
    if text_eq(raw, "approved") {
        return Ok(FleetRunStateV2::Approved);
    }
    if text_eq(raw, "executing") {
        return Ok(FleetRunStateV2::Executing);
    }
    if text_eq(raw, "verifying") {
        return Ok(FleetRunStateV2::Verifying);
    }
    if text_eq(raw, "paused_for_review") {
        return Ok(FleetRunStateV2::PausedForReview);
    }
    if text_eq(raw, "succeeded") {
        return Ok(FleetRunStateV2::Succeeded);
    }
    if text_eq(raw, "failed") {
        return Ok(FleetRunStateV2::Failed);
    }
    if text_eq(raw, "rolling_back") {
        return Ok(FleetRunStateV2::RollingBack);
    }
    if text_eq(raw, "rolled_back") {
        return Ok(FleetRunStateV2::RolledBack);
    }
    if text_eq(raw, "rollback_failed") {
        return Ok(FleetRunStateV2::RollbackFailed);
    }
    if text_eq(raw, "interrupted") {
        return Ok(FleetRunStateV2::Interrupted);
    }
    if text_eq(raw, "cancelled") {
        return Ok(FleetRunStateV2::Cancelled);
    }
    Err(AgentStoreError::StoreCorrupt)
}

/// Every `FleetRunStateV2` name parses back to its value.
pub proof fn lemma_run_state_names_round_trip(v: FleetRunStateV2)
    ensures
        run_state_from_name(run_state_name(v)) == Some(v),
{
    reveal_strlit("draft");
    reveal_strlit("validating_targets");
    reveal_strlit("investigating");
    reveal_strlit("planning");
    reveal_strlit("awaiting_approval");
    reveal_strlit("approved");
    reveal_strlit("executing");
    reveal_strlit("verifying");
    reveal_strlit("paused_for_review");
    reveal_strlit("succeeded");
    reveal_strlit("failed");
    reveal_strlit("rolling_back");
    reveal_strlit("rolled_back");
    reveal_strlit("rollback_failed");
    reveal_strlit("interrupted");
    reveal_strlit("cancelled");
    match v {
        FleetRunStateV2::Draft => {
        },
        FleetRunStateV2::ValidatingTargets => {
            assert("validating_targets"@.len() != "draft"@.len());
        },
        FleetRunStateV2::Investigating => {
            assert("investigating"@.len() != "draft"@.len());
            assert("investigating"@.len() != "validating_targets"@.len());
        },
        FleetRunStateV2::Planning => {
            assert("planning"@.len() != "draft"@.len());
            assert("planning"@.len() != "validating_targets"@.len());
            assert("planning"@.len() != "investigating"@.len());
        },
        FleetRunStateV2::AwaitingApproval => {
            assert("awaiting_approval"@.len() != "draft"@.len());
            assert("awaiting_approval"@.len() != "validating_targets"@.len());
            assert("awaiting_approval"@.len() != "investigating"@.len());
            assert("awaiting_approval"@.len() != "planning"@.len());
        },
        FleetRunStateV2::Approved => {
            assert("approved"@.len() != "draft"@.len());
            assert("approved"@.len() != "validating_targets"@.len());
            assert("approved"@.len() != "investigating"@.len());
            assert("approved"@[0] != "planning"@[0]);
            assert("approved"@.len() != "awaiting_approval"@.len());
        },
        FleetRunStateV2::Executing => {
            assert("executing"@.len() != "draft"@.len());
            assert("executing"@.len() != "validating_targets"@.len());
            assert("executing"@.len() != "investigating"@.len());
            assert("executing"@.len() != "planning"@.len());
            assert("executing"@.len() != "awaiting_approval"@.len());
            assert("executing"@.len() != "approved"@.len());
        },
        FleetRunStateV2::Verifying => {
            assert("verifying"@.len() != "draft"@.len());
            assert("verifying"@.len() != "validating_targets"@.len());
            assert("verifying"@.len() != "investigating"@.len());
            assert("verifying"@.len() != "planning"@.len());
            assert("verifying"@.len() != "awaiting_approval"@.len());
            assert("verifying"@.len() != "approved"@.len());
            assert("verifying"@[0] != "executing"@[0]);
        },
        FleetRunStateV2::PausedForReview => {
            assert("paused_for_review"@.len() != "draft"@.len());
            assert("paused_for_review"@.len() != "validating_targets"@.len());
            assert("paused_for_review"@.len() != "investigating"@.len());
            assert("paused_for_review"@.len() != "planning"@.len());
            assert("paused_for_review"@[0] != "awaiting_approval"@[0]);
            assert("paused_for_review"@.len() != "approved"@.len());
            assert("paused_for_review"@.len() != "executing"@.len());
            assert("paused_for_review"@.len() != "verifying"@.len());
        },
        FleetRunStateV2::Succeeded => {
            assert("succeeded"@.len() != "draft"@.len());
            assert("succeeded"@.len() != "validating_targets"@.len());
            assert("succeeded"@.len() != "investigating"@.len());
            assert("succeeded"@.len() != "planning"@.len());
            assert("succeeded"@.len() != "awaiting_approval"@.len());
            assert("succeeded"@.len() != "approved"@.len());
            assert("succeeded"@[0] != "executing"@[0]);
            assert("succeeded"@[0] != "verifying"@[0]);
            assert("succeeded"@.len() != "paused_for_review"@.len());
        },
        FleetRunStateV2::Failed => {
            assert("failed"@.len() != "draft"@.len());
            assert("failed"@.len() != "validating_targets"@.len());
            assert("failed"@.len() != "investigating"@.len());
            assert("failed"@.len() != "planning"@.len());
            assert("failed"@.len() != "awaiting_approval"@.len());
            assert("failed"@.len() != "approved"@.len());
            assert("failed"@.len() != "executing"@.len());
            assert("failed"@.len() != "verifying"@.len());
            assert("failed"@.len() != "paused_for_review"@.len());
            assert("failed"@.len() != "succeeded"@.len());
        },
        FleetRunStateV2::RollingBack => {
            assert("rolling_back"@.len() != "draft"@.len());
            assert("rolling_back"@.len() != "validating_targets"@.len());
            assert("rolling_back"@.len() != "investigating"@.len());
            assert("rolling_back"@.len() != "planning"@.len());
            assert("rolling_back"@.len() != "awaiting_approval"@.len());
            assert("rolling_back"@.len() != "approved"@.len());
            assert("rolling_back"@.len() != "executing"@.len());
            assert("rolling_back"@.len() != "verifying"@.len());
            assert("rolling_back"@.len() != "paused_for_review"@.len());
            assert("rolling_back"@.len() != "succeeded"@.len());
            assert("rolling_back"@.len() != "failed"@.len());
        },
        FleetRunStateV2::RolledBack => {
            assert("rolled_back"@.len() != "draft"@.len());
            assert("rolled_back"@.len() != "validating_targets"@.len());
            assert("rolled_back"@.len() != "investigating"@.len());
            assert("rolled_back"@.len() != "planning"@.len());
            assert("rolled_back"@.len() != "awaiting_approval"@.len());
            assert("rolled_back"@.len() != "approved"@.len());
            assert("rolled_back"@.len() != "executing"@.len());
            assert("rolled_back"@.len() != "verifying"@.len());
            assert("rolled_back"@.len() != "paused_for_review"@.len());
            assert("rolled_back"@.len() != "succeeded"@.len());
            assert("rolled_back"@.len() != "failed"@.len());
            assert("rolled_back"@.len() != "rolling_back"@.len());
        },
        FleetRunStateV2::RollbackFailed => {
            assert("rollback_failed"@.len() != "draft"@.len());
            assert("rollback_failed"@.len() != "validating_targets"@.len());
            assert("rollback_failed"@.len() != "investigating"@.len());
            assert("rollback_failed"@.len() != "planning"@.len());
            assert("rollback_failed"@.len() != "awaiting_approval"@.len());
            assert("rollback_failed"@.len() != "approved"@.len());
            assert("rollback_failed"@.len() != "executing"@.len());
            assert("rollback_failed"@.len() != "verifying"@.len());
            assert("rollback_failed"@.len() != "paused_for_review"@.len());
            assert("rollback_failed"@.len() != "succeeded"@.len());
            assert("rollback_failed"@.len() != "failed"@.len());
            assert("rollback_failed"@.len() != "rolling_back"@.len());
            assert("rollback_failed"@.len() != "rolled_back"@.len());
        },
        FleetRunStateV2::Interrupted => {
            assert("interrupted"@.len() != "draft"@.len());
            assert("interrupted"@.len() != "validating_targets"@.len());
            assert("interrupted"@.len() != "investigating"@.len());
            assert("interrupted"@.len() != "planning"@.len());
            assert("interrupted"@.len() != "awaiting_approval"@.len());
            assert("interrupted"@.len() != "approved"@.len());
            assert("interrupted"@.len() != "executing"@.len());
            assert("interrupted"@.len() != "verifying"@.len());
            assert("interrupted"@.len() != "paused_for_review"@.len());
            assert("interrupted"@.len() != "succeeded"@.len());
            assert("interrupted"@.len() != "failed"@.len());
            assert("interrupted"@.len() != "rolling_back"@.len());
            assert("interrupted"@[0] != "rolled_back"@[0]);
            assert("interrupted"@.len() != "rollback_failed"@.len());
        },
        FleetRunStateV2::Cancelled => {
            assert("cancelled"@.len() != "draft"@.len());
            assert("cancelled"@.len() != "validating_targets"@.len());
            assert("cancelled"@.len() != "investigating"@.len());
            assert("cancelled"@.len() != "planning"@.len());
            assert("cancelled"@.len() != "awaiting_approval"@.len());
            assert("cancelled"@.len() != "approved"@.len());
            assert("cancelled"@[0] != "executing"@[0]);
            assert("cancelled"@[0] != "verifying"@[0]);
            assert("cancelled"@.len() != "paused_for_review"@.len());
            assert("cancelled"@[0] != "succeeded"@[0]);
            assert("cancelled"@.len() != "failed"@.len());
            assert("cancelled"@.len() != "rolling_back"@.len());
            assert("cancelled"@.len() != "rolled_back"@.len());
            assert("cancelled"@.len() != "rollback_failed"@.len());
            assert("cancelled"@.len() != "interrupted"@.len());
        },
    }
}

/// The `FleetStageStateV2` with this stable name, if any.
pub open spec fn stage_state_from_name(raw: Seq<char>) -> Option<FleetStageStateV2> {
    if raw == "pending"@ {
        Some(FleetStageStateV2::Pending)
    } else if raw == "ready"@ {
        Some(FleetStageStateV2::Ready)
    } else if raw == "running"@ {
        Some(FleetStageStateV2::Running)
    } else if raw == "awaiting_approval"@ {
        Some(FleetStageStateV2::AwaitingApproval)
    } else if raw == "verifying"@ {
        Some(FleetStageStateV2::Verifying)
    } else if raw == "succeeded"@ {
        Some(FleetStageStateV2::Succeeded)
    } else if raw == "failed"@ {
        Some(FleetStageStateV2::Failed)
    } else if raw == "blocked"@ {
        Some(FleetStageStateV2::Blocked)
    } else if raw == "cancelled"@ {
        Some(FleetStageStateV2::Cancelled)
    } else if raw == "rollback_pending"@ {
        Some(FleetStageStateV2::RollbackPending)
    } else if raw == "rolled_back"@ {
        Some(FleetStageStateV2::RolledBack)
    } else if raw == "rollback_failed"@ {
        Some(FleetStageStateV2::RollbackFailed)
    } else {
        None
    }
}

/// Parses a stored `FleetStageStateV2`; an unknown name means the store is corrupt.
pub fn parse_stage_state(raw: &str) -> (r: Result<FleetStageStateV2, AgentStoreError>)
    ensures
        match stage_state_from_name(raw@) {
            Some(v) => r == Ok::<FleetStageStateV2, AgentStoreError>(v),
            None => r == Err::<FleetStageStateV2, AgentStoreError>(AgentStoreError::StoreCorrupt),
        },
{
    if text_eq(raw, "pending") {
        return Ok(FleetStageStateV2::Pending);
    }
    if text_eq(raw, "ready") {
        return Ok(FleetStageStateV2::Ready);
    }
    if text_eq(raw, "running") {
        return Ok(FleetStageStateV2::Running);
    }
    if text_eq(raw, "awaiting_approval") {
        return Ok(FleetStageStateV2::AwaitingApproval);
    }
    if text_eq(raw, "verifying") {
        return Ok(FleetStageStateV2::Verifying);
    }
    if text_eq(raw, "succeeded") {
        return Ok(FleetStageStateV2::Succeeded);
    }
    if text_eq(raw, "failed") {
        return Ok(FleetStageStateV2::Failed);
    }
    if text_eq(raw, "blocked") {
        return Ok(FleetStageStateV2::Blocked);
    }
    if text_eq(raw, "cancelled") {
        return Ok(FleetStageStateV2::Cancelled);
    }
    if text_eq(raw, "rollback_pending") {
        return Ok(FleetStageStateV2::RollbackPending);
    }
    if text_eq(raw, "rolled_back") {
        return Ok(FleetStageStateV2::RolledBack);
    }
    if text_eq(raw, "rollback_failed") {
        return Ok(FleetStageStateV2::RollbackFailed);
    }
    Err(AgentStoreError::StoreCorrupt)
}

/// Every `FleetStageStateV2` name parses back to its value.
pub proof fn lemma_stage_state_names_round_trip(v: FleetStageStateV2)
    ensures
        stage_state_from_name(stage_state_name(v)) == Some(v),
{
    reveal_strlit("pending");
    reveal_strlit("ready");
    reveal_strlit("running");
    reveal_strlit("awaiting_approval");
    reveal_strlit("verifying");
    reveal_strlit("succeeded");
    reveal_strlit("failed");
    reveal_strlit("blocked");
    reveal_strlit("cancelled");
    reveal_strlit("rollback_pending");
    reveal_strlit("rolled_back");
    reveal_strlit("rollback_failed");
    match v {
        FleetStageStateV2::Pending => {
        },
        FleetStageStateV2::Ready => {
            assert("ready"@.len() != "pending"@.len());
        },
        FleetStageStateV2::Running => {
            assert("running"@[0] != "pending"@[0]);
            assert("running"@.len() != "ready"@.len());
        },
        FleetStageStateV2::AwaitingApproval => {
            assert("awaiting_approval"@.len() != "pending"@.len());
            assert("awaiting_approval"@.len() != "ready"@.len());
            assert("awaiting_approval"@.len() != "running"@.len());
        },
        FleetStageStateV2::Verifying => {
            assert("verifying"@.len() != "pending"@.len());
            assert("verifying"@.len() != "ready"@.len());
            assert("verifying"@.len() != "running"@.len());
            assert("verifying"@.len() != "awaiting_approval"@.len());
        },
        FleetStageStateV2::Succeeded => {
            assert("succeeded"@.len() != "pending"@.len());
            assert("succeeded"@.len() != "ready"@.len());
            assert("succeeded"@.len() != "running"@.len());
            assert("succeeded"@.len() != "awaiting_approval"@.len());
            assert("succeeded"@[0] != "verifying"@[0]);
        },
        FleetStageStateV2::Failed => {
            assert("failed"@.len() != "pending"@.len());
            assert("failed"@.len() != "ready"@.len());
            assert("failed"@.len() != "running"@.len());
            assert("failed"@.len() != "awaiting_approval"@.len());
            assert("failed"@.len() != "verifying"@.len());
            assert("failed"@.len() != "succeeded"@.len());
        },
        FleetStageStateV2::Blocked => {
            assert("blocked"@[0] != "pending"@[0]);
            assert("blocked"@.len() != "ready"@.len());
            assert("blocked"@[0] != "running"@[0]);
            assert("blocked"@.len() != "awaiting_approval"@.len());
            assert("blocked"@.len() != "verifying"@.len());
            assert("blocked"@.len() != "succeeded"@.len());
            assert("blocked"@.len() != "failed"@.len());
        },
        FleetStageStateV2::Cancelled => {
            assert("cancelled"@.len() != "pending"@.len());
            assert("cancelled"@.len() != "ready"@.len());
            assert("cancelled"@.len() != "running"@.len());
            assert("cancelled"@.len() != "awaiting_approval"@.len());
            assert("cancelled"@[0] != "verifying"@[0]);
            assert("cancelled"@[0] != "succeeded"@[0]);
            assert("cancelled"@.len() != "failed"@.len());
            assert("cancelled"@.len() != "blocked"@.len());
        },
        FleetStageStateV2::RollbackPending => {
            assert("rollback_pending"@.len() != "pending"@.len());
            assert("rollback_pending"@.len() != "ready"@.len());
            assert("rollback_pending"@.len() != "running"@.len());
            assert("rollback_pending"@.len() != "awaiting_approval"@.len());
            assert("rollback_pending"@.len() != "verifying"@.len());
            assert("rollback_pending"@.len() != "succeeded"@.len());
            assert("rollback_pending"@.len() != "failed"@.len());
            assert("rollback_pending"@.len() != "blocked"@.len());
            assert("rollback_pending"@.len() != "cancelled"@.len());
        },
        FleetStageStateV2::RolledBack => {
            assert("rolled_back"@.len() != "pending"@.len());
            assert("rolled_back"@.len() != "ready"@.len());
            assert("rolled_back"@.len() != "running"@.len());
            assert("rolled_back"@.len() != "awaiting_approval"@.len());
            assert("rolled_back"@.len() != "verifying"@.len());
            assert("rolled_back"@.len() != "succeeded"@.len());
            assert("rolled_back"@.len() != "failed"@.len());
            assert("rolled_back"@.len() != "blocked"@.len());
            assert("rolled_back"@.len() != "cancelled"@.len());
            assert("rolled_back"@.len() != "rollback_pending"@.len());
        },
        FleetStageStateV2::RollbackFailed => {
            assert("rollback_failed"@.len() != "pending"@.len());
            assert("rollback_failed"@.len() != "ready"@.len());
            assert("rollback_failed"@.len() != "running"@.len());
            assert("rollback_failed"@.len() != "awaiting_approval"@.len());
            assert("rollback_failed"@.len() != "verifying"@.len());
            assert("rollback_failed"@.len() != "succeeded"@.len());
            assert("rollback_failed"@.len() != "failed"@.len());
            assert("rollback_failed"@.len() != "blocked"@.len());
            assert("rollback_failed"@.len() != "cancelled"@.len());
            assert("rollback_failed"@.len() != "rollback_pending"@.len());
            assert("rollback_failed"@.len() != "rolled_back"@.len());
        },
    }
}

/// The `FleetExecutionStrategyV2` with this stable name, if any.
pub open spec fn strategy_from_name(raw: Seq<char>) -> Option<FleetExecutionStrategyV2> {
    if raw == "sequential"@ {
        Some(FleetExecutionStrategyV2::Sequential)
    } else if raw == "canary"@ {
        Some(FleetExecutionStrategyV2::Canary)
    } else if raw == "rolling_batch"@ {
        Some(FleetExecutionStrategyV2::RollingBatch)
    } else if raw == "parallel"@ {
        Some(FleetExecutionStrategyV2::Parallel)
    } else {
        None
    }
}

/// Parses a stored `FleetExecutionStrategyV2`; an unknown name means the store is corrupt.
pub fn parse_strategy(raw: &str) -> (r: Result<FleetExecutionStrategyV2, AgentStoreError>)
    ensures
        match strategy_from_name(raw@) {
            Some(v) => r == Ok::<FleetExecutionStrategyV2, AgentStoreError>(v),
            None => r == Err::<FleetExecutionStrategyV2, AgentStoreError>(AgentStoreError::StoreCorrupt),
        },
{
    if text_eq(raw, "sequential") {
        return Ok(FleetExecutionStrategyV2::Sequential);
    }
    if text_eq(raw, "canary") {
        return Ok(FleetExecutionStrategyV2::Canary);
    }
    if text_eq(raw, "rolling_batch") {
        return Ok(FleetExecutionStrategyV2::RollingBatch);
    }
    if text_eq(raw, "parallel") {
        return Ok(FleetExecutionStrategyV2::Parallel);
    }
    Err(AgentStoreError::StoreCorrupt)
}

/// Every `FleetExecutionStrategyV2` name parses back to its value.
pub proof fn lemma_strategy_names_round_trip(v: FleetExecutionStrategyV2)
    ensures
        strategy_from_name(strategy_name(v)) == Some(v),
{
    reveal_strlit("sequential");
    reveal_strlit("canary");
    reveal_strlit("rolling_batch");
    reveal_strlit("parallel");
    match v {
        FleetExecutionStrategyV2::Sequential => {
        },
        FleetExecutionStrategyV2::Canary => {
            assert("canary"@.len() != "sequential"@.len());
        },
        FleetExecutionStrategyV2::RollingBatch => {
            assert("rolling_batch"@.len() != "sequential"@.len());
            assert("rolling_batch"@.len() != "canary"@.len());
        },
        FleetExecutionStrategyV2::Parallel => {
            assert("parallel"@.len() != "sequential"@.len());
            assert("parallel"@.len() != "canary"@.len());
            assert("parallel"@.len() != "rolling_batch"@.len());
        },
    }
}

/// The `FleetFailurePolicyV2` with this stable name, if any.
pub open spec fn policy_from_name(raw: Seq<char>) -> Option<FleetFailurePolicyV2> {
    if raw == "stop"@ {
        Some(FleetFailurePolicyV2::Stop)
    } else if raw == "pause_for_review"@ {
        Some(FleetFailurePolicyV2::PauseForReview)
    } else if raw == "continue"@ {
        Some(FleetFailurePolicyV2::Continue)
    } else if raw == "rollback"@ {
        Some(FleetFailurePolicyV2::Rollback)
    } else {
        None
    }
}

/// Parses a stored `FleetFailurePolicyV2`; an unknown name means the store is corrupt.
pub fn parse_policy(raw: &str) -> (r: Result<FleetFailurePolicyV2, AgentStoreError>)
    ensures
        match policy_from_name(raw@) {
            Some(v) => r == Ok::<FleetFailurePolicyV2, AgentStoreError>(v),
            None => r == Err::<FleetFailurePolicyV2, AgentStoreError>(AgentStoreError::StoreCorrupt),
        },
{
    if text_eq(raw, "stop") {
        return Ok(FleetFailurePolicyV2::Stop);
    }
    if text_eq(raw, "pause_for_review") {
        return Ok(FleetFailurePolicyV2::PauseForReview);
    }
    if text_eq(raw, "continue") {
        return Ok(FleetFailurePolicyV2::Continue);
    }
    if text_eq(raw, "rollback") {
        return Ok(FleetFailurePolicyV2::Rollback);
    }
    Err(AgentStoreError::StoreCorrupt)
}

/// Every `FleetFailurePolicyV2` name parses back to its value.
pub proof fn lemma_policy_names_round_trip(v: FleetFailurePolicyV2)
    ensures
        policy_from_name(policy_name(v)) == Some(v),
{
    reveal_strlit("stop");
    reveal_strlit("pause_for_review");
    reveal_strlit("continue");
    reveal_strlit("rollback");
    match v {
        FleetFailurePolicyV2::Stop => {
        },
        FleetFailurePolicyV2::PauseForReview => {
            assert("pause_for_review"@.len() != "stop"@.len());
        },
        FleetFailurePolicyV2::Continue => {
            assert("continue"@.len() != "stop"@.len());
            assert("continue"@.len() != "pause_for_review"@.len());
        },
        FleetFailurePolicyV2::Rollback => {
            assert("rollback"@.len() != "stop"@.len());
            assert("rollback"@.len() != "pause_for_review"@.len());
            assert("rollback"@[0] != "continue"@[0]);
        },
    }
}

/// The stable name of a `FleetRecoveryStateV2`.
pub open spec fn recovery_name(v: FleetRecoveryStateV2) -> Seq<char> {
    match v {
        FleetRecoveryStateV2::Live => "live"@,
        FleetRecoveryStateV2::MetadataOnly => "metadata_only"@,
    }
}

pub fn recovery_str(v: FleetRecoveryStateV2) -> (r: &'static str)
    ensures
        r@ == recovery_name(v),
{
    match v {
        FleetRecoveryStateV2::Live => "live",
        FleetRecoveryStateV2::MetadataOnly => "metadata_only",
    }
}

/// The `FleetRecoveryStateV2` with this stable name, if any.
pub open spec fn recovery_from_name(raw: Seq<char>) -> Option<FleetRecoveryStateV2> {
    if raw == "live"@ {
        Some(FleetRecoveryStateV2::Live)
    } else if raw == "metadata_only"@ {
        Some(FleetRecoveryStateV2::MetadataOnly)
    } else {
        None
    }
}

/// Parses a stored `FleetRecoveryStateV2`; an unknown name means the store is corrupt.
pub fn parse_recovery(raw: &str) -> (r: Result<FleetRecoveryStateV2, AgentStoreError>)
    ensures
        match recovery_from_name(raw@) {
            Some(v) => r == Ok::<FleetRecoveryStateV2, AgentStoreError>(v),
            None => r == Err::<FleetRecoveryStateV2, AgentStoreError>(AgentStoreError::StoreCorrupt),
        },
{
    if text_eq(raw, "live") {
        return Ok(FleetRecoveryStateV2::Live);
    }
    if text_eq(raw, "metadata_only") {
        return Ok(FleetRecoveryStateV2::MetadataOnly);
    }
    Err(AgentStoreError::StoreCorrupt)
}

/// Every `FleetRecoveryStateV2` name parses back to its value.
pub proof fn lemma_recovery_names_round_trip(v: FleetRecoveryStateV2)
    ensures
        recovery_from_name(recovery_name(v)) == Some(v),
{
    reveal_strlit("live");
    reveal_strlit("metadata_only");
    match v {
        FleetRecoveryStateV2::Live => {
        },
        FleetRecoveryStateV2::MetadataOnly => {
            assert("metadata_only"@.len() != "live"@.len());
        },
    }
}
/// The stored header of a fleet run.
#[derive(Debug)]
pub struct FleetRunRow {
    pub id: String,
    pub version: i64,
    pub state: String,
    pub production: i64,
    pub failure_policy: String,
    pub graph_digest: String,
    pub recovery_state: String,
    pub created_at: i64,
    pub updated_at: i64,
}

/// One stored target.
#[derive(Debug)]
pub struct FleetTargetRow {
    pub ordinal: i64,
    pub profile_id: String,
    pub session_id: String,
    pub role: Option<String>,
}

/// One stored stage, with its target and dependency lists as JSON. The
/// summary is never stored.
#[derive(Debug)]
pub struct FleetStageRow {
    pub id: String,
    pub target_ids: String,
    pub dependency_ids: String,
    pub execution_strategy: String,
    pub concurrency_limit: i64,
    pub state: String,
}

/// One stored child run.
#[derive(Debug)]
pub struct FleetChildRow {
    pub stage_id: String,
    pub target_id: String,
    pub agent_run_id: Option<String>,
    pub attempt: i64,
    pub state: String,
    pub error_code: Option<String>,
}

/// All rows of one fleet run.
#[derive(Debug)]
pub struct FleetRunRecord {
    pub header: FleetRunRow,
    pub targets: Vec<FleetTargetRow>,
    pub stages: Vec<FleetStageRow>,
    pub children: Vec<FleetChildRow>,
}

pub open spec fn header_ok(h: FleetRunRow) -> bool {
    &&& uuid_from_text(h.id@) is Some
    &&& h.version >= 0
    &&& run_state_from_name(h.state@) is Some
    &&& (h.production == 0 || h.production == 1)
    &&& policy_from_name(h.failure_policy@) is Some
    &&& recovery_from_name(h.recovery_state@) is Some
    &&& h.created_at >= 0
    &&& h.updated_at >= 0
}

pub open spec fn target_row_ok(r: FleetTargetRow) -> bool {
    &&& 0 <= r.ordinal <= usize::MAX
    &&& uuid_from_text(r.profile_id@) is Some
    &&& uuid_from_text(r.session_id@) is Some
}

pub open spec fn stage_row_ok(r: FleetStageRow) -> bool {
    &&& uuid_from_text(r.id@) is Some
    &&& id_list_from_json(r.target_ids@) is Some
    &&& id_list_from_json(r.dependency_ids@) is Some
    &&& strategy_from_name(r.execution_strategy@) is Some
    &&& 0 <= r.concurrency_limit <= usize::MAX
    &&& stage_state_from_name(r.state@) is Some
}

pub open spec fn child_row_ok(r: FleetChildRow) -> bool {
    &&& uuid_from_text(r.stage_id@) is Some
    &&& uuid_from_text(r.target_id@) is Some
    &&& (r.agent_run_id matches Some(a) ==> uuid_from_text(a@) is Some)
    &&& 0 <= r.attempt <= u32::MAX
    &&& stage_state_from_name(r.state@) is Some
}

/// Every stored value converts.
pub open spec fn rows_decodable(h: FleetRunRow, targets: Seq<FleetTargetRow>, stages: Seq<FleetStageRow>, children: Seq<FleetChildRow>) -> bool {
    &&& header_ok(h)
    &&& forall|i: int| 0 <= i < targets.len() ==> target_row_ok(#[trigger] targets[i])
    &&& forall|i: int| 0 <= i < stages.len() ==> stage_row_ok(#[trigger] stages[i])
    &&& forall|i: int| 0 <= i < children.len() ==> child_row_ok(#[trigger] children[i])
}

pub open spec fn target_from_row(r: FleetTargetRow) -> FleetTargetBinding {
    FleetTargetBinding {
        profile_id: uuid_from_text(r.profile_id@)->0,
        session_id: uuid_from_text(r.session_id@)->0,
        role: r.role,
        ordinal: r.ordinal as usize,
    }
}

pub open spec fn child_from_row(r: FleetChildRow) -> FleetChildRun {
    FleetChildRun {
        stage_id: uuid_from_text(r.stage_id@)->0,
        target_id: uuid_from_text(r.target_id@)->0,
        agent_run_id: match r.agent_run_id {
            Some(a) => uuid_from_text(a@),
            None => None,
        },
        attempt: r.attempt as u32,
        state: stage_state_from_name(r.state@)->0,
        error_code: r.error_code,
    }
}

/// A stage read from a row: no summary, everything else as stored.
pub open spec fn stage_from_row(s: FleetStage, r: FleetStageRow) -> bool {
    &&& Some(s.id) == uuid_from_text(r.id@)
    &&& s.summary@ == Seq::<char>::empty()
    &&& Some(s.target_ids@) == id_list_from_json(r.target_ids@)
    &&& Some(s.depends_on@) == id_list_from_json(r.dependency_ids@)
    &&& Some(s.execution_strategy) == strategy_from_name(r.execution_strategy@)
    &&& s.concurrency_limit == r.concurrency_limit as usize
    &&& Some(s.state) == stage_state_from_name(r.state@)
}

/// `run` is the metadata-only run the rows describe.
pub open spec fn decoded_from_rows(
    run: FleetRunV2,
    h: FleetRunRow,
    targets: Seq<FleetTargetRow>,
    stages: Seq<FleetStageRow>,
    children: Seq<FleetChildRow>,
) -> bool {
    &&& Some(run.id) == uuid_from_text(h.id@)
    &&& run.version == h.version as u64
    &&& Some(run.state) == run_state_from_name(h.state@)
    &&& run.production == (h.production == 1)
    &&& Some(run.failure_policy) == policy_from_name(h.failure_policy@)
    &&& run.graph_digest == h.graph_digest
    &&& run.recovery_state == FleetRecoveryStateV2::MetadataOnly
    &&& run.created_at_epoch_ms == h.created_at as u64
    &&& run.updated_at_epoch_ms == h.updated_at as u64
    &&& run.targets@ == targets.map_values(|r: FleetTargetRow| target_from_row(r))
    &&& run.stages@.len() == stages.len()
    &&& forall|i: int| 0 <= i < stages.len() ==> stage_from_row(#[trigger] run.stages@[i], stages[i])
    &&& run.children@ == children.map_values(|r: FleetChildRow| child_from_row(r))
}

fn copy_text(s: &Option<String>) -> (r: Option<String>)
    ensures
        r == *s,
{
    match s {
        Some(t) => Some(t.clone()),
        None => None,
    }
}

/// Reads a fleet run back from its rows. Every value must convert and the
/// result must pass the metadata check; anything else means the store is
/// corrupt. The result is always metadata only, without stage summaries.
pub fn fleet_run_from_rows(
    header: &FleetRunRow,
    targets: &[FleetTargetRow],
    stages: &[FleetStageRow],
    children: &[FleetChildRow],
) -> (r: Result<FleetRunV2, AgentStoreError>)
    ensures
        match r {
            Ok(run) => {
                &&& rows_decodable(*header, targets@, stages@, children@)
                &&& decoded_from_rows(run, *header, targets@, stages@, children@)
                &&& metadata_error(run) is None
            },
            Err(e) => {
                &&& e == AgentStoreError::StoreCorrupt
                &&& (!rows_decodable(*header, targets@, stages@, children@) || exists|run: FleetRunV2|
                    decoded_from_rows(run, *header, targets@, stages@, children@) && (#[trigger] metadata_error(run)) is Some)
            },
        },
{
    let mut target_list: Vec<FleetTargetBinding> = Vec::new();
    let mut i: usize = 0;
    while i < targets.len()
        invariant
            i <= targets@.len(),
            forall|j: int| 0 <= j < i ==> target_row_ok(#[trigger] targets@[j]),
            target_list@ == targets@.take(i as int).map_values(|r: FleetTargetRow| target_from_row(r)),
        decreases targets@.len() - i,
    {
        let row = &targets[i];
        if row.ordinal < 0 || row.ordinal as u64 > usize::MAX as u64 {
            return Err(AgentStoreError::StoreCorrupt);
        }
        let profile_id = match parse_stored_id(row.profile_id.as_str()) {
            Ok(v) => v,
            Err(e) => return Err(e),
        };
        let session_id = match parse_stored_id(row.session_id.as_str()) {
            Ok(v) => v,
            Err(e) => return Err(e),
        };
        target_list.push(FleetTargetBinding {
            profile_id,
            session_id,
            role: copy_text(&row.role),
            ordinal: row.ordinal as usize,
        });
        proof {
            assert(targets@.take(i + 1).map_values(|r: FleetTargetRow| target_from_row(r)) =~= targets@.take(
                i as int,
            ).map_values(|r: FleetTargetRow| target_from_row(r)).push(target_from_row(targets@[i as int])));
        }
        i = i + 1;
    }
    assert(targets@.take(targets@.len() as int) =~= targets@);
    let mut stage_list: Vec<FleetStage> = Vec::new();
    let mut i: usize = 0;
    while i < stages.len()
        invariant
            i <= stages@.len(),
            forall|j: int| 0 <= j < i ==> stage_row_ok(#[trigger] stages@[j]),
            stage_list@.len() == i,
            forall|j: int| 0 <= j < i ==> stage_from_row(#[trigger] stage_list@[j], stages@[j]),
        decreases stages@.len() - i,
    {
        let row = &stages[i];
        let strategy = match parse_strategy(row.execution_strategy.as_str()) {
            Ok(v) => v,
            Err(e) => return Err(e),
        };
        let state = match parse_stage_state(row.state.as_str()) {
            Ok(v) => v,
            Err(e) => return Err(e),
        };
        if row.concurrency_limit < 0 || row.concurrency_limit as u64 > usize::MAX as u64 {
            return Err(AgentStoreError::StoreCorrupt);
        }
        let id = match parse_stored_id(row.id.as_str()) {
            Ok(v) => v,
            Err(e) => return Err(e),
        };
        let target_ids = match parse_stored_id_list(row.target_ids.as_str()) {
            Ok(v) => v,
            Err(e) => return Err(e),
        };
        let depends_on = match parse_stored_id_list(row.dependency_ids.as_str()) {
            Ok(v) => v,
            Err(e) => return Err(e),
        };
        stage_list.push(FleetStage {
            id,
            summary: String::new(),
            target_ids,
            depends_on,
            execution_strategy: strategy,
            concurrency_limit: row.concurrency_limit as usize,
            state,
        });
        i = i + 1;
    }
    let mut child_list: Vec<FleetChildRun> = Vec::new();
    let mut i: usize = 0;
    while i < children.len()
        invariant
            i <= children@.len(),
            forall|j: int| 0 <= j < i ==> child_row_ok(#[trigger] children@[j]),
            child_list@ == children@.take(i as int).map_values(|r: FleetChildRow| child_from_row(r)),
        decreases children@.len() - i,
    {
        let row = &children[i];
        let state = match parse_stage_state(row.state.as_str()) {
            Ok(v) => v,
            Err(e) => return Err(e),
        };
        if row.attempt < 0 || row.attempt > 4294967295i64 {
            return Err(AgentStoreError::StoreCorrupt);
        }
        let stage_id = match parse_stored_id(row.stage_id.as_str()) {
            Ok(v) => v,
            Err(e) => return Err(e),
        };
        let target_id = match parse_stored_id(row.target_id.as_str()) {
            Ok(v) => v,
            Err(e) => return Err(e),
        };
        let agent_run_id = match &row.agent_run_id {
            Some(a) => match parse_stored_id(a.as_str()) {
                Ok(v) => Some(v),
                Err(e) => return Err(e),
            },
            None => None,
        };
        child_list.push(FleetChildRun {
            stage_id,
            target_id,
            agent_run_id,
            attempt: row.attempt as u32,
            state,
            error_code: copy_text(&row.error_code),
        });
        proof {
            assert(children@.take(i + 1).map_values(|r: FleetChildRow| child_from_row(r)) =~= children@.take(
                i as int,
            ).map_values(|r: FleetChildRow| child_from_row(r)).push(child_from_row(children@[i as int])));
        }
        i = i + 1;
    }
    assert(children@.take(children@.len() as int) =~= children@);
    if header.version < 0 || header.created_at < 0 || header.updated_at < 0 {
        return Err(AgentStoreError::StoreCorrupt);
    }
    let run_id = match parse_stored_id(header.id.as_str()) {
        Ok(v) => v,
        Err(e) => return Err(e),
    };
    let state = match parse_run_state(header.state.as_str()) {
        Ok(v) => v,
        Err(e) => return Err(e),
    };
    let production = if header.production == 0 {
        false
    } else if header.production == 1 {
        true
    } else {
        return Err(AgentStoreError::StoreCorrupt);
    };
    let failure_policy = match parse_policy(header.failure_policy.as_str()) {
        Ok(v) => v,
        Err(e) => return Err(e),
    };
    match parse_recovery(header.recovery_state.as_str()) {
        Ok(_) => {},
        Err(e) => return Err(e),
    }
    let run = FleetRunV2 {
        id: run_id,
        version: header.version as u64,
        state,
        production,
        failure_policy,
        targets: target_list,
        stages: stage_list,
        children: child_list,
        graph_digest: header.graph_digest.clone(),
        recovery_state: FleetRecoveryStateV2::MetadataOnly,
        created_at_epoch_ms: header.created_at as u64,
        updated_at_epoch_ms: header.updated_at as u64,
    };
    match run.validate_metadata() {
        Ok(()) => Ok(run),
        Err(_) => Err(AgentStoreError::StoreCorrupt),
    }
}

/// `record` holds the rows of `run`.
pub open spec fn encoded_rows(run: FleetRunV2, record: FleetRunRecord) -> bool {
    let h = record.header;
    &&& h.id@ == uuid_text(run.id)
    &&& uuid_from_text(h.id@) == Some(run.id)
    &&& h.version == run.version as i64
    &&& h.state@ == run_state_name(run.state)
    &&& h.production == (if run.production { 1int } else { 0int })
    &&& h.failure_policy@ == policy_name(run.failure_policy)
    &&& h.graph_digest == run.graph_digest
    &&& h.recovery_state@ == recovery_name(run.recovery_state)
    &&& h.created_at == run.created_at_epoch_ms as i64
    &&& h.updated_at == run.updated_at_epoch_ms as i64
    &&& record.targets@.len() == run.targets@.len()
    &&& forall|i: int| 0 <= i < run.targets@.len() ==> {
        let t = #[trigger] record.targets@[i];
        &&& t.ordinal == run.targets@[i].ordinal as i64
        &&& t.profile_id@ == uuid_text(run.targets@[i].profile_id)
        &&& uuid_from_text(t.profile_id@) == Some(run.targets@[i].profile_id)
        &&& t.session_id@ == uuid_text(run.targets@[i].session_id)
        &&& uuid_from_text(t.session_id@) == Some(run.targets@[i].session_id)
        &&& t.role == run.targets@[i].role
    }
    &&& record.stages@.len() == run.stages@.len()
    &&& forall|i: int| 0 <= i < run.stages@.len() ==> {
        let s = #[trigger] record.stages@[i];
        &&& s.id@ == uuid_text(run.stages@[i].id)
        &&& uuid_from_text(s.id@) == Some(run.stages@[i].id)
        &&& s.target_ids@ == id_list_json(run.stages@[i].target_ids@)
        &&& id_list_from_json(s.target_ids@) == Some(run.stages@[i].target_ids@)
        &&& s.dependency_ids@ == id_list_json(run.stages@[i].depends_on@)
        &&& id_list_from_json(s.dependency_ids@) == Some(run.stages@[i].depends_on@)
        &&& s.execution_strategy@ == strategy_name(run.stages@[i].execution_strategy)
        &&& s.concurrency_limit == run.stages@[i].concurrency_limit as i64
        &&& s.state@ == stage_state_name(run.stages@[i].state)
    }
    &&& record.children@.len() == run.children@.len()
    &&& forall|i: int| 0 <= i < run.children@.len() ==> {
        let c = #[trigger] record.children@[i];
        &&& child_ids_encoded(c, run.children@[i])
        &&& c.attempt == run.children@[i].attempt as i64
        &&& c.state@ == stage_state_name(run.children@[i].state)
        &&& c.error_code == run.children@[i].error_code
    }
}

/// The identifiers of a child row are those of the child, as stored text.
pub open spec fn child_ids_encoded(c: FleetChildRow, child: FleetChildRun) -> bool {
    &&& c.stage_id@ == uuid_text(child.stage_id)
    &&& uuid_from_text(c.stage_id@) == Some(child.stage_id)
    &&& c.target_id@ == uuid_text(child.target_id)
    &&& uuid_from_text(c.target_id@) == Some(child.target_id)
    &&& match child.agent_run_id {
        Some(a) => c.agent_run_id matches Some(t) && t@ == uuid_text(a) && uuid_from_text(t@) == Some(a),
        None => c.agent_run_id is None,
    }
}

fn owned(s: &str) -> (r: String)
    ensures
        r@ == s@,
{
    s.to_owned()
}

/// Flattens a fleet run into its rows; a run whose metadata is inconsistent
/// is never written.
pub fn fleet_run_rows(run: &FleetRunV2) -> (r: Result<FleetRunRecord, AgentStoreError>)
    ensures
        metadata_error(*run) is Some ==> r == Err::<FleetRunRecord, AgentStoreError>(AgentStoreError::StoreCorrupt),
        metadata_error(*run) is None ==> r is Ok && encoded_rows(*run, r->Ok_0),
{
    if run.validate_metadata().is_err() {
        return Err(AgentStoreError::StoreCorrupt);
    }
    let header = FleetRunRow {
        id: stored_id_text(run.id),
        version: run.version as i64,
        state: owned(run_state_str(run.state)),
        production: if run.production { 1 } else { 0 },
        failure_policy: owned(policy_str(run.failure_policy)),
        graph_digest: run.graph_digest.clone(),
        recovery_state: owned(recovery_str(run.recovery_state)),
        created_at: run.created_at_epoch_ms as i64,
        updated_at: run.updated_at_epoch_ms as i64,
    };
    let mut targets: Vec<FleetTargetRow> = Vec::new();
    let mut i: usize = 0;
    while i < run.targets.len()
        invariant
            i <= run.targets@.len(),
            targets@.len() == i,
            forall|j: int| 0 <= j < i ==> {
                let t = #[trigger] targets@[j];
                &&& t.ordinal == run.targets@[j].ordinal as i64
                &&& t.profile_id@ == uuid_text(run.targets@[j].profile_id)
                &&& uuid_from_text(t.profile_id@) == Some(run.targets@[j].profile_id)
                &&& t.session_id@ == uuid_text(run.targets@[j].session_id)
                &&& uuid_from_text(t.session_id@) == Some(run.targets@[j].session_id)
                &&& t.role == run.targets@[j].role
            },
        decreases run.targets@.len() - i,
    {
        let t = &run.targets[i];
        targets.push(FleetTargetRow {
            ordinal: t.ordinal as i64,
            profile_id: stored_id_text(t.profile_id),
            session_id: stored_id_text(t.session_id),
            role: copy_text(&t.role),
        });
        i = i + 1;
    }
    let mut stages: Vec<FleetStageRow> = Vec::new();
    let mut i: usize = 0;
    while i < run.stages.len()
        invariant
            i <= run.stages@.len(),
            metadata_error(*run) is None,
            stages@.len() == i,
            forall|j: int| 0 <= j < i ==> {
                let s = #[trigger] stages@[j];
                &&& s.id@ == uuid_text(run.stages@[j].id)
                &&& uuid_from_text(s.id@) == Some(run.stages@[j].id)
                &&& s.target_ids@ == id_list_json(run.stages@[j].target_ids@)
                &&& id_list_from_json(s.target_ids@) == Some(run.stages@[j].target_ids@)
                &&& s.dependency_ids@ == id_list_json(run.stages@[j].depends_on@)
                &&& id_list_from_json(s.dependency_ids@) == Some(run.stages@[j].depends_on@)
                &&& s.execution_strategy@ == strategy_name(run.stages@[j].execution_strategy)
                &&& s.concurrency_limit == run.stages@[j].concurrency_limit as i64
                &&& s.state@ == stage_state_name(run.stages@[j].state)
            },
        decreases run.stages@.len() - i,
    {
        let s = &run.stages[i];
        let target_ids = match stored_id_list_text(s.target_ids.as_slice()) {
            Ok(t) => t,
            Err(e) => return Err(e),
        };
        let dependency_ids = match stored_id_list_text(s.depends_on.as_slice()) {
            Ok(t) => t,
            Err(e) => return Err(e),
        };
        stages.push(FleetStageRow {
            id: stored_id_text(s.id),
            target_ids,
            dependency_ids,
            execution_strategy: owned(strategy_str(s.execution_strategy)),
            concurrency_limit: s.concurrency_limit as i64,
            state: owned(stage_state_str(s.state)),
        });
        i = i + 1;
    }
    let mut children: Vec<FleetChildRow> = Vec::new();
    let mut i: usize = 0;
    while i < run.children.len()
        invariant
            i <= run.children@.len(),
            children@.len() == i,
            forall|j: int| 0 <= j < i ==> {
                let c = #[trigger] children@[j];
                &&& child_ids_encoded(c, run.children@[j])
                &&& c.attempt == run.children@[j].attempt as i64
                &&& c.state@ == stage_state_name(run.children@[j].state)
                &&& c.error_code == run.children@[j].error_code
            },
        decreases run.children@.len() - i,
    {
        let c = &run.children[i];
        let agent_run_id = match c.agent_run_id {
            Some(a) => Some(stored_id_text(a)),
            None => None,
        };
        children.push(FleetChildRow {
            stage_id: stored_id_text(c.stage_id),
            target_id: stored_id_text(c.target_id),
            agent_run_id,
            attempt: c.attempt as i64,
            state: owned(stage_state_str(c.state)),
            error_code: copy_text(&c.error_code),
        });
        i = i + 1;
    }
    Ok(FleetRunRecord { header, targets, stages, children })
}

/// Writing a consistent fleet run and reading its rows back gives the same
/// run as metadata: the same identity, state, policy, digest, targets and
/// children, and the same stages without their summaries (for values that
/// fit the stored integer columns).
pub proof fn lemma_rows_round_trip(run: FleetRunV2, record: FleetRunRecord, back: FleetRunV2)
    requires
        encoded_rows(run, record),
        run.version <= i64::MAX,
        run.created_at_epoch_ms <= i64::MAX,
        run.updated_at_epoch_ms <= i64::MAX,
        forall|i: int| 0 <= i < run.targets@.len() ==> (#[trigger] run.targets@[i]).ordinal <= i64::MAX,
        forall|i: int| 0 <= i < run.stages@.len() ==> (#[trigger] run.stages@[i]).concurrency_limit <= i64::MAX,
        decoded_from_rows(back, record.header, record.targets@, record.stages@, record.children@),
    ensures
        rows_decodable(record.header, record.targets@, record.stages@, record.children@),
        back.id == run.id,
        back.version == run.version,
        back.state == run.state,
        back.production == run.production,
        back.failure_policy == run.failure_policy,
        back.graph_digest == run.graph_digest,
        back.recovery_state == FleetRecoveryStateV2::MetadataOnly,
        back.created_at_epoch_ms == run.created_at_epoch_ms,
        back.updated_at_epoch_ms == run.updated_at_epoch_ms,
        back.targets@ == run.targets@,
        back.children@ == run.children@,
        back.stages@.len() == run.stages@.len(),
        forall|i: int| 0 <= i < run.stages@.len() ==> {
            let a = #[trigger] back.stages@[i];
            let b = run.stages@[i];
            &&& a.id == b.id
            &&& a.summary@ == Seq::<char>::empty()
            &&& a.target_ids@ == b.target_ids@
            &&& a.depends_on@ == b.depends_on@
            &&& a.execution_strategy == b.execution_strategy
            &&& a.concurrency_limit == b.concurrency_limit
            &&& a.state == b.state
        },
{
    let h = record.header;
    lemma_run_state_names_round_trip(run.state);
    lemma_policy_names_round_trip(run.failure_policy);
    lemma_recovery_names_round_trip(run.recovery_state);
    assert forall|i: int| 0 <= i < record.stages@.len() implies stage_row_ok(#[trigger] record.stages@[i]) by {
        lemma_strategy_names_round_trip(run.stages@[i].execution_strategy);
        lemma_stage_state_names_round_trip(run.stages@[i].state);
    }
    assert forall|i: int| 0 <= i < record.children@.len() implies child_row_ok(#[trigger] record.children@[i]) by {
        lemma_stage_state_names_round_trip(run.children@[i].state);
    }
    assert forall|i: int| 0 <= i < record.targets@.len() implies target_row_ok(#[trigger] record.targets@[i]) by {
        assert(run.targets@[i].ordinal <= i64::MAX);
    }
    assert(back.targets@ =~= run.targets@) by {
        assert forall|i: int| 0 <= i < run.targets@.len() implies back.targets@[i] == run.targets@[i] by {
            assert(record.targets@[i].ordinal == run.targets@[i].ordinal as i64);
        }
    }
    assert(back.children@ =~= run.children@) by {
        assert forall|i: int| 0 <= i < run.children@.len() implies back.children@[i] == run.children@[i] by {
            lemma_stage_state_names_round_trip(run.children@[i].state);
            assert(record.children@[i].attempt == run.children@[i].attempt as i64);
        }
    }
    assert forall|i: int| 0 <= i < run.stages@.len() implies {
        let a = #[trigger] back.stages@[i];
        let b = run.stages@[i];
        &&& a.id == b.id
        &&& a.summary@ == Seq::<char>::empty()
        &&& a.target_ids@ == b.target_ids@
        &&& a.depends_on@ == b.depends_on@
        &&& a.execution_strategy == b.execution_strategy
        &&& a.concurrency_limit == b.concurrency_limit
        &&& a.state == b.state
    } by {
        lemma_strategy_names_round_trip(run.stages@[i].execution_strategy);
        lemma_stage_state_names_round_trip(run.stages@[i].state);
        assert(stage_from_row(back.stages@[i], record.stages@[i]));
    }
}


/// The stored run was in flight when the process stopped.
pub open spec fn row_in_flight(h: FleetRunRow) -> bool {
    run_state_from_name(h.state@) matches Some(s) && fleet_is_in_flight(s)
}

/// Startup recovery of one stored fleet run: a run that was in flight is
/// interrupted at `now_epoch_ms`, and every run keeps only its metadata, so
/// none can be resumed or lease work by itself. Returns whether the run was
/// interrupted.
pub fn recover_fleet_row(row: &mut FleetRunRow, now_epoch_ms: u64) -> (r: bool)
    ensures
        r == row_in_flight(*old(row)),
        final(row).recovery_state@ == recovery_name(FleetRecoveryStateV2::MetadataOnly),
        r ==> final(row).state@ == run_state_name(FleetRunStateV2::Interrupted)
            && final(row).updated_at == now_epoch_ms as i64,
        !r ==> final(row).state == old(row).state && final(row).updated_at == old(row).updated_at,
        final(row).id == old(row).id,
        final(row).version == old(row).version,
        final(row).production == old(row).production,
        final(row).failure_policy == old(row).failure_policy,
        final(row).graph_digest == old(row).graph_digest,
        final(row).created_at == old(row).created_at,
{
    let in_flight = match parse_run_state(row.state.as_str()) {
        Ok(s) => s.is_in_flight(),
        Err(_) => false,
    };
    if in_flight {
        row.state = owned(run_state_str(FleetRunStateV2::Interrupted));
        row.updated_at = now_epoch_ms as i64;
    }
    row.recovery_state = owned(recovery_str(FleetRecoveryStateV2::MetadataOnly));
    in_flight
}

/// Startup recovery of every stored fleet run; returns how many were
/// interrupted.
pub fn recover_fleet_rows(rows: &mut Vec<FleetRunRow>, now_epoch_ms: u64) -> (r: usize)
    ensures
        final(rows)@.len() == old(rows)@.len(),
        r == in_flight_count(old(rows)@),
        forall|i: int| 0 <= i < final(rows)@.len() ==> {
            &&& (#[trigger] final(rows)@[i]).recovery_state@ == recovery_name(FleetRecoveryStateV2::MetadataOnly)
            &&& row_in_flight(old(rows)@[i]) ==> final(rows)@[i].state@ == run_state_name(FleetRunStateV2::Interrupted)
                && final(rows)@[i].updated_at == now_epoch_ms as i64
            &&& !row_in_flight(old(rows)@[i]) ==> final(rows)@[i].state == old(rows)@[i].state
                && final(rows)@[i].updated_at == old(rows)@[i].updated_at
            &&& final(rows)@[i].id == old(rows)@[i].id
            &&& final(rows)@[i].graph_digest == old(rows)@[i].graph_digest
        },
{
    let n = rows.len();
    let mut count: usize = 0;
    let mut i: usize = 0;
    while i < n
        invariant
            n == rows@.len(),
            n == old(rows)@.len(),
            i <= n,
            count <= i,
            count == in_flight_count(old(rows)@.take(i as int)),
            forall|j: int| i <= j < n ==> #[trigger] rows@[j] == old(rows)@[j],
            forall|j: int| 0 <= j < i ==> {
                &&& (#[trigger] rows@[j]).recovery_state@ == recovery_name(FleetRecoveryStateV2::MetadataOnly)
                &&& row_in_flight(old(rows)@[j]) ==> rows@[j].state@ == run_state_name(FleetRunStateV2::Interrupted)
                    && rows@[j].updated_at == now_epoch_ms as i64
                &&& !row_in_flight(old(rows)@[j]) ==> rows@[j].state == old(rows)@[j].state
                    && rows@[j].updated_at == old(rows)@[j].updated_at
                &&& rows@[j].id == old(rows)@[j].id
                &&& rows@[j].graph_digest == old(rows)@[j].graph_digest
            },
        decreases n - i,
    {
        proof {
            assert(old(rows)@.take(i + 1).drop_last() =~= old(rows)@.take(i as int));
        }
        let mut row = rows.remove(i);
        let interrupted = recover_fleet_row(&mut row, now_epoch_ms);
        rows.insert(i, row);
        if interrupted {
            count = count + 1;
        }
        i = i + 1;
    }
    proof {
        assert(old(rows)@.take(n as int) =~= old(rows)@);
    }
    count
}

/// How many stored runs were in flight.
pub open spec fn in_flight_count(rows: Seq<FleetRunRow>) -> nat
    decreases rows.len(),
{
    if rows.len() == 0 {
        0
    } else {
        in_flight_count(rows.drop_last()) + if row_in_flight(rows.last()) { 1nat } else { 0nat }
    }
}

} // verus!
