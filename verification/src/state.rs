//! Authoritative run states of the agent runtime and the explicit transition
//! table between them.
use vstd::prelude::*;

verus! {

/// Stable error code for rejected state transitions.
pub const AGENT_INVALID_TRANSITION: &'static str = "AGENT_INVALID_TRANSITION";

/// Authoritative run state (sixteen states).
#[derive(Clone, Copy, Debug, PartialEq, Eq, Hash, Structural)]
pub enum AgentRunStateV2 {
    Created,
    Running,
    Reasoning,
    Acting,
    Observing,
    AwaitingApproval,
    AwaitingUser,
    Diagnosed,
    PlanningChange,
    ExecutingChange,
    Verifying,
    RollingBack,
    Paused,
    Completed,
    Failed,
    Cancelled,
}

/// Terminal states never accept another transition.
pub open spec fn state_is_terminal(s: AgentRunStateV2) -> bool {
    s is Completed || s is Failed || s is Cancelled
}

/// Durable interrupt states: the run is alive but waits for the user.
pub open spec fn state_is_interrupt(s: AgentRunStateV2) -> bool {
    s is AwaitingApproval || s is AwaitingUser || s is Paused
}

/// States in which the runtime itself progresses the run.
pub open spec fn state_is_active(s: AgentRunStateV2) -> bool {
    s is Running || s is Reasoning || s is Acting || s is Observing || s is Diagnosed
        || s is PlanningChange || s is ExecutingChange || s is Verifying || s is RollingBack
}

/// The transition table. Anything not listed is invalid.
pub open spec fn state_step(from: AgentRunStateV2, next: AgentRunStateV2) -> bool {
    if state_is_terminal(from) {
        false
    } else if next is Cancelled || next is Failed {
        true
    } else {
        match from {
            AgentRunStateV2::Created => next is Running,
            AgentRunStateV2::Running => next is Reasoning || next is Paused,
            AgentRunStateV2::Reasoning => next is Acting || next is AwaitingApproval
                || next is AwaitingUser || next is PlanningChange || next is Diagnosed
                || next is Completed || next is Paused,
            AgentRunStateV2::Acting => next is Observing || next is AwaitingApproval
                || next is Paused,
            AgentRunStateV2::Observing => next is Reasoning || next is Diagnosed || next is Paused,
            AgentRunStateV2::AwaitingApproval => next is Acting || next is ExecutingChange
                || next is Reasoning,
            AgentRunStateV2::AwaitingUser => next is Reasoning,
            AgentRunStateV2::Diagnosed => next is PlanningChange || next is Reasoning
                || next is Completed || next is Paused,
            AgentRunStateV2::PlanningChange => next is AwaitingApproval || next is ExecutingChange
                || next is Reasoning || next is Paused,
            AgentRunStateV2::ExecutingChange => next is Verifying || next is RollingBack
                || next is Reasoning,
            AgentRunStateV2::Verifying => next is Completed || next is Reasoning
                || next is RollingBack,
            AgentRunStateV2::RollingBack => next is Reasoning || next is Completed,
            AgentRunStateV2::Paused => next is Running || next is Reasoning,
            _ => false,
        }
    }
}

/// A rejected state transition; it carries only the two states involved.
#[derive(Clone, Copy, Debug, PartialEq, Eq, Structural)]
pub struct AgentStateError {
    pub from: AgentRunStateV2,
    pub to: AgentRunStateV2,
}

impl AgentStateError {
    /// Stable machine-readable code.
    pub fn code(&self) -> (r: &'static str)
        ensures
            r@ == AGENT_INVALID_TRANSITION@,
    {
        AGENT_INVALID_TRANSITION
    }
}

impl AgentRunStateV2 {
    /// Every state, in declaration order.
    pub const ALL: [AgentRunStateV2; 16] = [
        AgentRunStateV2::Created,
        AgentRunStateV2::Running,
        AgentRunStateV2::Reasoning,
        AgentRunStateV2::Acting,
        AgentRunStateV2::Observing,
        AgentRunStateV2::AwaitingApproval,
        AgentRunStateV2::AwaitingUser,
        AgentRunStateV2::Diagnosed,
        AgentRunStateV2::PlanningChange,
        AgentRunStateV2::ExecutingChange,
        AgentRunStateV2::Verifying,
        AgentRunStateV2::RollingBack,
        AgentRunStateV2::Paused,
        AgentRunStateV2::Completed,
        AgentRunStateV2::Failed,
        AgentRunStateV2::Cancelled,
    ];

    pub fn is_terminal(self) -> (r: bool)
        ensures
            r == state_is_terminal(self),
    {
        matches!(self, AgentRunStateV2::Completed | AgentRunStateV2::Failed | AgentRunStateV2::Cancelled)
    }

    pub fn is_interrupt(self) -> (r: bool)
        ensures
            r == state_is_interrupt(self),
    {
        matches!(
            self,
            AgentRunStateV2::AwaitingApproval | AgentRunStateV2::AwaitingUser | AgentRunStateV2::Paused
        )
    }

    pub fn is_active(self) -> (r: bool)
        ensures
            r == state_is_active(self),
    {
        matches!(
            self,
            AgentRunStateV2::Running | AgentRunStateV2::Reasoning | AgentRunStateV2::Acting
                | AgentRunStateV2::Observing | AgentRunStateV2::Diagnosed
                | AgentRunStateV2::PlanningChange | AgentRunStateV2::ExecutingChange
                | AgentRunStateV2::Verifying | AgentRunStateV2::RollingBack
        )
    }

    /// Only durable interrupt states may resume the same run.
    pub fn can_resume(self) -> (r: bool)
        ensures
            r == state_is_interrupt(self),
    {
        self.is_interrupt()
    }

    /// The explicit transition rule.
    pub fn can_transition_to(self, next: AgentRunStateV2) -> (r: bool)
        ensures
            r == state_step(self, next),
    {
        if self.is_terminal() {
            return false;
        }
        if matches!(next, AgentRunStateV2::Cancelled | AgentRunStateV2::Failed) {
            return true;
        }
        match self {
            AgentRunStateV2::Created => matches!(next, AgentRunStateV2::Running),
            AgentRunStateV2::Running => matches!(next, AgentRunStateV2::Reasoning | AgentRunStateV2::Paused),
            AgentRunStateV2::Reasoning => matches!(
                next,
                AgentRunStateV2::Acting | AgentRunStateV2::AwaitingApproval
                    | AgentRunStateV2::AwaitingUser | AgentRunStateV2::PlanningChange
                    | AgentRunStateV2::Diagnosed | AgentRunStateV2::Completed
                    | AgentRunStateV2::Paused
            ),
            AgentRunStateV2::Acting => matches!(
                next,
                AgentRunStateV2::Observing | AgentRunStateV2::AwaitingApproval | AgentRunStateV2::Paused
            ),
            AgentRunStateV2::Observing => matches!(
                next,
                AgentRunStateV2::Reasoning | AgentRunStateV2::Diagnosed | AgentRunStateV2::Paused
            ),
            AgentRunStateV2::AwaitingApproval => matches!(
                next,
                AgentRunStateV2::Acting | AgentRunStateV2::ExecutingChange | AgentRunStateV2::Reasoning
            ),
            AgentRunStateV2::AwaitingUser => matches!(next, AgentRunStateV2::Reasoning),
            AgentRunStateV2::Diagnosed => matches!(
                next,
                AgentRunStateV2::PlanningChange | AgentRunStateV2::Reasoning
                    | AgentRunStateV2::Completed | AgentRunStateV2::Paused
            ),
            AgentRunStateV2::PlanningChange => matches!(
                next,
                AgentRunStateV2::AwaitingApproval | AgentRunStateV2::ExecutingChange
                    | AgentRunStateV2::Reasoning | AgentRunStateV2::Paused
            ),
            AgentRunStateV2::ExecutingChange => matches!(
                next,
                AgentRunStateV2::Verifying | AgentRunStateV2::RollingBack | AgentRunStateV2::Reasoning
            ),
            AgentRunStateV2::Verifying => matches!(
                next,
                AgentRunStateV2::Completed | AgentRunStateV2::Reasoning | AgentRunStateV2::RollingBack
            ),
            AgentRunStateV2::RollingBack => matches!(
                next,
                AgentRunStateV2::Reasoning | AgentRunStateV2::Completed
            ),
            AgentRunStateV2::Paused => matches!(next, AgentRunStateV2::Running | AgentRunStateV2::Reasoning),
            _ => false,
        }
    }

    /// Validated transition: the next state when the table allows the move,
    /// otherwise the typed error naming both states.
    pub fn transition_to(self, next: AgentRunStateV2) -> (r: Result<AgentRunStateV2, AgentStateError>)
        ensures
            state_step(self, next) ==> r == Ok::<AgentRunStateV2, AgentStateError>(next),
            !state_step(self, next) ==> r == Err::<AgentRunStateV2, AgentStateError>(
                AgentStateError { from: self, to: next },
            ),
    {
        if self.can_transition_to(next) {
            Ok(next)
        } else {
            Err(AgentStateError { from: self, to: next })
        }
    }
}

/// Every state belongs to exactly one class: terminal, interrupt, active, or
/// the initial `Created` state.
pub proof fn lemma_state_classes_partition(s: AgentRunStateV2)
    ensures
        (state_is_terminal(s) as int) + (state_is_interrupt(s) as int) + (state_is_active(s) as int)
            + ((s is Created) as int) == 1,
{
}

/// A terminal state has no outgoing transition at all.
pub proof fn lemma_terminal_states_are_final(s: AgentRunStateV2, next: AgentRunStateV2)
    requires
        state_is_terminal(s),
    ensures
        !state_step(s, next),
{
}

/// Cancellation and hard failure are reachable from every non-terminal state.
pub proof fn lemma_cancel_and_fail_always_reachable(s: AgentRunStateV2)
    requires
        !state_is_terminal(s),
    ensures
        state_step(s, AgentRunStateV2::Cancelled),
        state_step(s, AgentRunStateV2::Failed),
{
}

/// A write, verification or rollback in flight can never pause.
pub proof fn lemma_no_pause_during_side_effects(s: AgentRunStateV2)
    requires
        s is ExecutingChange || s is Verifying || s is RollingBack,
    ensures
        !state_step(s, AgentRunStateV2::Paused),
{
}

/// A paused run resumes only into `Running` or `Reasoning`, or terminates
/// through cancellation or failure.
pub proof fn lemma_paused_exits(next: AgentRunStateV2)
    requires
        state_step(AgentRunStateV2::Paused, next),
    ensures
        next is Running || next is Reasoning || next is Cancelled || next is Failed,
{
}

/// `AwaitingUser` never skips reasoning: its only non-terminal exit is
/// `Reasoning`.
pub proof fn lemma_awaiting_user_returns_to_reasoning(next: AgentRunStateV2)
    requires
        state_step(AgentRunStateV2::AwaitingUser, next),
    ensures
        next is Reasoning || next is Cancelled || next is Failed,
{
}

/// No transition ever leads back into `Created`.
pub proof fn lemma_created_is_never_reentered(s: AgentRunStateV2)
    ensures
        !state_step(s, AgentRunStateV2::Created),
{
}


/// Every move of the documented run lifecycle is allowed, one by one:
/// created runs start; a running run reasons or pauses; reasoning acts,
/// asks for approval or for the user, plans a change, diagnoses, completes
/// or pauses; an action is observed, interrupted for approval or paused; an
/// observation leads back to reasoning, to a diagnosis or to a pause; an
/// approval resumes acting, executes a change or returns to reasoning; a
/// user's answer returns to reasoning; a diagnosis plans a change, reasons
/// again, completes or pauses; a plan asks for approval, executes, reasons
/// again or pauses; an executed change is verified, rolled back or reasoned
/// about; a verification completes, reasons again or rolls back; a rollback
/// reasons again or completes; and a paused run runs or reasons again. Any
/// run that has not finished can be cancelled or failed.
pub proof fn lemma_documented_run_transitions(from: AgentRunStateV2)
    ensures
        state_step(AgentRunStateV2::Created, AgentRunStateV2::Running),
        state_step(AgentRunStateV2::Running, AgentRunStateV2::Reasoning),
        state_step(AgentRunStateV2::Running, AgentRunStateV2::Paused),
        state_step(AgentRunStateV2::Reasoning, AgentRunStateV2::Acting),
        state_step(AgentRunStateV2::Reasoning, AgentRunStateV2::AwaitingApproval),
        state_step(AgentRunStateV2::Reasoning, AgentRunStateV2::AwaitingUser),
        state_step(AgentRunStateV2::Reasoning, AgentRunStateV2::PlanningChange),
        state_step(AgentRunStateV2::Reasoning, AgentRunStateV2::Diagnosed),
        state_step(AgentRunStateV2::Reasoning, AgentRunStateV2::Completed),
        state_step(AgentRunStateV2::Reasoning, AgentRunStateV2::Paused),
        state_step(AgentRunStateV2::Acting, AgentRunStateV2::Observing),
        state_step(AgentRunStateV2::Acting, AgentRunStateV2::AwaitingApproval),
        state_step(AgentRunStateV2::Acting, AgentRunStateV2::Paused),
        state_step(AgentRunStateV2::Observing, AgentRunStateV2::Reasoning),
        state_step(AgentRunStateV2::Observing, AgentRunStateV2::Diagnosed),
        state_step(AgentRunStateV2::Observing, AgentRunStateV2::Paused),
        state_step(AgentRunStateV2::AwaitingApproval, AgentRunStateV2::Acting),
        state_step(AgentRunStateV2::AwaitingApproval, AgentRunStateV2::ExecutingChange),
        state_step(AgentRunStateV2::AwaitingApproval, AgentRunStateV2::Reasoning),
        state_step(AgentRunStateV2::AwaitingUser, AgentRunStateV2::Reasoning),
        state_step(AgentRunStateV2::Diagnosed, AgentRunStateV2::PlanningChange),
        state_step(AgentRunStateV2::Diagnosed, AgentRunStateV2::Reasoning),
        state_step(AgentRunStateV2::Diagnosed, AgentRunStateV2::Completed),
        state_step(AgentRunStateV2::Diagnosed, AgentRunStateV2::Paused),
        state_step(AgentRunStateV2::PlanningChange, AgentRunStateV2::AwaitingApproval),
        state_step(AgentRunStateV2::PlanningChange, AgentRunStateV2::ExecutingChange),
        state_step(AgentRunStateV2::PlanningChange, AgentRunStateV2::Reasoning),
        state_step(AgentRunStateV2::PlanningChange, AgentRunStateV2::Paused),
        state_step(AgentRunStateV2::ExecutingChange, AgentRunStateV2::Verifying),
        state_step(AgentRunStateV2::ExecutingChange, AgentRunStateV2::RollingBack),
        state_step(AgentRunStateV2::ExecutingChange, AgentRunStateV2::Reasoning),
        state_step(AgentRunStateV2::Verifying, AgentRunStateV2::Completed),
        state_step(AgentRunStateV2::Verifying, AgentRunStateV2::Reasoning),
        state_step(AgentRunStateV2::Verifying, AgentRunStateV2::RollingBack),
        state_step(AgentRunStateV2::RollingBack, AgentRunStateV2::Reasoning),
        state_step(AgentRunStateV2::RollingBack, AgentRunStateV2::Completed),
        state_step(AgentRunStateV2::Paused, AgentRunStateV2::Running),
        state_step(AgentRunStateV2::Paused, AgentRunStateV2::Reasoning),
        !(from is Completed || from is Failed || from is Cancelled) ==> state_step(from, AgentRunStateV2::Cancelled)
            && state_step(from, AgentRunStateV2::Failed),
{
}

} // verus!
