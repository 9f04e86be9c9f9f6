//! What the reasoner sees and what it can fail with. A reasoner proposes an
//! untrusted decision; the runtime validates it before acting.
use vstd::prelude::*;

verus! {

/// Stable code for reasoner infrastructure failures (model unreachable,
/// malformed transport). A bad decision is not such a failure: it becomes an
/// observation.
pub const AGENT_REASONER_FAILED: &'static str = "AGENT_REASONER_FAILED";

/// One sanitized observation fed back into reasoning. Its texts are treated
/// as untrusted remote data.
#[derive(Debug)]
pub struct Observation {
    pub tool_call_id: Option<u128>,
    pub tool_name: Option<String>,
    pub success: bool,
    pub error_code: Option<String>,
    pub summary: String,
    pub detail: Option<String>,
}

/// Budget snapshot shown to the reasoner so it can wrap up before limits.
#[derive(Clone, Copy, Debug, PartialEq, Eq, Structural)]
pub struct BudgetStatus {
    pub rounds_used: u32,
    pub max_rounds: u32,
    pub tool_calls_used: u32,
    pub max_tool_calls: u32,
    pub elapsed_ms: u64,
    pub time_budget_ms: u64,
}

/// Reasoner infrastructure failure with a stable code.
#[derive(Debug)]
pub struct ReasonerError {
    pub code: String,
}

impl ReasonerError {
    /// The generic "reasoner unavailable" failure.
    pub fn unavailable() -> (r: ReasonerError)
        ensures
            r.code@ == AGENT_REASONER_FAILED@,
    {
        ReasonerError { code: AGENT_REASONER_FAILED.to_owned() }
    }
}

} // verus!
