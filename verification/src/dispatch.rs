//! The result of one dispatched read tool call, as the controller records
//! it. Running the tools is the dispatcher's work, outside this library.
use vstd::prelude::*;
use crate::decision::PreparedToolCall;

verus! {

/// Sanitized result of one dispatched read tool call.
#[derive(Debug)]
pub struct ToolOutcome {
    pub tool_call_id: u128,
    pub tool_name: String,
    pub success: bool,
    /// Static, sanitized result summary from the tool layer.
    pub summary: String,
    pub error_code: Option<String>,
    pub duration_ms: u64,
    pub cancelled: bool,
    /// Served from the observation cache (or batch deduplication).
    pub from_cache: bool,
    pub untrusted_remote_data: bool,
    /// Redacted JSON rendering of the structured tool data, if any.
    pub sanitized_data: Option<String>,
}

impl ToolOutcome {
    /// A content-free failed outcome of a call, carrying only the error code.
    pub fn failure(call: &PreparedToolCall, error_code: &str) -> (r: ToolOutcome)
        ensures
            r.tool_call_id == call.tool_call_id,
            r.tool_name == call.tool_name,
            !r.success,
            r.summary@ == "tool execution failed"@,
            r.error_code is Some && r.error_code->0@ == error_code@,
            r.duration_ms == 0,
            !r.cancelled,
            !r.from_cache,
            !r.untrusted_remote_data,
            r.sanitized_data is None,
    {
        ToolOutcome {
            tool_call_id: call.tool_call_id,
            tool_name: call.tool_name.clone(),
            success: false,
            summary: "tool execution failed".to_owned(),
            error_code: Some(error_code.to_owned()),
            duration_ms: 0,
            cancelled: false,
            from_cache: false,
            untrusted_remote_data: false,
            sanitized_data: None,
        }
    }
}

} // verus!
