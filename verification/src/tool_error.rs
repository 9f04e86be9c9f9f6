//! The small runtime vocabulary into which tool and domain error codes map.
use vstd::prelude::*;
use crate::text::text_eq;

verus! {

/// The runtime class of a native error code.
pub open spec fn tool_error_class(code: Seq<char>) -> Seq<char> {
    if code == "EXEC_FAILED"@ || code == "SFTP_NOT_FOUND"@ || code == "UNSUPPORTED_REMOTE"@ {
        "TOOL_EXECUTION_FAILED"@
    } else if code == "INVALID_OPERATION"@ || code == "MODEL_RESPONSE_INVALID"@ {
        "TOOL_INPUT_INVALID"@
    } else if code == "SESSION_NOT_FOUND"@ || code == "SESSION_DISCONNECTED"@
        || code == "SSH_NOT_CONNECTED"@ {
        "TOOL_SESSION_UNAVAILABLE"@
    } else if code == "TOOL_CANCELLED"@ {
        "TOOL_CANCELLED"@
    } else if code == "TOOL_RISK_CEILING_EXCEEDED"@ || code == "TOOL_POLICY_DENIED"@
        || code == "AGENT_POLICY_DENIED"@ {
        "TOOL_POLICY_BLOCKED"@
    } else {
        "TOOL_FAILED"@
    }
}

/// Maps a native tool or domain error code to its runtime class.
pub fn classify_tool_error(code: &str) -> (r: &'static str)
    ensures
        r@ == tool_error_class(code@),
{
    if text_eq(code, "EXEC_FAILED") || text_eq(code, "SFTP_NOT_FOUND") || text_eq(
        code,
        "UNSUPPORTED_REMOTE",
    ) {
        "TOOL_EXECUTION_FAILED"
    } else if text_eq(code, "INVALID_OPERATION") || text_eq(code, "MODEL_RESPONSE_INVALID") {
        "TOOL_INPUT_INVALID"
    } else if text_eq(code, "SESSION_NOT_FOUND") || text_eq(code, "SESSION_DISCONNECTED")
        || text_eq(code, "SSH_NOT_CONNECTED") {
        "TOOL_SESSION_UNAVAILABLE"
    } else if text_eq(code, "TOOL_CANCELLED") {
        "TOOL_CANCELLED"
    } else if text_eq(code, "TOOL_RISK_CEILING_EXCEEDED") || text_eq(code, "TOOL_POLICY_DENIED")
        || text_eq(code, "AGENT_POLICY_DENIED") {
        "TOOL_POLICY_BLOCKED"
    } else {
        "TOOL_FAILED"
    }
}

} // verus!
