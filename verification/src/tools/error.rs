//! Tool runtime errors.

use vstd::prelude::*;

verus! {

/// Failures from tool registration, validation, or execution. Step ids are the
/// 128-bit values of their UUIDs.
#[derive(Debug, Clone, PartialEq, Eq)]
pub enum ToolError {
    /// Tool name is not registered for this run.
    NotRegistered { name: String },
    /// Duplicate tool name at registration.
    DuplicateName { name: String },
    /// JSON Schema validation failed.
    ValidationFailed { name: String, reason: String },
    /// The tool implementation returned an error.
    ExecutionFailed { name: String, step_id: Option<u128>, reason: String },
    /// Wall-clock timeout exceeded.
    Timeout { name: String, timeout_secs: u64 },
}

} // verus!
