//! Tracing subsystem errors (storage and export only, never workflow execution).

use vstd::prelude::*;
use crate::text::{append_str, owned};

verus! {

/// Failures in trace storage or OTLP export. Never surfaced as workflow errors.
#[derive(Debug, Clone, PartialEq, Eq)]
pub enum TracingError {
    /// Run id not found in the in-process store.
    TraceNotFound { run_id: String },
    /// OTLP export failed after the workflow completed.
    OtlpExportFailed { reason: String },
}

impl TracingError {
    /// Human-readable description of the error.
    pub open spec fn description(&self) -> Seq<char> {
        match self {
            TracingError::TraceNotFound { run_id } => "trace not found for run_id '"@ + run_id@ + "'"@,
            TracingError::OtlpExportFailed { reason } => "otlp export failed: "@ + reason@,
        }
    }

    /// The error's message text.
    pub fn message(&self) -> (m: String)
        ensures
            m@ == self.description(),
    {
        match self {
            TracingError::TraceNotFound { run_id } => {
                let mut m = owned("trace not found for run_id '");
                append_str(&mut m, run_id.as_str());
                append_str(&mut m, "'");
                m
            },
            TracingError::OtlpExportFailed { reason } => {
                let mut m = owned("otlp export failed: ");
                append_str(&mut m, reason.as_str());
                m
            },
        }
    }
}

} // verus!
