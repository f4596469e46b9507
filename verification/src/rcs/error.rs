//! Protocol errors at the SDK boundary.

use vstd::prelude::*;
use crate::text::{append_str, owned};

verus! {

/// Errors that can occur while handling RCS messages. Variant names are part
/// of the public contract within a major RCS version.
#[derive(Debug, Clone, PartialEq, Eq)]
pub enum RcsError {
    /// The envelope `rcs_version` is not supported by this runtime.
    UnsupportedVersion { version: String },
    /// A mandatory envelope field was absent or empty.
    MissingEnvelopeField { field: String },
    /// `message_type` could not be mapped to a known variant.
    InvalidMessageType { message_type: String },
    /// Typed payload could not be deserialized from the envelope body.
    PayloadDeserializationFailed { reason: String },
    /// Workflow definition failed structural validation.
    InvalidWorkflowDefinition { reason: String },
}

impl RcsError {
    /// Human-readable description of the error.
    pub open spec fn description(&self) -> Seq<char> {
        match self {
            RcsError::UnsupportedVersion { version } => "unsupported RCS version: "@ + version@,
            RcsError::MissingEnvelopeField { field } => "missing required envelope field: "@ + field@,
            RcsError::InvalidMessageType { message_type } => "invalid message type: "@ + message_type@,
            RcsError::PayloadDeserializationFailed { reason } => "payload deserialization failed: "@ + reason@,
            RcsError::InvalidWorkflowDefinition { reason } => "workflow definition invalid: "@ + reason@,
        }
    }

    /// The error's message text.
    pub fn message(&self) -> (m: String)
        ensures
            m@ == self.description(),
    {
        let (prefix, detail) = match self {
            RcsError::UnsupportedVersion { version } => ("unsupported RCS version: ", version),
            RcsError::MissingEnvelopeField { field } => ("missing required envelope field: ", field),
            RcsError::InvalidMessageType { message_type } => ("invalid message type: ", message_type),
            RcsError::PayloadDeserializationFailed { reason } => ("payload deserialization failed: ", reason),
            RcsError::InvalidWorkflowDefinition { reason } => ("workflow definition invalid: ", reason),
        };
        let mut m = owned(prefix);
        append_str(&mut m, detail.as_str());
        m
    }
}

} // verus!
