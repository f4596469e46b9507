//! The RCS message envelope.

use vstd::prelude::*;
use crate::clock::UtcTimestamp;
use super::types::MessageType;

verus! {

/// Wire-format wrapper for every RCS message. The trace id is the 128-bit
/// value of its UUID.
#[derive(Debug)]
pub struct MessageEnvelope {
    /// Protocol version string (`MAJOR.MINOR`).
    pub rcs_version: String,
    /// Dispatch label for the payload type.
    pub message_type: MessageType,
    /// Correlation id for traces and logs.
    pub trace_id: u128,
    /// UTC time the message was created.
    pub timestamp: UtcTimestamp,
    /// Typed payload as JSON.
    pub payload: serde_json::Value,
}

} // verus!
