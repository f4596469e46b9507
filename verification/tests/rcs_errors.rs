use arcflow_core::rcs::error::RcsError;

#[test]
fn unsupported_version_error_is_descriptive() {
    let error = RcsError::UnsupportedVersion { version: "99.0".to_string() };
    assert!(error.message().contains("99.0"));
}

#[test]
fn missing_envelope_field_error_is_descriptive() {
    let error = RcsError::MissingEnvelopeField { field: "trace_id".to_string() };
    assert!(error.message().contains("trace_id"));
}

#[test]
fn invalid_message_type_error_is_descriptive() {
    let error = RcsError::InvalidMessageType { message_type: "Unknown".to_string() };
    assert!(error.message().contains("Unknown"));
}

#[test]
fn payload_deserialization_failed_error_is_descriptive() {
    let error = RcsError::PayloadDeserializationFailed { reason: "bad json".to_string() };
    assert!(error.message().contains("bad json"));
}

#[test]
fn invalid_workflow_definition_error_is_descriptive() {
    let error = RcsError::InvalidWorkflowDefinition { reason: "empty steps".to_string() };
    assert!(error.message().contains("empty steps"));
}

#[test]
fn rcs_error_messages_are_exact() {
    assert_eq!(
        RcsError::UnsupportedVersion { version: "2.1".to_string() }.message(),
        "unsupported RCS version: 2.1"
    );
    assert_eq!(
        RcsError::MissingEnvelopeField { field: "run_id".to_string() }.message(),
        "missing required envelope field: run_id"
    );
    assert_eq!(
        RcsError::InvalidMessageType { message_type: "Ping".to_string() }.message(),
        "invalid message type: Ping"
    );
    assert_eq!(
        RcsError::PayloadDeserializationFailed { reason: "eof".to_string() }.message(),
        "payload deserialization failed: eof"
    );
    assert_eq!(
        RcsError::InvalidWorkflowDefinition { reason: "no agents".to_string() }.message(),
        "workflow definition invalid: no agents"
    );
}
