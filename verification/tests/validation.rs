use arcflow_core::tools::error::ToolError;
use arcflow_core::tools::validation::{validate_tool_input, validation_outcome};

fn json(text: &str) -> serde_json::Value {
    serde_json::from_str(text).unwrap()
}

#[test]
fn valid_object_passes() {
    let schema = json(r#"{"type": "object", "properties": {"q": {"type": "string"}}, "required": ["q"]}"#);
    let input = json(r#"{"q": "hello"}"#);
    validate_tool_input("t", &schema, &input).unwrap();
}

#[test]
fn missing_required_field_fails() {
    let schema = json(r#"{"type": "object", "required": ["q"]}"#);
    let err = validate_tool_input("t", &schema, &json("{}")).unwrap_err();
    assert!(matches!(err, ToolError::ValidationFailed { .. }));
}

#[test]
fn validation_failure_names_the_tool() {
    let schema = json(r#"{"type": "object", "properties": {"q": {"type": "string"}}}"#);
    let err = validate_tool_input("search", &schema, &json(r#"{"q": 3}"#)).unwrap_err();
    match err {
        ToolError::ValidationFailed { name, reason } => {
            assert_eq!(name, "search");
            assert!(!reason.is_empty());
        }
        other => panic!("unexpected {:?}", other),
    }
}

#[test]
fn schema_that_does_not_compile_is_reported() {
    let schema = json(r#"{"type": 12}"#);
    let err = validate_tool_input("t", &schema, &json("{}")).unwrap_err();
    match err {
        ToolError::ValidationFailed { name, reason } => {
            assert_eq!(name, "t");
            assert!(reason.starts_with("invalid schema: "));
        }
        other => panic!("unexpected {:?}", other),
    }
}

#[test]
fn validation_outcome_maps_each_case() {
    assert_eq!(validation_outcome("t", Ok(Ok(()))), Ok(()));
    assert_eq!(
        validation_outcome("t", Ok(Err("\"q\" is a required property".to_string()))),
        Err(ToolError::ValidationFailed { name: "t".into(), reason: "\"q\" is a required property".into() })
    );
    assert_eq!(
        validation_outcome("t", Err("bad type".to_string())),
        Err(ToolError::ValidationFailed { name: "t".into(), reason: "invalid schema: bad type".into() })
    );
}
