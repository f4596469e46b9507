use arcflow_core::providers::request::{MessageRole, ProviderMessage, ToolCallRequest, ToolSchema};
use arcflow_core::providers::wire::{
    anthropic_messages, gemini_contents, openai_messages, optional_tool_defs, tool_defs, AnthropicBlockOut,
    AnthropicContentOut, GeminiPartOut, OpenAIMessageOut,
};
use arcflow_core::tools::error::ToolError;
use arcflow_core::tools::registry::{RegisteredTool, ToolRegistry};
use arcflow_core::tools::runtime::{ToolOutcome, ToolRuntime};
use arcflow_core::tracing::emitter::TraceEmitter;
use arcflow_core::tracing::events::TraceEventKind;
use arcflow_core::tracing::sprint5_emitter::TraceEventEmitter;
use arcflow_core::tracing::store::TraceStore;

fn json(text: &str) -> serde_json::Value {
    serde_json::from_str(text).unwrap()
}

fn tool(name: &str, timeout_secs: u64) -> RegisteredTool {
    RegisteredTool {
        name: name.into(),
        input_schema: json(r#"{"type":"object","properties":{"q":{"type":"string"}},"required":["q"]}"#),
        timeout_secs,
    }
}

#[test]
fn register_then_get_returns_the_tool() {
    let mut reg = ToolRegistry::new();
    assert!(reg.is_empty());
    reg.register(tool("echo", 5)).unwrap();
    reg.register(tool("search", 9)).unwrap();
    assert_eq!(reg.get("echo").unwrap().timeout_secs, 5);
    assert_eq!(reg.get("search").unwrap().timeout_secs, 9);
    assert!(reg.get("missing").is_none());
    assert_eq!(reg.names(), vec!["echo".to_string(), "search".to_string()]);
    assert!(!reg.is_empty());
}

#[test]
fn duplicate_registration_is_refused_and_keeps_the_first() {
    let mut reg = ToolRegistry::new();
    reg.register(tool("echo", 5)).unwrap();
    assert_eq!(reg.register(tool("echo", 7)), Err(ToolError::DuplicateName { name: "echo".into() }));
    assert_eq!(reg.get("echo").unwrap().timeout_secs, 5);
    assert_eq!(reg.names().len(), 1);
}

#[test]
fn runtime_begin_checks_registration_and_input() {
    let mut rt = ToolRuntime::new();
    assert!(!rt.has_tools());
    rt.register(tool("echo", 3)).unwrap();
    assert!(rt.has_tools());
    assert_eq!(rt.registry().names(), vec!["echo".to_string()]);
    let mut em = TraceEventEmitter::new("run".to_string(), TraceStore::new());
    assert_eq!(
        rt.begin_tool_call("nope", &json("{}"), &mut em, "run", Some(1)),
        Err(ToolError::NotRegistered { name: "nope".into() })
    );
    assert!(matches!(
        rt.begin_tool_call("echo", &json("{}"), &mut em, "run", Some(1)),
        Err(ToolError::ValidationFailed { name, .. }) if name == "echo"
    ));
    assert_eq!(rt.begin_tool_call("echo", &json(r#"{"q":"hi"}"#), &mut em, "run", None), Ok(3));
    assert_eq!(rt.begin_tool_call("echo", &json(r#"{"q":"hi"}"#), &mut em, "run", Some(0x10)), Ok(3));
    let store = em.into_store();
    let events = store.get_events("run").unwrap();
    assert_eq!(events.len(), 1);
    match &events[0].kind {
        TraceEventKind::ToolCallStarted { run_id, step_id, tool_name, input_schema_hash } => {
            assert_eq!(run_id, "run");
            assert_eq!(step_id, "00000000-0000-0000-0000-000000000010");
            assert_eq!(tool_name, "echo");
            assert_eq!(input_schema_hash, "");
        }
        other => panic!("unexpected {:?}", other),
    }
}

#[test]
fn finish_reports_each_outcome() {
    assert_eq!(ToolRuntime::wait_secs(0), 1);
    assert_eq!(ToolRuntime::wait_secs(30), 30);
    let mut legacy = TraceEmitter::new(42);
    let mut em = TraceEventEmitter::new("run".to_string(), TraceStore::new());
    let ok = ToolRuntime::finish_tool_call("echo", 3, ToolOutcome::Completed("out".into()), 12, &mut legacy, &mut em, "run", Some(5));
    assert_eq!(ok, Ok("out".to_string()));
    let failed = ToolRuntime::finish_tool_call(
        "echo",
        3,
        ToolOutcome::Failed(ToolError::ExecutionFailed { name: "echo".into(), step_id: None, reason: "boom".into() }),
        4,
        &mut legacy,
        &mut em,
        "run",
        Some(5),
    );
    assert_eq!(failed, Err(ToolError::ExecutionFailed { name: "echo".into(), step_id: Some(5), reason: "boom".into() }));
    let timed_out = ToolRuntime::finish_tool_call("echo", 3, ToolOutcome::TimedOut, 3000, &mut legacy, &mut em, "run", None);
    assert_eq!(timed_out, Err(ToolError::Timeout { name: "echo".into(), timeout_secs: 3 }));
    let store = em.into_store();
    assert_eq!(legacy.events().len(), 3);
    let events = store.get_events("run").unwrap();
    assert!(matches!(&events[0].kind, TraceEventKind::ToolCallCompleted { output_size_bytes: 3, duration_ms: 12, .. }));
    assert!(matches!(
        &events[1].kind,
        TraceEventKind::ToolCallFailed { error_code, failure_reason, .. } if error_code == "tool_failed" && failure_reason == "tool_failed"
    ));
    assert!(matches!(&events[2].kind, TraceEventKind::ToolCallFailed { step_id, .. } if step_id.is_empty()));
}

fn call(id: &str, name: &str, args: &str) -> ToolCallRequest {
    ToolCallRequest { id: id.into(), name: name.into(), arguments: args.into() }
}

fn message(role: MessageRole, content: &str, calls: Option<Vec<ToolCallRequest>>, call_id: Option<&str>) -> ProviderMessage {
    ProviderMessage { role, content: content.into(), tool_calls: calls, tool_call_id: call_id.map(|s| s.into()) }
}

fn conversation() -> Vec<ProviderMessage> {
    vec![
        message(MessageRole::System, "rules", None, None),
        message(MessageRole::User, "hi", None, None),
        message(MessageRole::Assistant, "", Some(vec![call("c1", "search", "{\"q\":\"x\"}")]), None),
        message(MessageRole::Tool, "result", None, Some("c1")),
        message(MessageRole::Assistant, "done", None, None),
    ]
}

#[test]
fn openai_layout_puts_system_prompt_first() {
    let out = openai_messages(&Some("sys".into()), &conversation());
    assert_eq!(out.len(), 6);
    assert!(matches!(&out[0], OpenAIMessageOut::System { content } if content == "sys"));
    assert!(matches!(&out[1], OpenAIMessageOut::System { content } if content == "rules"));
    assert!(matches!(&out[2], OpenAIMessageOut::User { content } if content == "hi"));
    match &out[3] {
        OpenAIMessageOut::Assistant { content, tool_calls: Some(calls) } => {
            assert_eq!(content, "");
            assert_eq!(calls.len(), 1);
            assert_eq!((calls[0].id.as_str(), calls[0].name.as_str(), calls[0].arguments.as_str()), ("c1", "search", "{\"q\":\"x\"}"));
        }
        other => panic!("unexpected {:?}", other),
    }
    assert!(matches!(&out[4], OpenAIMessageOut::Tool { tool_call_id: Some(id), content } if id == "c1" && content == "result"));
    assert!(matches!(&out[5], OpenAIMessageOut::Assistant { content, tool_calls: None } if content == "done"));
    assert_eq!(openai_messages(&None, &conversation()).len(), 5);
}

#[test]
fn anthropic_layout_uses_blocks_for_tools() {
    let out = anthropic_messages(&conversation());
    assert_eq!(out.len(), 5);
    assert_eq!(out[0].role, "user");
    assert!(matches!(&out[0].content, AnthropicContentOut::Text(t) if t == "rules"));
    assert_eq!(out[2].role, "assistant");
    match &out[2].content {
        AnthropicContentOut::Blocks(blocks) => {
            assert_eq!(blocks.len(), 1);
            assert!(matches!(&blocks[0], AnthropicBlockOut::ToolUse { id, name, input } if id == "c1" && name == "search" && *input == json(r#"{"q":"x"}"#)));
        }
        other => panic!("unexpected {:?}", other),
    }
    assert_eq!(out[3].role, "user");
    match &out[3].content {
        AnthropicContentOut::Blocks(blocks) => {
            assert!(matches!(&blocks[0], AnthropicBlockOut::ToolResult { tool_use_id: Some(id), content } if id == "c1" && content == "result"));
        }
        other => panic!("unexpected {:?}", other),
    }
    assert!(matches!(&out[4].content, AnthropicContentOut::Text(t) if t == "done"));
    let with_text = anthropic_messages(&vec![message(MessageRole::Assistant, "let me look", Some(vec![call("a", "b", "{}")]), None)]);
    match &with_text[0].content {
        AnthropicContentOut::Blocks(blocks) => {
            assert_eq!(blocks.len(), 2);
            assert!(matches!(&blocks[0], AnthropicBlockOut::Text { text } if text == "let me look"));
        }
        other => panic!("unexpected {:?}", other),
    }
}

#[test]
fn gemini_layout_uses_model_role_and_function_parts() {
    let out = gemini_contents(&conversation());
    assert_eq!(out.len(), 5);
    let roles: Vec<&str> = out.iter().map(|c| c.role.as_str()).collect();
    assert_eq!(roles, vec!["user", "user", "model", "user", "model"]);
    assert!(matches!(&out[2].parts[0], GeminiPartOut::FunctionCall { name, args } if name == "search" && *args == json(r#"{"q":"x"}"#)));
    assert_eq!(out[2].parts.len(), 1);
    assert!(matches!(&out[3].parts[0], GeminiPartOut::FunctionResponse { name, result } if name == "c1" && result == "result"));
    assert!(matches!(&out[4].parts[0], GeminiPartOut::Text { text } if text == "done"));
    let orphan = gemini_contents(&vec![message(MessageRole::Tool, "r", None, None)]);
    assert!(matches!(&orphan[0].parts[0], GeminiPartOut::FunctionResponse { name, .. } if name.is_empty()));
}

#[test]
fn tool_definitions_copy_name_description_and_schema() {
    let tools = vec![
        ToolSchema { name: "a".into(), description: None, input_schema: json(r#"{"type":"object"}"#) },
        ToolSchema { name: "b".into(), description: Some("bee".into()), input_schema: json(r#"{"type":"string"}"#) },
    ];
    let defs = tool_defs(&tools);
    assert_eq!(defs.len(), 2);
    assert_eq!(defs[0].name, "a");
    assert!(defs[0].description.is_none());
    assert_eq!(defs[0].parameters, json(r#"{"type":"object"}"#));
    assert_eq!(defs[1].description.as_deref(), Some("bee"));
    assert_eq!(defs[1].parameters, json(r#"{"type":"string"}"#));
    assert!(optional_tool_defs(&vec![]).is_none());
    assert_eq!(optional_tool_defs(&tools).unwrap().len(), 2);
}

#[test]
fn tool_call_arguments_that_are_not_json_become_an_empty_object() {
    let broken = vec![message(MessageRole::Assistant, "", Some(vec![call("c9", "search", "not json")]), None)];
    match &anthropic_messages(&broken)[0].content {
        AnthropicContentOut::Blocks(blocks) => {
            assert!(matches!(&blocks[0], AnthropicBlockOut::ToolUse { input, .. } if *input == json("{}")));
        }
        other => panic!("unexpected {:?}", other),
    }
    let out = gemini_contents(&broken);
    assert!(matches!(&out[0].parts[0], GeminiPartOut::FunctionCall { args, .. } if *args == json("{}")));
}
