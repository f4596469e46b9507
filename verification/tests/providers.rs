use arcflow_core::providers::error::ProviderCallError;
use arcflow_core::providers::http::{
    anthropic_finish_reason, anthropic_response, anthropic_status_error, gemini_finish_reason, gemini_response,
    gemini_status_error, not_configured, openai_finish_reason, openai_http_error, openai_response, openai_status_error,
    response_parse_error, stream_not_exposed, transport_error, AnthropicBlock, GeminiCandidate, GeminiFunctionCall,
    GeminiPart, OpenAIChoice,
};
use arcflow_core::providers::mock::MockToolProvider;
use arcflow_core::providers::request::{MessageRole, ProviderMessage, ProviderRequest, ToolCallRequest, ToolSchema};
use arcflow_core::providers::response::{FinishReason, ProviderResponse};
use arcflow_core::providers::runtime::{build_agent_request, default_max_tokens, HttpProviderKind, ProviderRuntime};
use arcflow_core::rcs::types::ProviderId;
use arcflow_core::tracing::types::TokenUsage;

fn msg(role: MessageRole, content: &str) -> ProviderMessage {
    ProviderMessage { role, content: content.into(), tool_calls: None, tool_call_id: None }
}

fn schema(name: &str) -> ToolSchema {
    ToolSchema { name: name.into(), description: Some("d".into()), input_schema: serde_json::from_str(r#"{"type":"object"}"#).unwrap() }
}

fn request(messages: Vec<ProviderMessage>, tools: Vec<ToolSchema>) -> ProviderRequest {
    ProviderRequest { messages, system_prompt: None, max_tokens: 100, temperature_bits: 0.5f32.to_bits(), tools }
}

#[test]
fn error_ids_and_retryability() {
    let cases = [
        (ProviderCallError::AuthenticationFailed { provider_id: "a".into(), key_env_var: "K".into() }, false),
        (ProviderCallError::RateLimited { provider_id: "b".into(), retry_after_seconds: None }, true),
        (ProviderCallError::Timeout { provider_id: "c".into(), timeout_secs: 1 }, true),
        (ProviderCallError::ApiError { provider_id: "d".into(), status_code: 500, sanitized_message: "m".into() }, false),
        (ProviderCallError::ResponseParseError { provider_id: "e".into(), reason: "r".into() }, false),
        (ProviderCallError::NotConfigured { provider_id: "f".into(), key_env_var: "K".into() }, false),
        (ProviderCallError::ContentFiltered { provider_id: "g".into() }, false),
        (ProviderCallError::NetworkError { provider_id: "h".into(), sanitized_message: "m".into() }, true),
    ];
    let ids: Vec<&str> = cases.iter().map(|(e, _)| e.provider_id()).collect();
    assert_eq!(ids, vec!["a", "b", "c", "d", "e", "f", "g", "h"]);
    for (e, retryable) in cases.iter() {
        assert_eq!(e.is_retryable(), *retryable);
    }
}

#[test]
fn mock_echoes_last_user_message_without_tools() {
    let p = MockToolProvider::new();
    assert_eq!(p.provider_id(), "mock");
    assert_eq!(p.model_id(), "mock-tool-loop");
    let r = request(vec![msg(MessageRole::User, "first"), msg(MessageRole::Assistant, "ok"), msg(MessageRole::User, "hello")], vec![]);
    let resp = p.complete(r).unwrap();
    assert_eq!(resp.content, "hello");
    assert_eq!(resp.finish_reason, FinishReason::Stop);
    assert!(resp.tool_calls.is_none());
    assert_eq!(resp.model_id, "mock-tool-loop");
    assert_eq!(resp.tokens, TokenUsage { prompt_tokens: 12, completion_tokens: 8, total_tokens: 20 });
}

#[test]
fn mock_asks_for_the_first_tool_then_answers() {
    let p = MockToolProvider::new();
    let first = p.complete(request(vec![msg(MessageRole::User, "q")], vec![schema("search"), schema("other")])).unwrap();
    assert_eq!(first.content, "");
    assert_eq!(first.finish_reason, FinishReason::Other("tool_calls".into()));
    let calls = first.tool_calls.unwrap();
    assert_eq!(calls.len(), 1);
    assert_eq!(calls[0].id, "call_1");
    assert_eq!(calls[0].name, "search");
    assert_eq!(calls[0].arguments, "{\"query\":\"test\"}");
    let second = p
        .complete(request(
            vec![msg(MessageRole::User, "q"), msg(MessageRole::Tool, "r1"), msg(MessageRole::Tool, "r2")],
            vec![schema("search")],
        ))
        .unwrap();
    assert_eq!(second.content, "final answer using r1 r2");
    assert_eq!(second.finish_reason, FinishReason::Stop);
    assert!(second.tool_calls.is_none());
}

#[test]
fn mock_does_not_stream() {
    let p = MockToolProvider::new();
    let err = p.stream(request(vec![], vec![])).unwrap_err();
    assert_eq!(
        err,
        ProviderCallError::ApiError { provider_id: "mock".into(), status_code: 501, sanitized_message: "streaming not supported on mock provider".into() }
    );
}

#[test]
fn prompt_and_content_sizes_count_bytes() {
    let mut r = request(vec![msg(MessageRole::User, "héllo"), msg(MessageRole::Assistant, "ab")], vec![]);
    assert_eq!(r.prompt_size_bytes(), 8);
    r.system_prompt = Some("sys".into());
    assert_eq!(r.prompt_size_bytes(), 11);
    let resp = ProviderResponse {
        content: "ünï".into(),
        tokens: TokenUsage::default(),
        model_id: "m".into(),
        finish_reason: FinishReason::Stop,
        tool_calls: None,
    };
    assert_eq!(resp.content_size_bytes(), 5);
}

#[test]
fn agent_request_has_instructions_and_input() {
    let r = build_agent_request("be brief", "question", default_max_tokens(), 0.7f32.to_bits());
    assert_eq!(r.system_prompt.as_deref(), Some("be brief"));
    assert_eq!(r.messages.len(), 1);
    assert_eq!(r.messages[0].role, MessageRole::User);
    assert_eq!(r.messages[0].content, "question");
    assert_eq!(r.max_tokens, 1024);
    assert_eq!(f32::from_bits(r.temperature_bits), 0.7f32);
    assert!(r.tools.is_empty());
}

#[test]
fn http_status_classification() {
    assert!(openai_status_error(200).is_none());
    assert_eq!(
        openai_status_error(401),
        Some(ProviderCallError::AuthenticationFailed { provider_id: "openai".into(), key_env_var: "OPENAI_API_KEY".into() })
    );
    assert_eq!(openai_status_error(429), Some(ProviderCallError::RateLimited { provider_id: "openai".into(), retry_after_seconds: None }));
    assert_eq!(
        openai_http_error(500, Some("server_error")),
        ProviderCallError::ApiError { provider_id: "openai".into(), status_code: 500, sanitized_message: "server_error".into() }
    );
    assert!(anthropic_status_error(204).is_none());
    assert_eq!(
        anthropic_status_error(403),
        Some(ProviderCallError::ApiError { provider_id: "anthropic".into(), status_code: 403, sanitized_message: "api error".into() })
    );
    assert_eq!(
        gemini_status_error(403),
        Some(ProviderCallError::AuthenticationFailed { provider_id: "gemini".into(), key_env_var: "GEMINI_API_KEY".into() })
    );
    assert_eq!(gemini_status_error(429), Some(ProviderCallError::RateLimited { provider_id: "gemini".into(), retry_after_seconds: None }));
    assert_eq!(
        gemini_status_error(302),
        Some(ProviderCallError::ApiError { provider_id: "gemini".into(), status_code: 302, sanitized_message: "api error".into() })
    );
}

#[test]
fn transport_and_other_errors() {
    assert_eq!(transport_error("openai", true), ProviderCallError::Timeout { provider_id: "openai".into(), timeout_secs: 60 });
    assert_eq!(
        transport_error("gemini", false),
        ProviderCallError::NetworkError { provider_id: "gemini".into(), sanitized_message: "request failed".into() }
    );
    assert_eq!(not_configured("x", "X_KEY"), ProviderCallError::NotConfigured { provider_id: "x".into(), key_env_var: "X_KEY".into() });
    assert_eq!(response_parse_error("x", "bad"), ProviderCallError::ResponseParseError { provider_id: "x".into(), reason: "bad".into() });
    assert_eq!(
        stream_not_exposed("anthropic"),
        ProviderCallError::ApiError { provider_id: "anthropic".into(), status_code: 501, sanitized_message: "streaming not exposed in Sprint 6 SDK".into() }
    );
}

#[test]
fn finish_reasons_per_provider() {
    assert_eq!(anthropic_finish_reason(None), FinishReason::Stop);
    assert_eq!(anthropic_finish_reason(Some("end_turn")), FinishReason::Stop);
    assert_eq!(anthropic_finish_reason(Some("max_tokens")), FinishReason::MaxTokens);
    assert_eq!(anthropic_finish_reason(Some("tool_use")), FinishReason::Other("tool_use".into()));
    assert_eq!(openai_finish_reason(Some("length")), FinishReason::MaxTokens);
    assert_eq!(openai_finish_reason(Some("content_filter")), FinishReason::ContentFilter);
    assert_eq!(openai_finish_reason(Some("tool_calls")), FinishReason::Other("tool_calls".into()));
    assert_eq!(gemini_finish_reason(Some("STOP")), FinishReason::Stop);
    assert_eq!(gemini_finish_reason(Some("MAX_TOKENS")), FinishReason::MaxTokens);
    assert_eq!(gemini_finish_reason(Some("SAFETY")), FinishReason::Other("SAFETY".into()));
}

#[test]
fn anthropic_reply_joins_text_and_collects_tool_uses() {
    let block = |t: &str, text: Option<&str>, id: Option<&str>, name: Option<&str>, input: Option<&str>| AnthropicBlock {
        block_type: t.into(),
        text: text.map(|s| s.into()),
        id: id.map(|s| s.into()),
        name: name.map(|s| s.into()),
        input: input.map(|s| s.into()),
    };
    let blocks = vec![
        block("text", Some("Hello "), None, None, None),
        block("tool_use", None, Some("tu_1"), Some("search"), Some("{\"q\":1}")),
        block("tool_use", None, None, Some("skipped"), None),
        block("text", Some("world"), None, None, None),
        block("tool_use", None, Some("tu_2"), Some("calc"), None),
        block("image", Some("ignored"), None, None, None),
    ];
    let resp = anthropic_response("model-a".into(), blocks, Some("tool_use".into()), 7, 3);
    assert_eq!(resp.content, "Hello world");
    assert_eq!(resp.tokens, TokenUsage { prompt_tokens: 7, completion_tokens: 3, total_tokens: 10 });
    assert_eq!(resp.model_id, "model-a");
    assert_eq!(resp.finish_reason, FinishReason::Other("tool_use".into()));
    let calls = resp.tool_calls.unwrap();
    assert_eq!(calls.len(), 2);
    assert_eq!((calls[0].id.as_str(), calls[0].name.as_str(), calls[0].arguments.as_str()), ("tu_1", "search", "{\"q\":1}"));
    assert_eq!((calls[1].id.as_str(), calls[1].name.as_str(), calls[1].arguments.as_str()), ("tu_2", "calc", "{}"));
    let plain = anthropic_response("m".into(), vec![block("text", Some("x"), None, None, None)], None, 1, 1);
    assert!(plain.tool_calls.is_none());
    assert_eq!(plain.finish_reason, FinishReason::Stop);
}

#[test]
fn openai_reply_uses_the_first_choice() {
    let none = openai_response("model-o".into(), vec![], None).unwrap_err();
    assert_eq!(none, ProviderCallError::ResponseParseError { provider_id: "openai".into(), reason: "no choices".into() });
    let choices = vec![
        OpenAIChoice {
            content: None,
            tool_calls: Some(vec![ToolCallRequest { id: "c1".into(), name: "f".into(), arguments: "{}".into() }]),
            finish_reason: Some("tool_calls".into()),
        },
        OpenAIChoice { content: Some("ignored".into()), tool_calls: None, finish_reason: None },
    ];
    let usage = TokenUsage { prompt_tokens: 1, completion_tokens: 2, total_tokens: 3 };
    let resp = openai_response("model-o".into(), choices, Some(usage)).unwrap();
    assert_eq!(resp.content, "");
    assert_eq!(resp.tokens, usage);
    assert_eq!(resp.finish_reason, FinishReason::Other("tool_calls".into()));
    assert_eq!(resp.tool_calls.unwrap()[0].name, "f");
}

#[test]
fn gemini_reply_names_calls_after_the_function() {
    let none = gemini_response("gem", vec![], None).unwrap_err();
    assert_eq!(none, ProviderCallError::ResponseParseError { provider_id: "gemini".into(), reason: "no candidates".into() });
    let parts = vec![
        GeminiPart { text: Some("a".into()), function_call: None },
        GeminiPart { text: None, function_call: Some(GeminiFunctionCall { name: "lookup".into(), args: "{\"k\":2}".into() }) },
        GeminiPart { text: Some("b".into()), function_call: None },
    ];
    let resp = gemini_response("gem", vec![GeminiCandidate { parts, finish_reason: Some("MAX_TOKENS".into()) }], None).unwrap();
    assert_eq!(resp.content, "ab");
    assert_eq!(resp.tokens, TokenUsage::default());
    assert_eq!(resp.model_id, "gem");
    assert_eq!(resp.finish_reason, FinishReason::MaxTokens);
    let calls = resp.tool_calls.unwrap();
    assert_eq!((calls[0].id.as_str(), calls[0].name.as_str(), calls[0].arguments.as_str()), ("call_lookup", "lookup", "{\"k\":2}"));
}

#[test]
fn provider_kind_per_configured_id() {
    assert_eq!(ProviderRuntime::provider_kind(ProviderId::OpenAI), Ok(HttpProviderKind::OpenAI));
    assert_eq!(ProviderRuntime::provider_kind(ProviderId::Anthropic), Ok(HttpProviderKind::Anthropic));
    assert_eq!(ProviderRuntime::provider_kind(ProviderId::Gemini), Ok(HttpProviderKind::Gemini));
    assert_eq!(
        ProviderRuntime::provider_kind(ProviderId::Custom),
        Err(ProviderCallError::ApiError {
            provider_id: "custom".into(),
            status_code: 400,
            sanitized_message: "custom providers not supported in Sprint 6".into(),
        })
    );
}

#[test]
fn errors_are_fixed_by_status_or_transport_failure_alone() {
    for status in [301u16, 400, 401, 403, 404, 429, 500, 503] {
        assert_eq!(openai_status_error(status), openai_status_error(status));
        assert_eq!(anthropic_status_error(status), anthropic_status_error(status));
        assert_eq!(gemini_status_error(status), gemini_status_error(status));
        for e in [openai_status_error(status), anthropic_status_error(status), gemini_status_error(status)] {
            let text = format!("{:?}", e.unwrap());
            assert!(!text.contains("sk-"));
        }
    }
    assert_eq!(transport_error("openai", false), transport_error("openai", false));
    assert_eq!(transport_error("anthropic", true), transport_error("anthropic", true));
}
