//! Provider request defaults and agent request construction.

use vstd::prelude::*;
use crate::constants::PROVIDER_DEFAULT_MAX_TOKENS;
use crate::text::owned;
use crate::rcs::types::ProviderId;
use super::error::ProviderCallError;
use super::request::{MessageRole, ProviderMessage, ProviderRequest, ToolSchema};

verus! {

/// Builds providers from run configuration (the construction itself reads the
/// environment and opens HTTP clients, outside this library).
pub struct ProviderRuntime;

/// The HTTP provider a configuration selects.
#[derive(Debug, Clone, Copy, PartialEq, Eq, Structural)]
pub enum HttpProviderKind {
    OpenAI,
    Anthropic,
    Gemini,
}

impl ProviderRuntime {
    /// Which provider to build for `provider_id`: the three HTTP providers are
    /// supported, a custom provider is refused with a 400 API error.
    pub fn provider_kind(provider_id: ProviderId) -> (r: Result<HttpProviderKind, ProviderCallError>)
        ensures
            provider_id == ProviderId::OpenAI ==> r == Ok::<HttpProviderKind, ProviderCallError>(HttpProviderKind::OpenAI),
            provider_id == ProviderId::Anthropic ==> r == Ok::<HttpProviderKind, ProviderCallError>(HttpProviderKind::Anthropic),
            provider_id == ProviderId::Gemini ==> r == Ok::<HttpProviderKind, ProviderCallError>(HttpProviderKind::Gemini),
            provider_id == ProviderId::Custom ==> (r matches Err(ProviderCallError::ApiError {
                provider_id: p,
                status_code,
                sanitized_message,
            }) && p@ == "custom"@ && status_code == 400
                && sanitized_message@ == "custom providers not supported in Sprint 6"@),
    {
        match provider_id {
            ProviderId::OpenAI => Ok(HttpProviderKind::OpenAI),
            ProviderId::Anthropic => Ok(HttpProviderKind::Anthropic),
            ProviderId::Gemini => Ok(HttpProviderKind::Gemini),
            ProviderId::Custom => Err(ProviderCallError::ApiError {
                provider_id: owned("custom"),
                status_code: 400,
                sanitized_message: owned("custom providers not supported in Sprint 6"),
            }),
        }
    }
}

/// Default `max_tokens` for provider requests.
pub fn default_max_tokens() -> (n: u32)
    ensures
        n == PROVIDER_DEFAULT_MAX_TOKENS,
{
    PROVIDER_DEFAULT_MAX_TOKENS
}

/// A request with the agent instructions as system prompt and the run input as
/// the single user message; no tools. The temperature is given as the bit
/// pattern of its `f32` value.
pub fn build_agent_request(
    instructions: &str,
    run_input: &str,
    max_tokens: u32,
    temperature_bits: u32,
) -> (r: ProviderRequest)
    ensures
        r.messages@.len() == 1,
        r.messages@[0].role == MessageRole::User,
        r.messages@[0].content@ == run_input@,
        r.messages@[0].tool_calls is None,
        r.messages@[0].tool_call_id is None,
        r.system_prompt matches Some(s) && s@ == instructions@,
        r.max_tokens == max_tokens,
        r.temperature_bits == temperature_bits,
        r.tools@.len() == 0,
{
    let mut messages: Vec<ProviderMessage> = Vec::new();
    messages.push(ProviderMessage {
        role: MessageRole::User,
        content: owned(run_input),
        tool_calls: None,
        tool_call_id: None,
    });
    let tools: Vec<ToolSchema> = Vec::new();
    ProviderRequest {
        messages,
        system_prompt: Some(owned(instructions)),
        max_tokens,
        temperature_bits,
        tools,
    }
}

} // verus!
