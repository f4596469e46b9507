//! Unified provider response types.

use vstd::prelude::*;
use crate::text::utf8_len;
use crate::tracing::types::TokenUsage;
use super::request::ToolCallRequest;

verus! {

/// Why the model stopped generating.
#[derive(Debug, Clone, PartialEq, Eq)]
pub enum FinishReason {
    Stop,
    MaxTokens,
    ContentFilter,
    Other(String),
}

/// Completed provider response.
#[derive(Debug)]
pub struct ProviderResponse {
    /// Never logged or traced.
    pub content: String,
    pub tokens: TokenUsage,
    pub model_id: String,
    pub finish_reason: FinishReason,
    pub tool_calls: Option<Vec<ToolCallRequest>>,
}

impl ProviderResponse {
    /// UTF-8 byte length of the content.
    pub fn content_size_bytes(&self) -> (n: usize)
        ensures
            n == utf8_len(self.content@),
    {
        crate::text::byte_len(&self.content)
    }
}

/// One chunk in a streaming response.
#[derive(Debug)]
pub struct StreamChunk {
    pub content: String,
    pub is_final: bool,
    pub tokens: Option<TokenUsage>,
}

} // verus!
