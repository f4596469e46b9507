//! Deterministic mock provider for tool-loop tests: asks for the first tool
//! once, then answers with the tool results.

use vstd::prelude::*;
use crate::text::{append_str, joined, owned};
use crate::tracing::types::TokenUsage;
use super::error::ProviderCallError;
use super::request::{prompt_bytes, MessageRole, ProviderMessage, ProviderRequest, ToolCallRequest};
use super::response::{FinishReason, ProviderResponse};

verus! {

/// Returns a tool call on the first request, then a final answer using tool results.
pub struct MockToolProvider {
    model: String,
}

/// Content of the last user message, if any.
pub open spec fn last_user_content(messages: Seq<ProviderMessage>) -> Option<Seq<char>>
    decreases messages.len(),
{
    if messages.len() == 0 {
        None
    } else if messages.last().role == MessageRole::User {
        Some(messages.last().content@)
    } else {
        last_user_content(messages.drop_last())
    }
}

/// Contents of the tool messages, in order.
pub open spec fn tool_outputs(messages: Seq<ProviderMessage>) -> Seq<Seq<char>>
    decreases messages.len(),
{
    if messages.len() == 0 {
        Seq::empty()
    } else if messages.last().role == MessageRole::Tool {
        tool_outputs(messages.drop_last()).push(messages.last().content@)
    } else {
        tool_outputs(messages.drop_last())
    }
}

/// Token counts the mock reports: the prompt size (truncated to `u32`) as
/// prompt tokens, 8 completion tokens, and their sum.
pub open spec fn mock_tokens(r: ProviderRequest) -> TokenUsage {
    TokenUsage {
        prompt_tokens: prompt_bytes(r) as u32,
        completion_tokens: 8,
        total_tokens: ((prompt_bytes(r) as u32) + 8) as u32,
    }
}

/// Requests the mock answers without overflow.
pub open spec fn mock_accepts(r: ProviderRequest) -> bool {
    &&& prompt_bytes(r) <= usize::MAX
    &&& (prompt_bytes(r) as u32) + 8 <= u32::MAX
}

/// The response a mock with model id `model` gives to `r`.
pub open spec fn mock_answer(r: ProviderRequest, model: Seq<char>, resp: ProviderResponse) -> bool {
    &&& resp.tokens == mock_tokens(r)
    &&& resp.model_id@ == model
    &&& if r.tools@.len() == 0 {
        &&& resp.content@ == (match last_user_content(r.messages@) {
            Some(c) => c,
            None => Seq::empty(),
        })
        &&& resp.finish_reason == FinishReason::Stop
        &&& resp.tool_calls is None
    } else if tool_outputs(r.messages@).len() == 0 {
        &&& resp.content@ == Seq::<char>::empty()
        &&& resp.finish_reason matches FinishReason::Other(why) && why@ == "tool_calls"@
        &&& resp.tool_calls matches Some(calls) && calls@.len() == 1
            && calls@[0].id@ == "call_1"@
            && calls@[0].name@ == r.tools@[0].name@
            && calls@[0].arguments@ == "{\"query\":\"test\"}"@
    } else {
        &&& resp.content@ == "final answer using "@ + joined(tool_outputs(r.messages@), " "@)
        &&& resp.finish_reason == FinishReason::Stop
        &&& resp.tool_calls is None
    }
}

impl MockToolProvider {
    pub closed spec fn model(&self) -> Seq<char> {
        self.model@
    }

    pub fn new() -> (p: Self)
        ensures
            p.model() == "mock-tool-loop"@,
    {
        MockToolProvider { model: owned("mock-tool-loop") }
    }

    pub fn provider_id(&self) -> (r: &'static str)
        ensures
            r@ == "mock"@,
    {
        "mock"
    }

    pub fn model_id(&self) -> (r: &str)
        ensures
            r@ == self.model(),
    {
        self.model.as_str()
    }

    /// Without tools, echoes the last user message. With tools and no tool
    /// result yet, requests the first tool. With tool results, answers with
    /// them joined by spaces.
    pub fn complete(&self, request: ProviderRequest) -> (r: Result<ProviderResponse, ProviderCallError>)
        requires
            mock_accepts(request),
        ensures
            r matches Ok(resp) && mock_answer(request, self.model(), resp),
    {
        let size = request.prompt_size_bytes();
        let tokens = TokenUsage {
            prompt_tokens: size as u32,
            completion_tokens: 8,
            total_tokens: size as u32 + 8,
        };
        if request.tools.len() == 0 {
            let content = match last_user(&request.messages) {
                Some(c) => c,
                None => String::new(),
            };
            return Ok(ProviderResponse {
                content,
                tokens,
                model_id: self.model.clone(),
                finish_reason: FinishReason::Stop,
                tool_calls: None,
            });
        }
        let (count, tool_output) = join_tool_outputs(&request.messages);
        if count == 0 {
            let call = ToolCallRequest {
                id: owned("call_1"),
                name: request.tools[0].name.clone(),
                arguments: owned("{\"query\":\"test\"}"),
            };
            let mut calls: Vec<ToolCallRequest> = Vec::new();
            calls.push(call);
            return Ok(ProviderResponse {
                content: String::new(),
                tokens,
                model_id: self.model.clone(),
                finish_reason: FinishReason::Other(owned("tool_calls")),
                tool_calls: Some(calls),
            });
        }
        let mut content = owned("final answer using ");
        append_str(&mut content, tool_output.as_str());
        Ok(ProviderResponse {
            content,
            tokens,
            model_id: self.model.clone(),
            finish_reason: FinishReason::Stop,
            tool_calls: None,
        })
    }

    /// Streaming is not offered by the mock.
    pub fn stream(&self, request: ProviderRequest) -> (r: Result<(), ProviderCallError>)
        ensures
            r matches Err(ProviderCallError::ApiError { provider_id, status_code, sanitized_message })
                && provider_id@ == "mock"@ && status_code == 501
                && sanitized_message@ == "streaming not supported on mock provider"@,
    {
        Err(ProviderCallError::ApiError {
            provider_id: owned("mock"),
            status_code: 501,
            sanitized_message: owned("streaming not supported on mock provider"),
        })
    }
}

impl Default for MockToolProvider {
    fn default() -> (p: Self)
        ensures
            p.model() == "mock-tool-loop"@,
    {
        MockToolProvider::new()
    }
}

/// Content of the last user message.
fn last_user(messages: &Vec<ProviderMessage>) -> (r: Option<String>)
    ensures
        match r {
            Some(c) => last_user_content(messages@) == Some(c@),
            None => last_user_content(messages@) is None,
        },
{
    let mut i: usize = messages.len();
    assert(messages@.take(i as int) =~= messages@);
    while i > 0
        invariant
            i <= messages@.len(),
            last_user_content(messages@) == last_user_content(messages@.take(i as int)),
        decreases i,
    {
        assert(messages@.take(i as int).drop_last() =~= messages@.take(i - 1));
        if messages[i - 1].role == MessageRole::User {
            return Some(messages[i - 1].content.clone());
        }
        i = i - 1;
    }
    None
}

/// Number of tool messages, and their contents joined by single spaces.
fn join_tool_outputs(messages: &Vec<ProviderMessage>) -> (r: (usize, String))
    ensures
        r.0 == tool_outputs(messages@).len(),
        r.1@ == joined(tool_outputs(messages@), " "@),
{
    let mut out = String::new();
    let mut count: usize = 0;
    let mut i: usize = 0;
    assert(messages@.take(0) =~= Seq::<ProviderMessage>::empty());
    while i < messages.len()
        invariant
            i <= messages@.len(),
            count == tool_outputs(messages@.take(i as int)).len(),
            count <= i,
            out@ == joined(tool_outputs(messages@.take(i as int)), " "@),
        decreases messages.len() - i,
    {
        assert(messages@.take(i + 1).drop_last() =~= messages@.take(i as int));
        if messages[i].role == MessageRole::Tool {
            let ghost prev = tool_outputs(messages@.take(i as int));
            let ghost c = messages@[i as int].content@;
            assert(tool_outputs(messages@.take(i + 1)) == prev.push(c));
            assert(prev.push(c).drop_last() =~= prev);
            if count > 0 {
                append_str(&mut out, " ");
            }
            append_str(&mut out, messages[i].content.as_str());
            if count == 0 {
                assert(out@ =~= c);
            }
            count = count + 1;
        }
        i = i + 1;
    }
    assert(messages@.take(messages@.len() as int) =~= messages@);
    (count, out)
}

} // verus!
