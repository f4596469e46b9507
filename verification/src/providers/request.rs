//! Unified provider request types. Prompt text is never logged or traced.

use vstd::prelude::*;
use crate::text::utf8_len;

verus! {

#[verifier::external_type_specification]
#[verifier::external_body]
pub struct ExJsonValue(serde_json::Value);

/// JSON-schema tool definition sent to providers.
#[derive(Debug)]
pub struct ToolSchema {
    pub name: String,
    pub description: Option<String>,
    pub input_schema: serde_json::Value,
}

/// A single tool invocation requested by the model.
#[derive(Debug, PartialEq, Eq)]
pub struct ToolCallRequest {
    pub id: String,
    pub name: String,
    /// Never logged or traced.
    pub arguments: String,
}

impl Clone for ToolCallRequest {
    fn clone(&self) -> (r: Self)
        ensures
            r == *self,
    {
        ToolCallRequest { id: self.id.clone(), name: self.name.clone(), arguments: self.arguments.clone() }
    }
}

/// Author of a conversation message.
#[derive(Debug, Clone, Copy, PartialEq, Eq, Structural)]
pub enum MessageRole {
    System,
    User,
    Assistant,
    Tool,
}

/// A single message in a provider conversation.
#[derive(Debug)]
pub struct ProviderMessage {
    pub role: MessageRole,
    /// Never logged or traced.
    pub content: String,
    /// Tool calls on assistant messages.
    pub tool_calls: Option<Vec<ToolCallRequest>>,
    /// Tool result correlation id on tool messages.
    pub tool_call_id: Option<String>,
}

/// Completion request for any provider. The sampling temperature is carried as
/// the IEEE-754 bit pattern of its `f32` value.
#[derive(Debug)]
pub struct ProviderRequest {
    pub messages: Vec<ProviderMessage>,
    pub system_prompt: Option<String>,
    pub max_tokens: u32,
    pub temperature_bits: u32,
    pub tools: Vec<ToolSchema>,
}

/// Summed UTF-8 byte lengths of the messages' contents.
pub open spec fn message_bytes(messages: Seq<ProviderMessage>) -> nat
    decreases messages.len(),
{
    if messages.len() == 0 {
        0
    } else {
        message_bytes(messages.drop_last()) + utf8_len(messages.last().content@)
    }
}

/// Prompt size in bytes: every message's content plus the system prompt.
pub open spec fn prompt_bytes(r: ProviderRequest) -> nat {
    message_bytes(r.messages@) + match r.system_prompt {
        Some(s) => utf8_len(s@),
        None => 0,
    }
}

proof fn lemma_message_bytes_prefix(messages: Seq<ProviderMessage>, i: int)
    requires
        0 <= i <= messages.len(),
    ensures
        message_bytes(messages.take(i)) <= message_bytes(messages),
    decreases messages.len(),
{
    if i < messages.len() {
        assert(messages.drop_last().take(i) =~= messages.take(i));
        lemma_message_bytes_prefix(messages.drop_last(), i);
    } else {
        assert(messages.take(i) =~= messages);
    }
}

impl ProviderRequest {
    /// Byte size of the prompt, safe for trace metadata.
    pub fn prompt_size_bytes(&self) -> (n: usize)
        requires
            prompt_bytes(*self) <= usize::MAX,
        ensures
            n == prompt_bytes(*self),
    {
        let mut total: usize = 0;
        let mut i: usize = 0;
        while i < self.messages.len()
            invariant
                i <= self.messages@.len(),
                prompt_bytes(*self) <= usize::MAX,
                total == message_bytes(self.messages@.take(i as int)),
            decreases self.messages.len() - i,
        {
            proof {
                assert(self.messages@.take(i + 1).drop_last() =~= self.messages@.take(i as int));
                lemma_message_bytes_prefix(self.messages@, i + 1);
            }
            total = total + crate::text::byte_len(&self.messages[i].content);
            i = i + 1;
        }
        assert(self.messages@.take(self.messages@.len() as int) =~= self.messages@);
        match &self.system_prompt {
            Some(s) => total + crate::text::byte_len(s),
            None => total,
        }
    }
}

} // verus!
