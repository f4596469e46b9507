//! Request bodies for the HTTP providers, as the library's own values: the
//! conversation laid out the way each provider's API expects it. OpenAI takes
//! tool-call arguments as the JSON text the model produced; Anthropic and
//! Gemini take them parsed.

use vstd::prelude::*;
use crate::text::owned;
use super::request::{MessageRole, ProviderMessage, ToolCallRequest, ToolSchema};

verus! {

/// A tool definition as every provider receives it.
#[derive(Debug)]
pub struct ToolDefOut {
    pub name: String,
    pub description: Option<String>,
    pub parameters: serde_json::Value,
}

/// An OpenAI chat tool call: `{"id", "type": "function", "function": {"name", "arguments"}}`.
#[derive(Debug)]
pub struct OpenAIToolCallOut {
    pub id: String,
    pub name: String,
    pub arguments: String,
}

/// An OpenAI chat message, by role.
#[derive(Debug)]
pub enum OpenAIMessageOut {
    System { content: String },
    User { content: String },
    Assistant { content: String, tool_calls: Option<Vec<OpenAIToolCallOut>> },
    Tool { tool_call_id: Option<String>, content: String },
}

/// A block of Anthropic message content.
#[derive(Debug)]
pub enum AnthropicBlockOut {
    Text { text: String },
    /// The call's arguments parsed as JSON (an empty object when they do not parse).
    ToolUse { id: String, name: String, input: serde_json::Value },
    ToolResult { tool_use_id: Option<String>, content: String },
}

/// Anthropic message content: plain text or a list of blocks.
#[derive(Debug)]
pub enum AnthropicContentOut {
    Text(String),
    Blocks(Vec<AnthropicBlockOut>),
}

/// An Anthropic message; `role` is "user" or "assistant".
#[derive(Debug)]
pub struct AnthropicMessageOut {
    pub role: String,
    pub content: AnthropicContentOut,
}

/// A part of Gemini content.
#[derive(Debug)]
pub enum GeminiPartOut {
    Text { text: String },
    /// The call's arguments parsed as JSON (an empty object when they do not parse).
    FunctionCall { name: String, args: serde_json::Value },
    /// Sent as `{"name", "response": {"result": result}}`.
    FunctionResponse { name: String, result: String },
}

/// Gemini content; `role` is "model" or "user".
#[derive(Debug)]
pub struct GeminiContentOut {
    pub role: String,
    pub parts: Vec<GeminiPartOut>,
}

/// The text an optional string holds, if any.
pub open spec fn opt_text(o: Option<String>) -> Option<Seq<char>> {
    match o {
        Some(s) => Some(s@),
        None => None,
    }
}

/// Whether `d` describes tool `t`.
pub open spec fn tool_def_of(d: ToolDefOut, t: ToolSchema) -> bool {
    &&& d.name@ == t.name@
    &&& opt_text(d.description) == opt_text(t.description)
    &&& d.parameters == t.input_schema
}

/// Whether `defs` describe `tools`, one for one and in order.
pub open spec fn tool_defs_of(defs: Seq<ToolDefOut>, tools: Seq<ToolSchema>) -> bool {
    &&& defs.len() == tools.len()
    &&& forall|i: int| 0 <= i < tools.len() ==> tool_def_of(#[trigger] defs[i], tools[i])
}

/// The JSON value `serde_json::from_str` reads from `text`, or an empty
/// object when `text` does not parse.
pub uninterp spec fn json_or_empty(text: Seq<char>) -> serde_json::Value;

/// Parses JSON text (`serde_json::from_str`); an empty object when it does
/// not parse. The value is named by `json_or_empty`.
#[verifier::external_body]
fn parse_json_or_empty(text: &str) -> (v: serde_json::Value)
    ensures
        v == json_or_empty(text@),
{
    match serde_json::from_str(text) {
        Ok(v) => v,
        Err(_) => serde_json::Value::Object(serde_json::Map::new()),
    }
}

/// Copies a JSON value (`serde_json::Value`'s `Clone`).
#[verifier::external_body]
fn clone_json(v: &serde_json::Value) -> (r: serde_json::Value)
    ensures
        r == *v,
{
    v.clone()
}

fn clone_opt(o: &Option<String>) -> (r: Option<String>)
    ensures
        opt_text(r) == opt_text(*o),
{
    match o {
        Some(s) => Some(s.clone()),
        None => None,
    }
}

/// Tool definitions for `tools`, in order.
pub fn tool_defs(tools: &Vec<ToolSchema>) -> (r: Vec<ToolDefOut>)
    ensures
        tool_defs_of(r@, tools@),
{
    let mut out: Vec<ToolDefOut> = Vec::new();
    let mut i: usize = 0;
    while i < tools.len()
        invariant
            i <= tools@.len(),
            out@.len() == i,
            forall|j: int| 0 <= j < i ==> tool_def_of(#[trigger] out@[j], tools@[j]),
        decreases tools.len() - i,
    {
        let t = &tools[i];
        out.push(ToolDefOut {
            name: t.name.clone(),
            description: clone_opt(&t.description),
            parameters: clone_json(&t.input_schema),
        });
        i = i + 1;
    }
    out
}

/// Tool definitions for `tools`, or `None` when there are none (the field is then left out).
pub fn optional_tool_defs(tools: &Vec<ToolSchema>) -> (r: Option<Vec<ToolDefOut>>)
    ensures
        r is None == (tools@.len() == 0),
        r matches Some(defs) ==> tool_defs_of(defs@, tools@),
{
    if tools.len() == 0 {
        None
    } else {
        Some(tool_defs(tools))
    }
}

/// Whether `c` carries call `call`.
pub open spec fn openai_call_of(c: OpenAIToolCallOut, call: ToolCallRequest) -> bool {
    c.id@ == call.id@ && c.name@ == call.name@ && c.arguments@ == call.arguments@
}

/// Whether `out` is message `m` as OpenAI receives it.
pub open spec fn openai_message_of(out: OpenAIMessageOut, m: ProviderMessage) -> bool {
    match m.role {
        MessageRole::System => out matches OpenAIMessageOut::System { content } && content@ == m.content@,
        MessageRole::User => out matches OpenAIMessageOut::User { content } && content@ == m.content@,
        MessageRole::Assistant => {
            &&& out matches OpenAIMessageOut::Assistant { content, tool_calls }
            &&& content@ == m.content@
            &&& match (m.tool_calls, tool_calls) {
                (None, None) => true,
                (Some(calls), Some(outs)) => outs@.len() == calls@.len() && forall|i: int|
                    0 <= i < calls@.len() ==> openai_call_of(#[trigger] outs@[i], calls@[i]),
                _ => false,
            }
        },
        MessageRole::Tool => {
            &&& out matches OpenAIMessageOut::Tool { tool_call_id, content }
            &&& opt_text(tool_call_id) == opt_text(m.tool_call_id)
            &&& content@ == m.content@
        },
    }
}

fn openai_calls(calls: &Vec<ToolCallRequest>) -> (r: Vec<OpenAIToolCallOut>)
    ensures
        r@.len() == calls@.len(),
        forall|i: int| 0 <= i < calls@.len() ==> openai_call_of(#[trigger] r@[i], calls@[i]),
{
    let mut out: Vec<OpenAIToolCallOut> = Vec::new();
    let mut i: usize = 0;
    while i < calls.len()
        invariant
            i <= calls@.len(),
            out@.len() == i,
            forall|j: int| 0 <= j < i ==> openai_call_of(#[trigger] out@[j], calls@[j]),
        decreases calls.len() - i,
    {
        let c = &calls[i];
        out.push(OpenAIToolCallOut { id: c.id.clone(), name: c.name.clone(), arguments: c.arguments.clone() });
        i = i + 1;
    }
    out
}

fn openai_message(m: &ProviderMessage) -> (r: OpenAIMessageOut)
    ensures
        openai_message_of(r, *m),
{
    match m.role {
        MessageRole::System => OpenAIMessageOut::System { content: m.content.clone() },
        MessageRole::User => OpenAIMessageOut::User { content: m.content.clone() },
        MessageRole::Assistant => {
            let tool_calls = match &m.tool_calls {
                Some(calls) => Some(openai_calls(calls)),
                None => None,
            };
            OpenAIMessageOut::Assistant { content: m.content.clone(), tool_calls }
        },
        MessageRole::Tool => OpenAIMessageOut::Tool {
            tool_call_id: clone_opt(&m.tool_call_id),
            content: m.content.clone(),
        },
    }
}

/// OpenAI chat messages: the system prompt first, when there is one, then
/// each message by its role.
pub fn openai_messages(system_prompt: &Option<String>, messages: &Vec<ProviderMessage>) -> (r: Vec<
    OpenAIMessageOut,
>)
    ensures
        ({
            let off: int = if system_prompt is Some { 1 } else { 0 };
            &&& r@.len() == off + messages@.len()
            &&& system_prompt matches Some(s) ==> (r@[0] matches OpenAIMessageOut::System { content }
                && content@ == s@)
            &&& forall|i: int| 0 <= i < messages@.len() ==> openai_message_of(#[trigger] r@[off + i], messages@[i])
        }),
{
    let mut out: Vec<OpenAIMessageOut> = Vec::new();
    if let Some(s) = system_prompt {
        out.push(OpenAIMessageOut::System { content: s.clone() });
    }
    let ghost off: int = if system_prompt is Some { 1 } else { 0 };
    let ghost first = out@;
    let mut i: usize = 0;
    while i < messages.len()
        invariant
            i <= messages@.len(),
            off == (if system_prompt is Some { 1int } else { 0int }),
            out@.len() == off + i,
            first.len() == off,
            forall|k: int| 0 <= k < off ==> out@[k] == first[k],
            system_prompt matches Some(s) ==> (first[0] matches OpenAIMessageOut::System { content }
                && content@ == s@),
            forall|j: int| 0 <= j < i ==> openai_message_of(#[trigger] out@[off + j], messages@[j]),
        decreases messages.len() - i,
    {
        out.push(openai_message(&messages[i]));
        i = i + 1;
    }
    out
}

/// Whether `blocks` lay out an assistant turn with text `content` and tool
/// calls `calls`: a text block first unless the text is empty, then one
/// tool-use block per call.
pub open spec fn anthropic_turn_blocks(
    blocks: Seq<AnthropicBlockOut>,
    content: Seq<char>,
    calls: Seq<ToolCallRequest>,
) -> bool {
    let off: int = if content.len() > 0 { 1 } else { 0 };
    &&& blocks.len() == off + calls.len()
    &&& off == 1 ==> (blocks[0] matches AnthropicBlockOut::Text { text } && text@ == content)
    &&& forall|i: int| #![trigger calls[i]] 0 <= i < calls.len() ==> (blocks[off + i] matches AnthropicBlockOut::ToolUse {
        id,
        name,
        input,
    } && id@ == calls[i].id@ && name@ == calls[i].name@ && input == json_or_empty(calls[i].arguments@))
}

/// Whether `out` is message `m` as Anthropic receives it: tool results as a
/// user turn, assistant turns with tool calls as blocks, other assistant
/// turns as text, and everything else as user text.
pub open spec fn anthropic_message_of(out: AnthropicMessageOut, m: ProviderMessage) -> bool {
    match m.role {
        MessageRole::Tool => {
            &&& out.role@ == "user"@
            &&& out.content matches AnthropicContentOut::Blocks(blocks)
            &&& blocks@.len() == 1
            &&& blocks@[0] matches AnthropicBlockOut::ToolResult { tool_use_id, content }
            &&& opt_text(tool_use_id) == opt_text(m.tool_call_id)
            &&& content@ == m.content@
        },
        MessageRole::Assistant => {
            &&& out.role@ == "assistant"@
            &&& match m.tool_calls {
                Some(calls) => out.content matches AnthropicContentOut::Blocks(blocks)
                    && anthropic_turn_blocks(blocks@, m.content@, calls@),
                None => out.content matches AnthropicContentOut::Text(t) && t@ == m.content@,
            }
        },
        _ => {
            &&& out.role@ == "user"@
            &&& out.content matches AnthropicContentOut::Text(t)
            &&& t@ == m.content@
        },
    }
}

fn anthropic_blocks(content: &String, calls: &Vec<ToolCallRequest>) -> (r: Vec<AnthropicBlockOut>)
    ensures
        anthropic_turn_blocks(r@, content@, calls@),
{
    let mut out: Vec<AnthropicBlockOut> = Vec::new();
    if !content.as_str().is_empty() {
        out.push(AnthropicBlockOut::Text { text: content.clone() });
    }
    let ghost off: int = if content@.len() > 0 { 1 } else { 0 };
    let ghost first = out@;
    let mut i: usize = 0;
    while i < calls.len()
        invariant
            i <= calls@.len(),
            off == (if content@.len() > 0 { 1int } else { 0int }),
            out@.len() == off + i,
            first.len() == off,
            forall|k: int| 0 <= k < off ==> out@[k] == first[k],
            off == 1 ==> (first[0] matches AnthropicBlockOut::Text { text } && text@ == content@),
            forall|j: int| 0 <= j < i ==> (#[trigger] out@[off + j] matches AnthropicBlockOut::ToolUse {
                id,
                name,
                input,
            } && id@ == calls@[j].id@ && name@ == calls@[j].name@ && input == json_or_empty(calls@[j].arguments@)),
        decreases calls.len() - i,
    {
        let c = &calls[i];
        out.push(AnthropicBlockOut::ToolUse { id: c.id.clone(), name: c.name.clone(), input: parse_json_or_empty(c.arguments.as_str()) });
        i = i + 1;
    }
    out
}

fn anthropic_message(m: &ProviderMessage) -> (r: AnthropicMessageOut)
    ensures
        anthropic_message_of(r, *m),
{
    match m.role {
        MessageRole::Tool => {
            let mut blocks: Vec<AnthropicBlockOut> = Vec::new();
            blocks.push(AnthropicBlockOut::ToolResult {
                tool_use_id: clone_opt(&m.tool_call_id),
                content: m.content.clone(),
            });
            AnthropicMessageOut { role: owned("user"), content: AnthropicContentOut::Blocks(blocks) }
        },
        MessageRole::Assistant => match &m.tool_calls {
            Some(calls) => AnthropicMessageOut {
                role: owned("assistant"),
                content: AnthropicContentOut::Blocks(anthropic_blocks(&m.content, calls)),
            },
            None => AnthropicMessageOut {
                role: owned("assistant"),
                content: AnthropicContentOut::Text(m.content.clone()),
            },
        },
        _ => AnthropicMessageOut { role: owned("user"), content: AnthropicContentOut::Text(m.content.clone()) },
    }
}

/// Anthropic messages, one per conversation message and in order (the system
/// prompt travels in its own field).
pub fn anthropic_messages(messages: &Vec<ProviderMessage>) -> (r: Vec<AnthropicMessageOut>)
    ensures
        r@.len() == messages@.len(),
        forall|i: int| 0 <= i < messages@.len() ==> anthropic_message_of(#[trigger] r@[i], messages@[i]),
{
    let mut out: Vec<AnthropicMessageOut> = Vec::new();
    let mut i: usize = 0;
    while i < messages.len()
        invariant
            i <= messages@.len(),
            out@.len() == i,
            forall|j: int| 0 <= j < i ==> anthropic_message_of(#[trigger] out@[j], messages@[j]),
        decreases messages.len() - i,
    {
        out.push(anthropic_message(&messages[i]));
        i = i + 1;
    }
    out
}

/// Whether `parts` lay out an assistant turn with text `content` and tool
/// calls `calls`: a text part first unless the text is empty, then one
/// function call per tool call.
pub open spec fn gemini_turn_parts(parts: Seq<GeminiPartOut>, content: Seq<char>, calls: Seq<ToolCallRequest>) -> bool {
    let off: int = if content.len() > 0 { 1 } else { 0 };
    &&& parts.len() == off + calls.len()
    &&& off == 1 ==> (parts[0] matches GeminiPartOut::Text { text } && text@ == content)
    &&& forall|i: int| #![trigger calls[i]] 0 <= i < calls.len() ==> (parts[off + i] matches GeminiPartOut::FunctionCall {
        name,
        args,
    } && name@ == calls[i].name@ && args == json_or_empty(calls[i].arguments@))
}

/// Whether `out` is message `m` as Gemini receives it: assistant turns under
/// role "model", everything else under "user"; tool results as a function
/// response named by the call id (empty when absent).
pub open spec fn gemini_content_of(out: GeminiContentOut, m: ProviderMessage) -> bool {
    &&& out.role@ == (if m.role == MessageRole::Assistant { "model"@ } else { "user"@ })
    &&& match m.role {
        MessageRole::Tool => {
            &&& out.parts@.len() == 1
            &&& out.parts@[0] matches GeminiPartOut::FunctionResponse { name, result }
            &&& name@ == (match m.tool_call_id {
                Some(id) => id@,
                None => Seq::<char>::empty(),
            })
            &&& result@ == m.content@
        },
        MessageRole::Assistant if m.tool_calls is Some => gemini_turn_parts(
            out.parts@,
            m.content@,
            m.tool_calls.unwrap()@,
        ),
        _ => {
            &&& out.parts@.len() == 1
            &&& out.parts@[0] matches GeminiPartOut::Text { text }
            &&& text@ == m.content@
        },
    }
}

fn gemini_parts(content: &String, calls: &Vec<ToolCallRequest>) -> (r: Vec<GeminiPartOut>)
    ensures
        gemini_turn_parts(r@, content@, calls@),
{
    let mut out: Vec<GeminiPartOut> = Vec::new();
    if !content.as_str().is_empty() {
        out.push(GeminiPartOut::Text { text: content.clone() });
    }
    let ghost off: int = if content@.len() > 0 { 1 } else { 0 };
    let ghost first = out@;
    let mut i: usize = 0;
    while i < calls.len()
        invariant
            i <= calls@.len(),
            off == (if content@.len() > 0 { 1int } else { 0int }),
            out@.len() == off + i,
            first.len() == off,
            forall|k: int| 0 <= k < off ==> out@[k] == first[k],
            off == 1 ==> (first[0] matches GeminiPartOut::Text { text } && text@ == content@),
            forall|j: int| 0 <= j < i ==> (#[trigger] out@[off + j] matches GeminiPartOut::FunctionCall {
                name,
                args,
            } && name@ == calls@[j].name@ && args == json_or_empty(calls@[j].arguments@)),
        decreases calls.len() - i,
    {
        let c = &calls[i];
        out.push(GeminiPartOut::FunctionCall { name: c.name.clone(), args: parse_json_or_empty(c.arguments.as_str()) });
        i = i + 1;
    }
    out
}

fn gemini_content(m: &ProviderMessage) -> (r: GeminiContentOut)
    ensures
        gemini_content_of(r, *m),
{
    let role = if m.role == MessageRole::Assistant { owned("model") } else { owned("user") };
    let parts = match m.role {
        MessageRole::Tool => {
            let name = match &m.tool_call_id {
                Some(id) => id.clone(),
                None => String::new(),
            };
            let mut parts: Vec<GeminiPartOut> = Vec::new();
            parts.push(GeminiPartOut::FunctionResponse { name, result: m.content.clone() });
            parts
        },
        MessageRole::Assistant if m.tool_calls.is_some() => match &m.tool_calls {
            Some(calls) => gemini_parts(&m.content, calls),
            None => Vec::new(),
        },
        _ => {
            let mut parts: Vec<GeminiPartOut> = Vec::new();
            parts.push(GeminiPartOut::Text { text: m.content.clone() });
            parts
        },
    };
    GeminiContentOut { role, parts }
}

/// Gemini contents, one per conversation message and in order (the system
/// prompt travels as the system instruction).
pub fn gemini_contents(messages: &Vec<ProviderMessage>) -> (r: Vec<GeminiContentOut>)
    ensures
        r@.len() == messages@.len(),
        forall|i: int| 0 <= i < messages@.len() ==> gemini_content_of(#[trigger] r@[i], messages@[i]),
{
    let mut out: Vec<GeminiContentOut> = Vec::new();
    let mut i: usize = 0;
    while i < messages.len()
        invariant
            i <= messages@.len(),
            out@.len() == i,
            forall|j: int| 0 <= j < i ==> gemini_content_of(#[trigger] out@[j], messages@[j]),
        decreases messages.len() - i,
    {
        out.push(gemini_content(&messages[i]));
        i = i + 1;
    }
    out
}

/// Gemini receives every message whole: non-empty text of a user, system or
/// assistant message is carried as a text part, a tool result as a function
/// response carrying the result text, and an assistant's tool calls as the
/// trailing function-call parts, one per call and in order, preceded only by
/// the text (exactly when it is non-empty).
pub proof fn law_gemini_keeps_messages(out: GeminiContentOut, m: ProviderMessage)
    requires
        gemini_content_of(out, m),
    ensures
        out.role@ == "model"@ <==> m.role == MessageRole::Assistant,
        out.role@ == "user"@ <==> m.role != MessageRole::Assistant,
        m.role != MessageRole::Tool && m.content@.len() > 0 ==> exists|k: int|
            0 <= k < out.parts@.len() && (#[trigger] out.parts@[k] matches GeminiPartOut::Text { text }
                && text@ == m.content@),
        m.role == MessageRole::Tool ==> exists|k: int|
            0 <= k < out.parts@.len() && (#[trigger] out.parts@[k] matches GeminiPartOut::FunctionResponse {
                result,
                ..
            } && result@ == m.content@),
        m.role == MessageRole::Assistant && m.tool_calls is Some ==> ({
            let calls = m.tool_calls.unwrap()@;
            let n = out.parts@.len() - calls.len();
            &&& n == (if m.content@.len() > 0 { 1int } else { 0int })
            &&& forall|i: int| 0 <= i < calls.len() ==> (#[trigger] out.parts@[n + i] matches GeminiPartOut::FunctionCall {
                name,
                args,
            } && name@ == calls[i].name@ && args == json_or_empty(calls[i].arguments@))
        }),
{
    reveal_strlit("model");
    reveal_strlit("user");
    assert("model"@.len() == 5 && "user"@.len() == 4);
    if m.role != MessageRole::Tool && m.content@.len() > 0 {
        assert(out.parts@[0] matches GeminiPartOut::Text { text } && text@ == m.content@);
    }
    if m.role == MessageRole::Tool {
        assert(out.parts@[0] matches GeminiPartOut::FunctionResponse { result, .. } && result@ == m.content@);
    }
    if m.role == MessageRole::Assistant && m.tool_calls is Some {
        let calls = m.tool_calls.unwrap()@;
        let off: int = if m.content@.len() > 0 { 1 } else { 0 };
        let n = out.parts@.len() - calls.len();
        assert(gemini_turn_parts(out.parts@, m.content@, calls));
        assert(n == off);
        assert forall|i: int| 0 <= i < calls.len() implies (#[trigger] out.parts@[n + i] matches GeminiPartOut::FunctionCall {
            name,
            args,
        } && name@ == calls[i].name@ && args == json_or_empty(calls[i].arguments@)) by {
            assert(n + i == off + i);
            let c = calls[i];
            assert(c.name@.len() >= 0);
            assert(out.parts@[(if m.content@.len() > 0 { 1int } else { 0int }) + i] matches GeminiPartOut::FunctionCall {
                name,
                args,
            } && name@ == calls[i].name@ && args == json_or_empty(calls[i].arguments@));
        };
    }
}

/// Anthropic receives every message whole: non-empty text of any non-tool
/// message is carried (as plain text or as a text block), a tool result as a
/// tool-result block carrying the result text, and an assistant's tool calls
/// as the trailing tool-use blocks, one per call and in order, preceded only
/// by the text (exactly when it is non-empty).
pub proof fn law_anthropic_keeps_messages(out: AnthropicMessageOut, m: ProviderMessage)
    requires
        anthropic_message_of(out, m),
    ensures
        out.role@ == "assistant"@ <==> m.role == MessageRole::Assistant,
        out.role@ == "user"@ <==> m.role != MessageRole::Assistant,
        m.role != MessageRole::Tool && m.content@.len() > 0 ==> {
            ||| (out.content matches AnthropicContentOut::Text(t) && t@ == m.content@)
            ||| (out.content matches AnthropicContentOut::Blocks(blocks) && exists|k: int|
                0 <= k < blocks@.len() && (#[trigger] blocks@[k] matches AnthropicBlockOut::Text { text }
                    && text@ == m.content@))
        },
        m.role == MessageRole::Tool ==> (out.content matches AnthropicContentOut::Blocks(blocks) && exists|k: int|
            0 <= k < blocks@.len() && (#[trigger] blocks@[k] matches AnthropicBlockOut::ToolResult { content, .. }
                && content@ == m.content@)),
        m.role == MessageRole::Assistant && m.tool_calls is Some ==> (out.content matches AnthropicContentOut::Blocks(
            blocks,
        ) && ({
            let calls = m.tool_calls.unwrap()@;
            let n = blocks@.len() - calls.len();
            &&& n == (if m.content@.len() > 0 { 1int } else { 0int })
            &&& forall|i: int| 0 <= i < calls.len() ==> (#[trigger] blocks@[n + i] matches AnthropicBlockOut::ToolUse {
                id,
                name,
                input,
            } && id@ == calls[i].id@ && name@ == calls[i].name@ && input == json_or_empty(calls[i].arguments@))
        })),
{
    reveal_strlit("assistant");
    reveal_strlit("user");
    assert("assistant"@.len() == 9 && "user"@.len() == 4);
    match out.content {
        AnthropicContentOut::Blocks(blocks) => {
            if blocks@.len() > 0 {
                if m.role == MessageRole::Tool {
                    assert(blocks@[0] matches AnthropicBlockOut::ToolResult { content, .. } && content@ == m.content@);
                } else if m.content@.len() > 0 {
                    assert(blocks@[0] matches AnthropicBlockOut::Text { text } && text@ == m.content@);
                }
            }
            if m.role == MessageRole::Assistant && m.tool_calls is Some {
                let calls = m.tool_calls.unwrap()@;
                let off: int = if m.content@.len() > 0 { 1 } else { 0 };
                let n = blocks@.len() - calls.len();
                assert(anthropic_turn_blocks(blocks@, m.content@, calls));
                assert(n == off);
                assert forall|i: int| 0 <= i < calls.len() implies (#[trigger] blocks@[n + i] matches AnthropicBlockOut::ToolUse {
                    id,
                    name,
                    input,
                } && id@ == calls[i].id@ && name@ == calls[i].name@ && input == json_or_empty(calls[i].arguments@)) by {
                    assert(n + i == off + i);
                    let c = calls[i];
                    assert(c.name@.len() >= 0);
                    assert(blocks@[(if m.content@.len() > 0 { 1int } else { 0int }) + i] matches AnthropicBlockOut::ToolUse {
                        id,
                        name,
                        input,
                    } && id@ == calls[i].id@ && name@ == calls[i].name@ && input == json_or_empty(calls[i].arguments@));
                };
            }
        },
        AnthropicContentOut::Text(_) => {},
    }
}

/// OpenAI receives every message whole and in its own role: system, user,
/// assistant and tool messages become messages of the same role carrying the
/// same text; an assistant's tool calls are passed on one for one and in
/// order (id, name and argument text), and a tool result keeps its call id.
pub proof fn law_openai_keeps_messages(out: OpenAIMessageOut, m: ProviderMessage)
    requires
        openai_message_of(out, m),
    ensures
        out is System <==> m.role == MessageRole::System,
        out is User <==> m.role == MessageRole::User,
        out is Assistant <==> m.role == MessageRole::Assistant,
        out is Tool <==> m.role == MessageRole::Tool,
        match out {
            OpenAIMessageOut::System { content } => content@ == m.content@,
            OpenAIMessageOut::User { content } => content@ == m.content@,
            OpenAIMessageOut::Assistant { content, tool_calls } => content@ == m.content@ && match m.tool_calls {
                None => tool_calls is None,
                Some(calls) => tool_calls matches Some(outs) && outs@.len() == calls@.len() && forall|i: int|
                    0 <= i < calls@.len() ==> {
                        &&& (#[trigger] outs@[i]).id@ == calls@[i].id@
                        &&& outs@[i].name@ == calls@[i].name@
                        &&& outs@[i].arguments@ == calls@[i].arguments@
                    },
            },
            OpenAIMessageOut::Tool { tool_call_id, content } => content@ == m.content@ && opt_text(tool_call_id)
                == opt_text(m.tool_call_id),
        },
{
}

/// Tool definitions describe the tools one for one and in order, copying
/// each name, description and input schema unchanged.
pub proof fn law_tool_defs_copy(defs: Seq<ToolDefOut>, tools: Seq<ToolSchema>)
    requires
        tool_defs_of(defs, tools),
    ensures
        defs.len() == tools.len(),
        forall|i: int| 0 <= i < tools.len() ==> {
            &&& (#[trigger] defs[i]).name@ == tools[i].name@
            &&& defs[i].parameters == tools[i].input_schema
            &&& (defs[i].description is Some <==> tools[i].description is Some)
            &&& (defs[i].description matches Some(d) ==> d@ == tools[i].description.unwrap()@)
        },
{
    assert forall|i: int| 0 <= i < tools.len() implies {
        &&& (#[trigger] defs[i]).name@ == tools[i].name@
        &&& defs[i].parameters == tools[i].input_schema
        &&& (defs[i].description is Some <==> tools[i].description is Some)
        &&& (defs[i].description matches Some(d) ==> d@ == tools[i].description.unwrap()@)
    } by {
        assert(tool_def_of(defs[i], tools[i]));
    };
}

} // verus!
