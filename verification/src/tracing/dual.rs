//! Emission of tool and memory activity to both the RCS trace and the run's
//! structured trace store.

use vstd::prelude::*;
use crate::clock::millis_since;
use crate::text::{byte_len, owned, utf8_len, uuid_string, uuid_text};
use super::emitter::TraceEmitter;
use super::events::TraceEventKind;
use super::sprint5_emitter::{emitted, TraceEventEmitter};
use super::types::TokenUsage;

verus! {

/// Text of an optional step id: its UUID text, or empty.
pub open spec fn step_text(step_id: Option<u128>) -> Seq<char> {
    match step_id {
        Some(u) => uuid_text(u),
        None => Seq::empty(),
    }
}

fn step_string(step_id: Option<u128>) -> (r: String)
    ensures
        r@ == step_text(step_id),
{
    match step_id {
        Some(u) => uuid_string(u),
        None => String::new(),
    }
}

/// Emits the start of a tool call (no schema hash).
pub fn tool_started(sprint5: &mut TraceEventEmitter, run_id: &str, step_id: u128, tool_name: &str)
    requires
        old(sprint5).emit_ready(),
    ensures
        exists|k: TraceEventKind| emitted(*old(sprint5), *final(sprint5), k) && (
            k matches TraceEventKind::ToolCallStarted { run_id: r, step_id: s, tool_name: t, input_schema_hash: h }
                && r@ == run_id@ && s@ == uuid_text(step_id) && t@ == tool_name@ && h@ == Seq::<char>::empty()),
{
    let kind = TraceEventKind::ToolCallStarted {
        run_id: owned(run_id),
        step_id: uuid_string(step_id),
        tool_name: owned(tool_name),
        input_schema_hash: String::new(),
    };
    let ghost k = kind;
    sprint5.emit(kind);
    assert(emitted(*old(sprint5), *final(sprint5), k));
}

/// Records a finished tool call on both traces: status "ok" or "failed" on the
/// RCS trace; `ToolCallCompleted`, or `ToolCallFailed` with the error code
/// (default "tool_failed", reported as reason too, default "failed").
#[verifier::rlimit(20)]
pub fn tool_finished(
    legacy: &mut TraceEmitter,
    sprint5: &mut TraceEventEmitter,
    run_id: &str,
    step_id: Option<u128>,
    tool_name: &str,
    ok: bool,
    duration_ms: u64,
    output_size_bytes: usize,
    error_code: Option<&str>,
)
    requires
        old(sprint5).emit_ready(),
    ensures
        final(legacy).trace() == old(legacy).trace(),
        final(legacy)@.len() == old(legacy)@.len() + 1,
        final(legacy)@.drop_last() =~= old(legacy)@,
        final(legacy)@.last().trace_id == old(legacy).trace(),
        final(legacy)@.last().event_kind == crate::rcs::types::TraceEventKind::ToolExecuted,
        final(legacy)@.last().step_id == step_id,
        final(legacy)@.last().data matches Some(crate::rcs::types::EventData::Tool { tool_name: t, status, duration_ms: d })
            && t@ == tool_name@ && d == duration_ms && status@ == (if ok { "ok"@ } else { "failed"@ }),
        ok ==> exists|k: TraceEventKind| emitted(*old(sprint5), *final(sprint5), k) && (
            k matches TraceEventKind::ToolCallCompleted { run_id: r, step_id: s, tool_name: t, duration_ms: d, output_size_bytes: o }
                && r@ == run_id@ && s@ == step_text(step_id) && t@ == tool_name@ && d == duration_ms
                && o == output_size_bytes),
        !ok ==> exists|k: TraceEventKind| emitted(*old(sprint5), *final(sprint5), k) && (
            k matches TraceEventKind::ToolCallFailed { run_id: r, step_id: s, tool_name: t, duration_ms: d, failure_reason, error_code: c }
                && r@ == run_id@ && s@ == step_text(step_id) && t@ == tool_name@ && d == duration_ms
                && failure_reason@ == (match error_code { Some(e) => e@, None => "failed"@ })
                && c@ == (match error_code { Some(e) => e@, None => "tool_failed"@ })),
{
    let status = if ok { "ok" } else { "failed" };
    legacy.tool_executed(step_id, tool_name, status, duration_ms);
    let sid = step_string(step_id);
    if ok {
        let kind = TraceEventKind::ToolCallCompleted {
            run_id: owned(run_id),
            step_id: sid,
            tool_name: owned(tool_name),
            duration_ms,
            output_size_bytes,
        };
        let ghost k = kind;
        sprint5.emit(kind);
        assert(emitted(*old(sprint5), *final(sprint5), k));
    } else {
        let failure_reason = match error_code {
            Some(c) => owned(c),
            None => owned("failed"),
        };
        let code = match error_code {
            Some(c) => owned(c),
            None => owned("tool_failed"),
        };
        let kind = TraceEventKind::ToolCallFailed {
            run_id: owned(run_id),
            step_id: sid,
            tool_name: owned(tool_name),
            duration_ms,
            failure_reason,
            error_code: code,
        };
        let ghost k = kind;
        sprint5.emit(kind);
        assert(emitted(*old(sprint5), *final(sprint5), k));
    }
}

/// Records a memory read on both traces: the key's length on the RCS trace,
/// the key, hit flag and elapsed milliseconds since `started` on the store.
pub fn memory_read(
    legacy: &mut TraceEmitter,
    sprint5: &mut TraceEventEmitter,
    run_id: &str,
    step_id: Option<u128>,
    agent_name: &str,
    memory_type: &str,
    key: &str,
    hit: bool,
    started: std::time::Instant,
)
    requires
        old(sprint5).emit_ready(),
    ensures
        final(legacy).trace() == old(legacy).trace(),
        final(legacy)@.len() == old(legacy)@.len() + 1,
        final(legacy)@.drop_last() =~= old(legacy)@,
        final(legacy)@.last().trace_id == old(legacy).trace(),
        final(legacy)@.last().event_kind == crate::rcs::types::TraceEventKind::MemoryRead,
        final(legacy)@.last().step_id == step_id,
        final(legacy)@.last().data matches Some(crate::rcs::types::EventData::MemoryRead { memory_type: m, key_len })
            && m@ == memory_type@ && key_len == utf8_len(key@),
        exists|k: TraceEventKind| emitted(*old(sprint5), *final(sprint5), k) && (
            k matches TraceEventKind::MemoryRead { run_id: r, step_id: s, agent_name: a, memory_type: m, key: kk, hit: h, .. }
                && r@ == run_id@ && s@ == step_text(step_id) && a@ == agent_name@ && m@ == memory_type@
                && kk@ == key@ && h == hit),
{
    let key_owned = owned(key);
    legacy.memory_read(step_id, memory_type, byte_len(&key_owned));
    let kind = TraceEventKind::MemoryRead {
        run_id: owned(run_id),
        step_id: step_string(step_id),
        agent_name: owned(agent_name),
        memory_type: owned(memory_type),
        key: key_owned,
        hit,
        duration_ms: millis_since(&started),
    };
    let ghost k = kind;
    sprint5.emit(kind);
    assert(emitted(*old(sprint5), *final(sprint5), k));
}

/// Records a memory write on both traces: the key's length on the RCS trace,
/// the key and elapsed milliseconds since `started` on the store.
pub fn memory_write(
    legacy: &mut TraceEmitter,
    sprint5: &mut TraceEventEmitter,
    run_id: &str,
    step_id: Option<u128>,
    agent_name: &str,
    memory_type: &str,
    key: &str,
    started: std::time::Instant,
)
    requires
        old(sprint5).emit_ready(),
    ensures
        final(legacy).trace() == old(legacy).trace(),
        final(legacy)@.len() == old(legacy)@.len() + 1,
        final(legacy)@.drop_last() =~= old(legacy)@,
        final(legacy)@.last().trace_id == old(legacy).trace(),
        final(legacy)@.last().event_kind == crate::rcs::types::TraceEventKind::MemoryWrite,
        final(legacy)@.last().step_id == step_id,
        final(legacy)@.last().data matches Some(crate::rcs::types::EventData::MemoryWrite { memory_type: m, value_len })
            && m@ == memory_type@ && value_len == utf8_len(key@),
        exists|k: TraceEventKind| emitted(*old(sprint5), *final(sprint5), k) && (
            k matches TraceEventKind::MemoryWrite { run_id: r, step_id: s, agent_name: a, memory_type: m, key: kk, .. }
                && r@ == run_id@ && s@ == step_text(step_id) && a@ == agent_name@ && m@ == memory_type@
                && kk@ == key@),
{
    let key_owned = owned(key);
    legacy.memory_write(step_id, memory_type, byte_len(&key_owned));
    let kind = TraceEventKind::MemoryWrite {
        run_id: owned(run_id),
        step_id: step_string(step_id),
        agent_name: owned(agent_name),
        memory_type: owned(memory_type),
        key: key_owned,
        duration_ms: millis_since(&started),
    };
    let ghost k = kind;
    sprint5.emit(kind);
    assert(emitted(*old(sprint5), *final(sprint5), k));
}

/// Emits a zero token count for a step.
pub fn tokens_consumed(sprint5: &mut TraceEventEmitter, run_id: &str, step_id: u128, agent_name: &str)
    requires
        old(sprint5).emit_ready(),
    ensures
        exists|k: TraceEventKind| emitted(*old(sprint5), *final(sprint5), k) && (
            k matches TraceEventKind::TokensConsumed { run_id: r, step_id: s, agent_name: a, tokens }
                && r@ == run_id@ && s@ == uuid_text(step_id) && a@ == agent_name@ && tokens == TokenUsage::zero()),
{
    let kind = TraceEventKind::TokensConsumed {
        run_id: owned(run_id),
        step_id: uuid_string(step_id),
        agent_name: owned(agent_name),
        tokens: TokenUsage { prompt_tokens: 0, completion_tokens: 0, total_tokens: 0 },
    };
    let ghost k = kind;
    sprint5.emit(kind);
    assert(emitted(*old(sprint5), *final(sprint5), k));
}

} // verus!
