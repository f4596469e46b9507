//! RCS trace emission for tool and memory activity (metadata only).

use vstd::prelude::*;
use crate::clock::utc_now;
use crate::rcs::types::{EventData, TraceEvent, TraceEventKind};
use crate::text::owned;

verus! {

/// Collects RCS trace events for a single workflow run.
#[derive(Debug)]
pub struct TraceEmitter {
    trace_id: u128,
    events: Vec<TraceEvent>,
}

/// Whether `e` is an event of trace `trace` with kind `kind`, step `step` and payload `data`.
pub open spec fn is_rcs_event(
    e: TraceEvent,
    trace: u128,
    kind: TraceEventKind,
    step: Option<u128>,
    data: Option<EventData>,
) -> bool {
    e.trace_id == trace && e.event_kind == kind && e.step_id == step && e.data == data
}

impl View for TraceEmitter {
    type V = Seq<TraceEvent>;

    closed spec fn view(&self) -> Seq<TraceEvent> {
        self.events@
    }
}

impl TraceEmitter {
    /// Trace id that every event of this emitter carries.
    pub closed spec fn trace(&self) -> u128 {
        self.trace_id
    }

    /// Appended exactly one event, of this trace, with the given kind, step and payload.
    pub open spec fn appended(&self, prev: Seq<TraceEvent>, kind: TraceEventKind, step: Option<u128>, data: Option<EventData>) -> bool {
        &&& self@.len() == prev.len() + 1
        &&& self@.drop_last() =~= prev
        &&& is_rcs_event(self@.last(), self.trace(), kind, step, data)
    }

    /// Starts an emitter for `trace_id` with no events.
    pub fn new(trace_id: u128) -> (e: Self)
        ensures
            e.trace() == trace_id,
            e@ == Seq::<TraceEvent>::empty(),
    {
        TraceEmitter { trace_id, events: Vec::new() }
    }

    /// The events emitted so far, in order.
    pub fn events(&self) -> (r: &[TraceEvent])
        ensures
            r@ == self@,
    {
        self.events.as_slice()
    }

    fn push(&mut self, kind: TraceEventKind, step_id: Option<u128>, data: Option<EventData>)
        ensures
            final(self).trace() == old(self).trace(),
            final(self).appended(old(self)@, kind, step_id, data),
    {
        let timestamp = utc_now();
        self.events.push(TraceEvent { trace_id: self.trace_id, event_kind: kind, timestamp, step_id, data });
    }

    /// Records workflow start.
    pub fn workflow_started(&mut self)
        ensures
            final(self).trace() == old(self).trace(),
            final(self).appended(old(self)@, TraceEventKind::WorkflowStarted, None, None),
    {
        self.push(TraceEventKind::WorkflowStarted, None, None);
    }

    /// Records workflow completion.
    pub fn workflow_completed(&mut self)
        ensures
            final(self).trace() == old(self).trace(),
            final(self).appended(old(self)@, TraceEventKind::WorkflowCompleted, None, None),
    {
        self.push(TraceEventKind::WorkflowCompleted, None, None);
    }

    /// Records a tool invocation: name, status and duration.
    pub fn tool_executed(&mut self, step_id: Option<u128>, tool_name: &str, status: &str, duration_ms: u64)
        ensures
            final(self).trace() == old(self).trace(),
            final(self)@.len() == old(self)@.len() + 1,
            final(self)@.drop_last() =~= old(self)@,
            final(self)@.last().trace_id == old(self).trace(),
            final(self)@.last().event_kind == TraceEventKind::ToolExecuted,
            final(self)@.last().step_id == step_id,
            final(self)@.last().data matches Some(EventData::Tool { tool_name: t, status: s, duration_ms: d })
                && t@ == tool_name@ && s@ == status@ && d == duration_ms,
    {
        self.push(
            TraceEventKind::ToolExecuted,
            step_id,
            Some(EventData::Tool { tool_name: owned(tool_name), status: owned(status), duration_ms }),
        );
    }

    /// Records a memory read: memory type and key length.
    pub fn memory_read(&mut self, step_id: Option<u128>, memory_type: &str, key_len: usize)
        ensures
            final(self).trace() == old(self).trace(),
            final(self)@.len() == old(self)@.len() + 1,
            final(self)@.drop_last() =~= old(self)@,
            final(self)@.last().trace_id == old(self).trace(),
            final(self)@.last().event_kind == TraceEventKind::MemoryRead,
            final(self)@.last().step_id == step_id,
            final(self)@.last().data matches Some(EventData::MemoryRead { memory_type: m, key_len: k })
                && m@ == memory_type@ && k == key_len,
    {
        self.push(
            TraceEventKind::MemoryRead,
            step_id,
            Some(EventData::MemoryRead { memory_type: owned(memory_type), key_len }),
        );
    }

    /// Records a memory write: memory type and value length.
    pub fn memory_write(&mut self, step_id: Option<u128>, memory_type: &str, value_len: usize)
        ensures
            final(self).trace() == old(self).trace(),
            final(self)@.len() == old(self)@.len() + 1,
            final(self)@.drop_last() =~= old(self)@,
            final(self)@.last().trace_id == old(self).trace(),
            final(self)@.last().event_kind == TraceEventKind::MemoryWrite,
            final(self)@.last().step_id == step_id,
            final(self)@.last().data matches Some(EventData::MemoryWrite { memory_type: m, value_len: v })
                && m@ == memory_type@ && v == value_len,
    {
        self.push(
            TraceEventKind::MemoryWrite,
            step_id,
            Some(EventData::MemoryWrite { memory_type: owned(memory_type), value_len }),
        );
    }
}

} // verus!
