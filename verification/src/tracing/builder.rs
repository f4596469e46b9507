//! Assembles stored events into an [`ExecutionTrace`].

use vstd::prelude::*;
use crate::clock::{millis_between, millis_between_exec, utc_now, UtcTimestamp};
use crate::text::owned;
use super::events::TraceEventKind;
use super::types::{
    ExecutionStatus, ExecutionTrace, MemoryOperation, MemoryOperationTrace,
    MemoryOperationTraceView, StepError, StepErrorView, StepExecutionStatus, StepTrace,
    StepTraceView, TokenUsage, ToolCallStatus, ToolCallTrace, ToolCallTraceView, TraceEvent,
    usage_fits,
};

verus! {

/// Assembles a structured trace from stored events.
#[derive(Debug, Default)]
pub struct ExecutionTraceBuilder;

/// What the events seen so far say about the run (start time aside).
pub struct BuildState {
    pub workflow_name: Seq<char>,
    pub status: ExecutionStatus,
    pub completed_at: Option<UtcTimestamp>,
    pub total_tokens: TokenUsage,
    /// Steps already closed by a later `StepStarted`.
    pub steps: Seq<StepTraceView>,
    /// The step the latest `StepStarted` opened, if any.
    pub current: Option<StepTraceView>,
}

/// Before any event: name "unknown", status partial, no tokens, no steps.
pub open spec fn initial_state() -> BuildState {
    BuildState {
        workflow_name: "unknown"@,
        status: ExecutionStatus::Partial,
        completed_at: None,
        total_tokens: TokenUsage::zero(),
        steps: Seq::empty(),
        current: None,
    }
}

/// Applies `f` to the open step, if there is one.
pub open spec fn with_current(st: BuildState, f: spec_fn(StepTraceView) -> StepTraceView) -> BuildState {
    match st.current {
        Some(c) => BuildState { current: Some(f(c)), ..st },
        None => st,
    }
}

/// Effect of one event. Workflow events set the name, status, completion time
/// and total tokens; `StepStarted` closes the open step and opens a new one;
/// step completion or failure, completed tool calls and memory accesses are
/// recorded on the open step (and ignored when no step is open); other events
/// change nothing.
pub open spec fn apply(st: BuildState, e: TraceEvent) -> BuildState {
    let ts = e.timestamp;
    match e.kind {
        TraceEventKind::WorkflowStarted { workflow_name, .. } =>
            BuildState { workflow_name: workflow_name@, ..st },
        TraceEventKind::WorkflowCompleted { total_tokens, .. } =>
            BuildState {
                status: ExecutionStatus::Completed,
                completed_at: Some(ts),
                total_tokens: total_tokens,
                ..st
            },
        TraceEventKind::WorkflowFailed { .. } =>
            BuildState { status: ExecutionStatus::Failed, completed_at: Some(ts), ..st },
        TraceEventKind::StepStarted { step_id, step_index, agent_name, agent_role, .. } =>
            BuildState {
                steps: match st.current {
                    Some(c) => st.steps.push(c),
                    None => st.steps,
                },
                current: Some(StepTraceView {
                    step_index: step_index,
                    step_id: step_id@,
                    agent_name: agent_name@,
                    agent_role: agent_role@,
                    status: StepExecutionStatus::InProgress,
                    started_at: ts,
                    completed_at: None,
                    duration_ms: None,
                    tokens: TokenUsage::zero(),
                    tool_calls: Seq::empty(),
                    memory_operations: Seq::empty(),
                    error: None,
                }),
                ..st
            },
        TraceEventKind::StepCompleted { duration_ms, tokens, .. } =>
            with_current(st, |c: StepTraceView| StepTraceView {
                completed_at: Some(ts),
                duration_ms: Some(duration_ms),
                tokens: tokens,
                status: StepExecutionStatus::Completed,
                ..c
            }),
        TraceEventKind::StepFailed { error_code, error_message, duration_ms, .. } =>
            with_current(st, |c: StepTraceView| StepTraceView {
                completed_at: Some(ts),
                duration_ms: Some(duration_ms),
                status: StepExecutionStatus::Failed,
                error: Some(StepErrorView { error_code: error_code@, message: error_message@ }),
                ..c
            }),
        TraceEventKind::ToolCallCompleted { tool_name, duration_ms, output_size_bytes, .. } =>
            with_current(st, |c: StepTraceView| StepTraceView {
                tool_calls: c.tool_calls.push(ToolCallTraceView {
                    tool_name: tool_name@,
                    status: ToolCallStatus::Success,
                    duration_ms: duration_ms,
                    input_schema_hash: Seq::empty(),
                    output_size_bytes: Some(output_size_bytes),
                    error_code: None,
                }),
                ..c
            }),
        TraceEventKind::MemoryRead { memory_type, key, hit, duration_ms, .. } =>
            with_current(st, |c: StepTraceView| StepTraceView {
                memory_operations: c.memory_operations.push(MemoryOperationTraceView {
                    operation: MemoryOperation::Read,
                    memory_type: memory_type@,
                    key: key@,
                    hit: Some(hit),
                    duration_ms: duration_ms,
                }),
                ..c
            }),
        TraceEventKind::MemoryWrite { memory_type, key, duration_ms, .. } =>
            with_current(st, |c: StepTraceView| StepTraceView {
                memory_operations: c.memory_operations.push(MemoryOperationTraceView {
                    operation: MemoryOperation::Write,
                    memory_type: memory_type@,
                    key: key@,
                    hit: None,
                    duration_ms: duration_ms,
                }),
                ..c
            }),
        _ => st,
    }
}

/// State after all of `events`, in order.
pub open spec fn fold_events(events: Seq<TraceEvent>) -> BuildState
    decreases events.len(),
{
    if events.len() == 0 {
        initial_state()
    } else {
        apply(fold_events(events.drop_last()), events.last())
    }
}

/// Start time: that of the last `WorkflowStarted` event, or `default` when there is none.
pub open spec fn start_time(events: Seq<TraceEvent>, default: UtcTimestamp) -> UtcTimestamp
    decreases events.len(),
{
    if events.len() == 0 {
        default
    } else if events.last().kind is WorkflowStarted {
        events.last().timestamp
    } else {
        start_time(events.drop_last(), default)
    }
}

/// All steps of the run: the closed ones, then the open one.
pub open spec fn all_steps(st: BuildState) -> Seq<StepTraceView> {
    match st.current {
        Some(c) => st.steps.push(c),
        None => st.steps,
    }
}

/// Field-wise sums of the steps' token usages.
pub open spec fn token_sums(steps: Seq<StepTraceView>) -> (int, int, int)
    decreases steps.len(),
{
    if steps.len() == 0 {
        (0, 0, 0)
    } else {
        let (p, c, t) = token_sums(steps.drop_last());
        (
            p + steps.last().tokens.prompt_tokens,
            c + steps.last().tokens.completion_tokens,
            t + steps.last().tokens.total_tokens,
        )
    }
}

/// Whether summing the steps' token usages stays within `u32`.
pub open spec fn sums_fit(steps: Seq<StepTraceView>) -> bool {
    let (p, c, t) = token_sums(steps);
    p <= u32::MAX && c <= u32::MAX && t <= u32::MAX
}

/// Whether the run total has to be summed from the steps: the events report
/// no total tokens and at least one step exists.
pub open spec fn sums_steps(events: Seq<TraceEvent>) -> bool {
    fold_events(events).total_tokens.total_tokens == 0 && all_steps(fold_events(events)).len() > 0
}

/// Events on which `build` adds step tokens without overflow.
pub open spec fn buildable(events: Seq<TraceEvent>) -> bool {
    sums_steps(events) ==> sums_fit(all_steps(fold_events(events)))
}

/// The run total: the reported one, or the sum over steps when none was reported.
pub open spec fn run_total(events: Seq<TraceEvent>) -> TokenUsage {
    if sums_steps(events) {
        let (p, c, t) = token_sums(all_steps(fold_events(events)));
        TokenUsage { prompt_tokens: p as u32, completion_tokens: c as u32, total_tokens: t as u32 }
    } else {
        fold_events(events).total_tokens
    }
}

/// Whether `trace` is what `build` assembles from `events` of run `run_id`
/// with `dropped` refused events, when the build time is `now`.
pub open spec fn is_built(
    trace: ExecutionTrace,
    run_id: Seq<char>,
    events: Seq<TraceEvent>,
    dropped: u32,
    now: UtcTimestamp,
) -> bool {
    let st = fold_events(events);
    let started = start_time(events, now);
    &&& trace.run_id@ == run_id
    &&& trace.workflow_name@ == st.workflow_name
    &&& trace.status == st.status
    &&& trace.started_at == started
    &&& trace.completed_at == st.completed_at
    &&& trace.duration_ms == (match st.completed_at {
        Some(end) => Some(millis_between(started, end) as u64),
        None => None,
    })
    &&& trace.total_tokens == run_total(events)
    &&& trace.steps@.map_values(|s: StepTrace| s@) == all_steps(st)
    &&& trace.events@ == events
    &&& trace.is_complete == (dropped == 0)
    &&& trace.events_dropped == dropped
}

proof fn lemma_token_sums_prefix(steps: Seq<StepTraceView>, i: int)
    requires
        0 <= i <= steps.len(),
    ensures
        token_sums(steps.take(i)).0 <= token_sums(steps).0,
        token_sums(steps.take(i)).1 <= token_sums(steps).1,
        token_sums(steps.take(i)).2 <= token_sums(steps).2,
    decreases steps.len(),
{
    if i < steps.len() {
        assert(steps.drop_last().take(i) =~= steps.take(i));
        lemma_token_sums_prefix(steps.drop_last(), i);
    } else {
        assert(steps.take(i) =~= steps);
    }
}

impl ExecutionTraceBuilder {
    /// Builds the trace as of `now` (`now` is the start time when no
    /// `WorkflowStarted` event was stored); `None` exactly when the step
    /// token sums the run total needs do not fit in `u32`.
    pub fn try_build_at(run_id: &str, events: &[TraceEvent], events_dropped: u32, now: UtcTimestamp) -> (
        r: Option<ExecutionTrace>)
        ensures
            r is Some == buildable(events@),
            r matches Some(trace) ==> is_built(trace, run_id@, events@, events_dropped, now),
    {
        let mut workflow_name = owned("unknown");
        let mut status = ExecutionStatus::Partial;
        let mut started_at = now;
        let mut completed_at: Option<UtcTimestamp> = None;
        let mut total_tokens = TokenUsage { prompt_tokens: 0, completion_tokens: 0, total_tokens: 0 };
        let mut steps: Vec<StepTrace> = Vec::new();
        let mut current: Option<StepTrace> = None;
        let mut i: usize = 0;
        assert(events@.take(0) =~= Seq::<TraceEvent>::empty());
        assert(steps@.map_values(|s: StepTrace| s@) =~= Seq::<StepTraceView>::empty());
        while i < events.len()
            invariant
                i <= events@.len(),
                state_matches(workflow_name@, status, completed_at, total_tokens, steps@, current,
                    fold_events(events@.take(i as int))),
                started_at == start_time(events@.take(i as int), now),
            decreases events.len() - i,
        {
            assert(events@.take(i + 1).drop_last() =~= events@.take(i as int));
            apply_event(
                &events[i],
                &mut workflow_name,
                &mut status,
                &mut started_at,
                &mut completed_at,
                &mut total_tokens,
                &mut steps,
                &mut current,
            );
            i = i + 1;
        }
        assert(events@.take(events@.len() as int) =~= events@);
        let ghost st = fold_events(events@);
        if let Some(step) = current {
            steps.push(step);
        }
        assert(steps@.map_values(|s: StepTrace| s@) =~= all_steps(st));
        if total_tokens.total_tokens == 0 && steps.len() > 0 {
            let mut sum = TokenUsage { prompt_tokens: 0, completion_tokens: 0, total_tokens: 0 };
            let ghost all = all_steps(st);
            let mut k: usize = 0;
            while k < steps.len()
                invariant
                    k <= steps@.len(),
                    all == steps@.map_values(|s: StepTrace| s@),
                    st == fold_events(events@),
                    all == all_steps(st),
                    sums_steps(events@),
                    sum.prompt_tokens == token_sums(all.take(k as int)).0,
                    sum.completion_tokens == token_sums(all.take(k as int)).1,
                    sum.total_tokens == token_sums(all.take(k as int)).2,
                decreases steps.len() - k,
            {
                proof {
                    lemma_token_sums_prefix(all, k + 1);
                    assert(all.take(k + 1).drop_last() =~= all.take(k as int));
                }
                let step_tokens = &steps[k].tokens;
                let p = sum.prompt_tokens.checked_add(step_tokens.prompt_tokens);
                let c = sum.completion_tokens.checked_add(step_tokens.completion_tokens);
                let t = sum.total_tokens.checked_add(step_tokens.total_tokens);
                match (p, c, t) {
                    (Some(p), Some(c), Some(t)) => {
                        sum = TokenUsage { prompt_tokens: p, completion_tokens: c, total_tokens: t };
                    },
                    _ => {
                        proof {
                            assert(all[k as int] == steps@[k as int]@);
                            assert(all.take(k + 1).last() == all[k as int]);
                            assert(!sums_fit(all));
                        }
                        return None;
                    },
                }
                k = k + 1;
            }
            assert(all.take(steps@.len() as int) =~= all);
            total_tokens = sum;
        }
        let duration_ms = match completed_at {
            Some(end) => Some(millis_between_exec(started_at, end)),
            None => None,
        };
        let mut copied: Vec<TraceEvent> = Vec::new();
        let mut j: usize = 0;
        while j < events.len()
            invariant
                j <= events@.len(),
                copied@ == events@.take(j as int),
            decreases events.len() - j,
        {
            copied.push(events[j].clone());
            assert(copied@ =~= events@.take(j + 1));
            j = j + 1;
        }
        assert(copied@ =~= events@);
        Some(ExecutionTrace {
            run_id: owned(run_id),
            workflow_name,
            status,
            started_at,
            completed_at,
            duration_ms,
            total_tokens,
            steps,
            events: copied,
            is_complete: events_dropped == 0,
            events_dropped,
        })
    }

    /// Builds the trace as of `now`: `now` is the start time when no
    /// `WorkflowStarted` event was stored.
    pub fn build_at(run_id: &str, events: &[TraceEvent], events_dropped: u32, now: UtcTimestamp) -> (
        trace: ExecutionTrace)
        requires
            buildable(events@),
        ensures
            is_built(trace, run_id@, events@, events_dropped, now),
    {
        match Self::try_build_at(run_id, events, events_dropped, now) {
            Some(trace) => trace,
            None => vstd::pervasive::unreached(),
        }
    }

    /// Builds a trace; always returns a (possibly partial) snapshot. When no
    /// `WorkflowStarted` event was stored, the start time is the current time.
    pub fn build(run_id: &str, events: &[TraceEvent], events_dropped: u32) -> (trace: ExecutionTrace)
        requires
            buildable(events@),
        ensures
            exists|now: UtcTimestamp| is_built(trace, run_id@, events@, events_dropped, now),
    {
        let now = utc_now();
        Self::build_at(run_id, events, events_dropped, now)
    }

    /// Like [`Self::build`], but `None` where the step token sums the run
    /// total needs do not fit in `u32`.
    pub fn try_build(run_id: &str, events: &[TraceEvent], events_dropped: u32) -> (r: Option<ExecutionTrace>)
        ensures
            r is Some == buildable(events@),
            r matches Some(trace) ==> exists|now: UtcTimestamp|
                is_built(trace, run_id@, events@, events_dropped, now),
    {
        let now = utc_now();
        Self::try_build_at(run_id, events, events_dropped, now)
    }
}

/// Whether the builder's working variables stand for the state `st`.
pub open spec fn state_matches(
    workflow_name: Seq<char>,
    status: ExecutionStatus,
    completed_at: Option<UtcTimestamp>,
    total_tokens: TokenUsage,
    steps: Seq<StepTrace>,
    current: Option<StepTrace>,
    st: BuildState,
) -> bool {
    &&& workflow_name == st.workflow_name
    &&& status == st.status
    &&& completed_at == st.completed_at
    &&& total_tokens == st.total_tokens
    &&& steps.map_values(|s: StepTrace| s@) == st.steps
    &&& match current {
        Some(c) => st.current == Some(c@),
        None => st.current is None,
    }
}

#[verifier::rlimit(40)]
fn apply_event(
    event: &TraceEvent,
    workflow_name: &mut String,
    status: &mut ExecutionStatus,
    started_at: &mut UtcTimestamp,
    completed_at: &mut Option<UtcTimestamp>,
    total_tokens: &mut TokenUsage,
    steps: &mut Vec<StepTrace>,
    current: &mut Option<StepTrace>,
)
    ensures
        ({
            let st = BuildState {
                workflow_name: old(workflow_name)@,
                status: *old(status),
                completed_at: *old(completed_at),
                total_tokens: *old(total_tokens),
                steps: old(steps)@.map_values(|s: StepTrace| s@),
                current: match *old(current) {
                    Some(c) => Some(c@),
                    None => None,
                },
            };
            state_matches(final(workflow_name)@, *final(status), *final(completed_at),
                *final(total_tokens), final(steps)@, *final(current), apply(st, *event))
        }),
        *final(started_at) == (if event.kind is WorkflowStarted {
            event.timestamp
        } else {
            *old(started_at)
        }),
{
    let ghost steps0 = steps@;
    match &event.kind {
        TraceEventKind::WorkflowStarted { workflow_name: name, .. } => {
            *workflow_name = name.clone();
            *started_at = event.timestamp;
        },
        TraceEventKind::WorkflowCompleted { total_tokens: tokens, .. } => {
            *status = ExecutionStatus::Completed;
            *completed_at = Some(event.timestamp);
            *total_tokens = *tokens;
        },
        TraceEventKind::WorkflowFailed { .. } => {
            *status = ExecutionStatus::Failed;
            *completed_at = Some(event.timestamp);
        },
        TraceEventKind::StepStarted { step_id, step_index, agent_name, agent_role, .. } => {
            if let Some(prev) = current.take() {
                steps.push(prev);
                assert(steps@.map_values(|s: StepTrace| s@)
                    =~= steps0.map_values(|s: StepTrace| s@).push(prev@));
            }
            *current = Some(StepTrace {
                step_index: *step_index,
                step_id: step_id.clone(),
                agent_name: agent_name.clone(),
                agent_role: agent_role.clone(),
                status: StepExecutionStatus::InProgress,
                started_at: event.timestamp,
                completed_at: None,
                duration_ms: None,
                tokens: TokenUsage { prompt_tokens: 0, completion_tokens: 0, total_tokens: 0 },
                tool_calls: Vec::new(),
                memory_operations: Vec::new(),
                error: None,
            });
            proof {
                let c = current.unwrap();
                assert(c@.tool_calls =~= Seq::<ToolCallTraceView>::empty());
                assert(c@.memory_operations =~= Seq::<MemoryOperationTraceView>::empty());
            }
        },
        TraceEventKind::StepCompleted { duration_ms, tokens, .. } => {
            if let Some(mut step) = current.take() {
                step.completed_at = Some(event.timestamp);
                step.duration_ms = Some(*duration_ms);
                step.tokens = *tokens;
                step.status = StepExecutionStatus::Completed;
                *current = Some(step);
            }
        },
        TraceEventKind::StepFailed { error_code, error_message, duration_ms, .. } => {
            if let Some(mut step) = current.take() {
                step.completed_at = Some(event.timestamp);
                step.duration_ms = Some(*duration_ms);
                step.status = StepExecutionStatus::Failed;
                step.error = Some(StepError { error_code: error_code.clone(), message: error_message.clone() });
                *current = Some(step);
            }
        },
        TraceEventKind::ToolCallCompleted { tool_name, duration_ms, output_size_bytes, .. } => {
            if let Some(mut step) = current.take() {
                let ghost calls0 = step.tool_calls@;
                let call = ToolCallTrace {
                    tool_name: tool_name.clone(),
                    status: ToolCallStatus::Success,
                    duration_ms: *duration_ms,
                    input_schema_hash: String::new(),
                    output_size_bytes: Some(*output_size_bytes),
                    error_code: None,
                };
                step.tool_calls.push(call);
                assert(step.tool_calls@.map_values(|t: ToolCallTrace| t@)
                    =~= calls0.map_values(|t: ToolCallTrace| t@).push(call@));
                *current = Some(step);
            }
        },
        TraceEventKind::MemoryRead { memory_type, key, hit, duration_ms, .. } => {
            if let Some(mut step) = current.take() {
                let ghost ops0 = step.memory_operations@;
                let op = MemoryOperationTrace {
                    operation: MemoryOperation::Read,
                    memory_type: memory_type.clone(),
                    key: key.clone(),
                    hit: Some(*hit),
                    duration_ms: *duration_ms,
                };
                step.memory_operations.push(op);
                assert(step.memory_operations@.map_values(|m: MemoryOperationTrace| m@)
                    =~= ops0.map_values(|m: MemoryOperationTrace| m@).push(op@));
                *current = Some(step);
            }
        },
        TraceEventKind::MemoryWrite { memory_type, key, duration_ms, .. } => {
            if let Some(mut step) = current.take() {
                let ghost ops0 = step.memory_operations@;
                let op = MemoryOperationTrace {
                    operation: MemoryOperation::Write,
                    memory_type: memory_type.clone(),
                    key: key.clone(),
                    hit: None,
                    duration_ms: *duration_ms,
                };
                step.memory_operations.push(op);
                assert(step.memory_operations@.map_values(|m: MemoryOperationTrace| m@)
                    =~= ops0.map_values(|m: MemoryOperationTrace| m@).push(op@));
                *current = Some(step);
            }
        },
        _ => {},
    }
}


/// Step ids of the `StepStarted` events, in order.
pub open spec fn started_step_ids(events: Seq<TraceEvent>) -> Seq<Seq<char>>
    decreases events.len(),
{
    if events.len() == 0 {
        Seq::empty()
    } else {
        let prev = started_step_ids(events.drop_last());
        match events.last().kind {
            TraceEventKind::StepStarted { step_id, .. } => prev.push(step_id@),
            _ => prev,
        }
    }
}

/// Step ids of `steps`, in order.
pub open spec fn step_ids(steps: Seq<StepTraceView>) -> Seq<Seq<char>> {
    steps.map_values(|s: StepTraceView| s.step_id)
}

proof fn lemma_apply_step_ids(st: BuildState, e: TraceEvent)
    ensures
        step_ids(all_steps(apply(st, e))) == (match e.kind {
            TraceEventKind::StepStarted { step_id, .. } => step_ids(all_steps(st)).push(step_id@),
            _ => step_ids(all_steps(st)),
        }),
{
    let next = apply(st, e);
    match e.kind {
        TraceEventKind::StepStarted { step_id, .. } => {
            assert(step_ids(all_steps(next)) =~= step_ids(all_steps(st)).push(step_id@));
        },
        _ => {
            assert(step_ids(all_steps(next)) =~= step_ids(all_steps(st)));
        },
    }
}

/// The assembled trace has one step per `StepStarted` event, in the order the
/// steps started.
pub proof fn law_one_step_per_start(events: Seq<TraceEvent>)
    ensures
        step_ids(all_steps(fold_events(events))) == started_step_ids(events),
        all_steps(fold_events(events)).len() == started_step_ids(events).len(),
    decreases events.len(),
{
    if events.len() == 0 {
        assert(step_ids(all_steps(fold_events(events))) =~= Seq::<Seq<char>>::empty());
    } else {
        law_one_step_per_start(events.drop_last());
        lemma_apply_step_ids(fold_events(events.drop_last()), events.last());
    }
}

proof fn lemma_fold_push(events: Seq<TraceEvent>, e: TraceEvent)
    ensures
        fold_events(events.push(e)) == apply(fold_events(events), e),
{
    assert(events.push(e).drop_last() =~= events);
}

/// Memory accesses are reported as they happened. When a memory event follows
/// a started step, the trace keeps the same steps, and the last step gains
/// exactly one memory operation, after the ones it had: of the event's memory
/// type, key and duration; a read reports the event's own hit flag, a write
/// reports no hit. Its tool calls, status and tokens are untouched.
pub proof fn law_memory_access_reported(events: Seq<TraceEvent>, e: TraceEvent)
    requires
        fold_events(events).current is Some,
        e.kind is MemoryRead || e.kind is MemoryWrite,
    ensures
        ({
            let before = all_steps(fold_events(events));
            let after = all_steps(fold_events(events.push(e)));
            let c0 = before.last();
            let c1 = after.last();
            let op = c1.memory_operations.last();
            &&& after.len() == before.len()
            &&& after.drop_last() == before.drop_last()
            &&& c1.memory_operations.len() == c0.memory_operations.len() + 1
            &&& c1.memory_operations.drop_last() == c0.memory_operations
            &&& c1.tool_calls == c0.tool_calls
            &&& c1.status == c0.status
            &&& c1.tokens == c0.tokens
            &&& c1.step_id == c0.step_id
            &&& (e.kind matches TraceEventKind::MemoryRead { memory_type, key, hit, duration_ms, .. } ==> {
                &&& op.operation == MemoryOperation::Read
                &&& op.hit == Some(hit)
                &&& op.memory_type == memory_type@
                &&& op.key == key@
                &&& op.duration_ms == duration_ms
            })
            &&& (e.kind matches TraceEventKind::MemoryWrite { memory_type, key, duration_ms, .. } ==> {
                &&& op.operation == MemoryOperation::Write
                &&& op.hit is None
                &&& op.memory_type == memory_type@
                &&& op.key == key@
                &&& op.duration_ms == duration_ms
            })
        }),
{
    lemma_fold_push(events, e);
    let st = fold_events(events);
    let c0 = st.current.unwrap();
    let next = apply(st, e);
    assert(all_steps(st) == st.steps.push(c0));
    assert(all_steps(next) == next.steps.push(next.current.unwrap()));
    assert(all_steps(st).drop_last() =~= st.steps);
    assert(all_steps(next).drop_last() =~= next.steps);
    assert(next.current.unwrap().memory_operations.drop_last() =~= c0.memory_operations);
}

/// A step ends as its closing event says. After `StepCompleted` the last step
/// is completed, with the event's duration and tokens and no error; after
/// `StepFailed` it is failed, with the event's duration and an error carrying
/// the event's code and message, and its tokens unchanged. Either way the
/// steps before it and its recorded tool calls and memory operations stay.
pub proof fn law_step_end_reported(events: Seq<TraceEvent>, e: TraceEvent)
    requires
        fold_events(events).current is Some,
        e.kind is StepCompleted || e.kind is StepFailed,
    ensures
        ({
            let before = all_steps(fold_events(events));
            let after = all_steps(fold_events(events.push(e)));
            let c0 = before.last();
            let c1 = after.last();
            &&& after.len() == before.len()
            &&& after.drop_last() == before.drop_last()
            &&& c1.tool_calls == c0.tool_calls
            &&& c1.memory_operations == c0.memory_operations
            &&& c1.step_id == c0.step_id
            &&& c1.completed_at == Some(e.timestamp)
            &&& (e.kind matches TraceEventKind::StepCompleted { duration_ms, tokens, .. } ==> {
                &&& c1.status == StepExecutionStatus::Completed
                &&& c1.duration_ms == Some(duration_ms)
                &&& c1.tokens == tokens
                &&& c1.error == c0.error
            })
            &&& (e.kind matches TraceEventKind::StepFailed { duration_ms, error_code, error_message, .. } ==> {
                &&& c1.status == StepExecutionStatus::Failed
                &&& c1.duration_ms == Some(duration_ms)
                &&& c1.tokens == c0.tokens
                &&& c1.error == Some(StepErrorView { error_code: error_code@, message: error_message@ })
            })
        }),
{
    lemma_fold_push(events, e);
    let st = fold_events(events);
    let next = apply(st, e);
    assert(all_steps(st).drop_last() =~= st.steps);
    assert(all_steps(next).drop_last() =~= next.steps);
}

/// A completed tool call is reported on the step it ran in: the last step
/// gains exactly one successful call, after the ones it had, with the event's
/// tool name, duration and output size.
pub proof fn law_tool_call_reported(events: Seq<TraceEvent>, e: TraceEvent)
    requires
        fold_events(events).current is Some,
        e.kind is ToolCallCompleted,
    ensures
        ({
            let before = all_steps(fold_events(events));
            let after = all_steps(fold_events(events.push(e)));
            let c0 = before.last();
            let c1 = after.last();
            let call = c1.tool_calls.last();
            &&& after.len() == before.len()
            &&& after.drop_last() == before.drop_last()
            &&& c1.tool_calls.len() == c0.tool_calls.len() + 1
            &&& c1.tool_calls.drop_last() == c0.tool_calls
            &&& c1.memory_operations == c0.memory_operations
            &&& c1.status == c0.status
            &&& call.status == ToolCallStatus::Success
            &&& (e.kind matches TraceEventKind::ToolCallCompleted { tool_name, duration_ms, output_size_bytes, .. } ==> {
                &&& call.tool_name == tool_name@
                &&& call.duration_ms == duration_ms
                &&& call.output_size_bytes == Some(output_size_bytes)
            })
        }),
{
    lemma_fold_push(events, e);
    let st = fold_events(events);
    let next = apply(st, e);
    assert(all_steps(st).drop_last() =~= st.steps);
    assert(all_steps(next).drop_last() =~= next.steps);
    assert(next.current.unwrap().tool_calls.drop_last() =~= st.current.unwrap().tool_calls);
}

/// Workflow events set what they report about the run and leave the steps
/// alone: `WorkflowStarted` names the run; `WorkflowCompleted` marks it
/// completed at the event's time with the event's token total;
/// `WorkflowFailed` marks it failed at the event's time, keeping the total.
pub proof fn law_workflow_events_reported(events: Seq<TraceEvent>, e: TraceEvent)
    ensures
        ({
            let st0 = fold_events(events);
            let st1 = fold_events(events.push(e));
            &&& (e.kind matches TraceEventKind::WorkflowStarted { workflow_name, .. } ==> {
                &&& st1.workflow_name == workflow_name@
                &&& st1.status == st0.status
                &&& st1.completed_at == st0.completed_at
                &&& all_steps(st1) == all_steps(st0)
            })
            &&& (e.kind matches TraceEventKind::WorkflowCompleted { total_tokens, .. } ==> {
                &&& st1.status == ExecutionStatus::Completed
                &&& st1.completed_at == Some(e.timestamp)
                &&& st1.total_tokens == total_tokens
                &&& st1.workflow_name == st0.workflow_name
                &&& all_steps(st1) == all_steps(st0)
            })
            &&& (e.kind is WorkflowFailed ==> {
                &&& st1.status == ExecutionStatus::Failed
                &&& st1.completed_at == Some(e.timestamp)
                &&& st1.total_tokens == st0.total_tokens
                &&& st1.workflow_name == st0.workflow_name
                &&& all_steps(st1) == all_steps(st0)
            })
        }),
{
    lemma_fold_push(events, e);
}

/// Before any event the run is named "unknown", partial, with no completion
/// time, no tokens and no steps.
pub proof fn law_no_events()
    ensures
        fold_events(Seq::empty()).workflow_name == "unknown"@,
        fold_events(Seq::empty()).status == ExecutionStatus::Partial,
        fold_events(Seq::empty()).completed_at is None,
        fold_events(Seq::empty()).total_tokens == TokenUsage::zero(),
        all_steps(fold_events(Seq::empty())).len() == 0,
{
}

/// `StepStarted` appends one step and keeps every earlier step as it was: the
/// new step carries the event's id, index, agent name and role, is in
/// progress since the event's time, and has no completion, duration, tokens,
/// tool calls, memory operations or error yet.
pub proof fn law_step_start_reported(events: Seq<TraceEvent>, e: TraceEvent)
    requires
        e.kind is StepStarted,
    ensures
        ({
            let before = all_steps(fold_events(events));
            let after = all_steps(fold_events(events.push(e)));
            let c = after.last();
            &&& after.len() == before.len() + 1
            &&& after.drop_last() == before
            &&& c.status == StepExecutionStatus::InProgress
            &&& c.started_at == e.timestamp
            &&& c.completed_at is None
            &&& c.duration_ms is None
            &&& c.tokens == TokenUsage::zero()
            &&& c.tool_calls.len() == 0
            &&& c.memory_operations.len() == 0
            &&& c.error is None
            &&& (e.kind matches TraceEventKind::StepStarted { step_id, step_index, agent_name, agent_role, .. } ==> {
                &&& c.step_id == step_id@
                &&& c.step_index == step_index
                &&& c.agent_name == agent_name@
                &&& c.agent_role == agent_role@
            })
        }),
{
    lemma_fold_push(events, e);
    let st = fold_events(events);
    let next = apply(st, e);
    assert(all_steps(next).drop_last() =~= all_steps(st));
}

/// Step-level events seen while no step is open are ignored: the steps stay
/// as they were.
pub proof fn law_step_events_need_open_step(events: Seq<TraceEvent>, e: TraceEvent)
    requires
        fold_events(events).current is None,
        !(e.kind is StepStarted),
    ensures
        all_steps(fold_events(events.push(e))) == all_steps(fold_events(events)),
{
    lemma_fold_push(events, e);
}

/// Step token sums add up over any split of the steps, and one step
/// contributes exactly its own usage: every step counts, once.
pub proof fn law_token_sums_additive(a: Seq<StepTraceView>, b: Seq<StepTraceView>)
    ensures
        token_sums(a + b).0 == token_sums(a).0 + token_sums(b).0,
        token_sums(a + b).1 == token_sums(a).1 + token_sums(b).1,
        token_sums(a + b).2 == token_sums(a).2 + token_sums(b).2,
        b.len() == 1 ==> token_sums(b) == (
            b[0].tokens.prompt_tokens as int,
            b[0].tokens.completion_tokens as int,
            b[0].tokens.total_tokens as int,
        ),
    decreases b.len(),
{
    if b.len() == 0 {
        assert(a + b =~= a);
    } else {
        law_token_sums_additive(a, b.drop_last());
        assert((a + b).drop_last() =~= a + b.drop_last());
        assert((a + b).last() == b.last());
        if b.len() == 1 {
            assert(b.drop_last() =~= Seq::<StepTraceView>::empty());
        }
    }
}

proof fn lemma_token_sums_nonneg(steps: Seq<StepTraceView>)
    ensures
        token_sums(steps).0 >= 0,
        token_sums(steps).1 >= 0,
        token_sums(steps).2 >= 0,
    decreases steps.len(),
{
    if steps.len() > 0 {
        lemma_token_sums_nonneg(steps.drop_last());
    }
}

/// The run's token total is the reported one whenever a non-zero total was
/// reported or no step exists; otherwise it is, field by field, the sum of
/// the steps' usages.
pub proof fn law_run_total(events: Seq<TraceEvent>)
    requires
        buildable(events),
    ensures
        fold_events(events).total_tokens.total_tokens != 0 || all_steps(fold_events(events)).len() == 0
            ==> run_total(events) == fold_events(events).total_tokens,
        sums_steps(events) ==> {
            let (p, c, t) = token_sums(all_steps(fold_events(events)));
            &&& run_total(events).prompt_tokens == p
            &&& run_total(events).completion_tokens == c
            &&& run_total(events).total_tokens == t
        },
{
    lemma_token_sums_nonneg(all_steps(fold_events(events)));
}

/// Only workflow, step, completed-tool-call and memory-access events shape
/// the trace; any other event (a failed tool call, a storage warning, a
/// state commit, ...) leaves everything as it was.
pub proof fn law_other_events_ignored(events: Seq<TraceEvent>, e: TraceEvent)
    requires
        !(e.kind is WorkflowStarted),
        !(e.kind is WorkflowCompleted),
        !(e.kind is WorkflowFailed),
        !(e.kind is StepStarted),
        !(e.kind is StepCompleted),
        !(e.kind is StepFailed),
        !(e.kind is ToolCallCompleted),
        !(e.kind is MemoryRead),
        !(e.kind is MemoryWrite),
    ensures
        fold_events(events.push(e)) == fold_events(events),
{
    lemma_fold_push(events, e);
}

/// The run starts when its latest `WorkflowStarted` event says; before any
/// such event the given default holds.
pub proof fn law_start_time(events: Seq<TraceEvent>, e: TraceEvent, default: UtcTimestamp)
    ensures
        start_time(Seq::empty(), default) == default,
        e.kind is WorkflowStarted ==> start_time(events.push(e), default) == e.timestamp,
        !(e.kind is WorkflowStarted) ==> start_time(events.push(e), default) == start_time(events, default),
{
    assert(events.push(e).drop_last() =~= events);
}

} // verus!
