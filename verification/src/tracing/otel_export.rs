//! What an exported trace step carries as span attributes: metadata only
//! (SEC-1), never prompt or completion text.

use vstd::prelude::*;
use crate::text::owned;
use super::types::{StepExecutionStatus, StepTrace};

verus! {

/// A span attribute value.
#[derive(Debug, Clone, PartialEq, Eq)]
pub enum SpanAttrValue {
    Int(i64),
    Text(String),
}

/// Debug label of a step status.
pub open spec fn status_label(s: StepExecutionStatus) -> Seq<char> {
    match s {
        StepExecutionStatus::InProgress => "InProgress"@,
        StepExecutionStatus::Completed => "Completed"@,
        StepExecutionStatus::Failed => "Failed"@,
    }
}

/// The exported status names the step's status by its variant: "InProgress",
/// "Completed" and "Failed" each for exactly its own status, so distinct
/// statuses are never exported alike.
pub proof fn law_status_label_names_status(s: StepExecutionStatus, t: StepExecutionStatus)
    ensures
        status_label(s) == "InProgress"@ <==> s == StepExecutionStatus::InProgress,
        status_label(s) == "Completed"@ <==> s == StepExecutionStatus::Completed,
        status_label(s) == "Failed"@ <==> s == StepExecutionStatus::Failed,
        status_label(s) == status_label(t) <==> s == t,
{
    reveal_strlit("InProgress");
    reveal_strlit("Completed");
    reveal_strlit("Failed");
    assert("InProgress"@.len() == 10 && "Completed"@.len() == 9 && "Failed"@.len() == 6);
}

/// Whether attribute `a` is key `key` with integer value `v`.
pub open spec fn is_int_attr(a: (String, SpanAttrValue), key: Seq<char>, v: i64) -> bool {
    a.0@ == key && a.1 == SpanAttrValue::Int(v)
}

/// Whether attribute `a` is key `key` with text value `v`.
pub open spec fn is_text_attr(a: (String, SpanAttrValue), key: Seq<char>, v: Seq<char>) -> bool {
    a.0@ == key && (a.1 matches SpanAttrValue::Text(t) && t@ == v)
}

/// An attribute described as text under a key is that key with exactly that
/// text; one described as an integer is that key with exactly that integer;
/// no attribute is both.
pub proof fn law_attr_descriptions(a: (String, SpanAttrValue), key: Seq<char>, v: Seq<char>, n: i64)
    ensures
        is_text_attr(a, key, v) ==> a.0@ == key && (a.1 matches SpanAttrValue::Text(t) && t@ == v),
        is_int_attr(a, key, n) ==> a.0@ == key && a.1 == SpanAttrValue::Int(n),
        !(is_text_attr(a, key, v) && is_int_attr(a, key, n)),
{
}

fn status_text(s: StepExecutionStatus) -> (r: String)
    ensures
        r@ == status_label(s),
{
    match s {
        StepExecutionStatus::InProgress => owned("InProgress"),
        StepExecutionStatus::Completed => owned("Completed"),
        StepExecutionStatus::Failed => owned("Failed"),
    }
}

/// Metadata attributes allowed on an exported step span (SEC-1): index, id,
/// agent name and role, status and duration (0 when unknown), in that order.
pub fn step_metadata_attrs(step: &StepTrace) -> (r: Vec<(String, SpanAttrValue)>)
    ensures
        r@.len() == 6,
        is_int_attr(r@[0], "step_index"@, step.step_index as i64),
        is_text_attr(r@[1], "step_id"@, step.step_id@),
        is_text_attr(r@[2], "agent_name"@, step.agent_name@),
        is_text_attr(r@[3], "agent_role"@, step.agent_role@),
        is_text_attr(r@[4], "status"@, status_label(step.status)),
        is_int_attr(r@[5], "duration_ms"@, (match step.duration_ms {
            Some(d) => d,
            None => 0,
        }) as i64),
{
    let duration: u64 = match step.duration_ms {
        Some(d) => d,
        None => 0,
    };
    let mut attrs: Vec<(String, SpanAttrValue)> = Vec::new();
    attrs.push((owned("step_index"), SpanAttrValue::Int(step.step_index as i64)));
    attrs.push((owned("step_id"), SpanAttrValue::Text(step.step_id.clone())));
    attrs.push((owned("agent_name"), SpanAttrValue::Text(step.agent_name.clone())));
    attrs.push((owned("agent_role"), SpanAttrValue::Text(step.agent_role.clone())));
    attrs.push((owned("status"), SpanAttrValue::Text(status_text(step.status))));
    attrs.push((owned("duration_ms"), SpanAttrValue::Int(duration as i64)));
    attrs
}

} // verus!
