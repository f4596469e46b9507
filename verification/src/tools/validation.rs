//! JSON Schema (draft 7) validation of tool inputs.

use vstd::prelude::*;
use crate::text::{append_str, owned};
use super::error::ToolError;

verus! {

/// What compiling `schema` as a draft-7 JSON Schema and validating `input`
/// with it gives: `Err` with the display text of the compile error when the
/// schema does not compile, else `Ok(Ok(()))` for a valid input or
/// `Ok(Err(..))` with the display text of the first validation error. With
/// the crate's default features off, no remote reference is fetched, so it
/// depends on the two values alone.
pub uninterp spec fn draft7_check(schema: serde_json::Value, input: serde_json::Value) -> Result<Result<(), Seq<char>>, Seq<char>>;

/// `None` when the schema does not compile, else whether the input is valid.
pub open spec fn draft7_outcome(schema: serde_json::Value, input: serde_json::Value) -> Option<bool> {
    match draft7_check(schema, input) {
        Err(_) => None,
        Ok(Ok(())) => Some(true),
        Ok(Err(_)) => Some(false),
    }
}

/// Whether `r` reports the check `c`, texts by their views.
pub open spec fn reports_check(r: Result<Result<(), String>, String>, c: Result<Result<(), Seq<char>>, Seq<char>>) -> bool {
    match (r, c) {
        (Err(e), Err(m)) => e@ == m,
        (Ok(Ok(())), Ok(Ok(()))) => true,
        (Ok(Err(e)), Ok(Err(m))) => e@ == m,
        _ => false,
    }
}

/// Compiles `schema` as a draft-7 JSON Schema (`jsonschema::options()
/// .with_draft(Draft::Draft7).build`) and validates `input` with it
/// (`Validator::validate`, first error). The outer `Err` carries the display
/// text of a schema that does not compile; the inner `Err` that of the first
/// validation error. The outcome and texts are named by `draft7_check`.
#[verifier::external_body]
fn draft7_validate(schema: &serde_json::Value, input: &serde_json::Value) -> (r: Result<Result<(), String>, String>)
    ensures
        reports_check(r, draft7_check(*schema, *input)),
{
    match jsonschema::options().with_draft(jsonschema::Draft::Draft7).build(schema) {
        Err(e) => Err(e.to_string()),
        Ok(validator) => Ok(validator.validate(input).map_err(|e| e.to_string())),
    }
}

/// The tool error a schema check of tool `name` leads to: a schema that does
/// not compile fails with reason "invalid schema: " and its error, an input
/// that does not validate fails with the validation error.
pub fn validation_outcome(name: &str, check: Result<Result<(), String>, String>) -> (r: Result<(), ToolError>)
    ensures
        match check {
            Err(e) => r matches Err(ToolError::ValidationFailed { name: n, reason })
                && n@ == name@ && reason@ == "invalid schema: "@ + e@,
            Ok(Err(e)) => r matches Err(ToolError::ValidationFailed { name: n, reason })
                && n@ == name@ && reason@ == e@,
            Ok(Ok(())) => r is Ok,
        },
{
    match check {
        Err(e) => {
            let mut reason = owned("invalid schema: ");
            append_str(&mut reason, e.as_str());
            Err(ToolError::ValidationFailed { name: owned(name), reason })
        },
        Ok(Err(e)) => Err(ToolError::ValidationFailed { name: owned(name), reason: e }),
        Ok(Ok(())) => Ok(()),
    }
}

/// Validates `input` against `schema` as a draft-7 JSON Schema: `Ok` exactly
/// when the schema compiles and accepts the input; a failure is
/// `ValidationFailed` for `name`.
pub fn validate_tool_input(name: &str, schema: &serde_json::Value, input: &serde_json::Value) -> (r: Result<(), ToolError>)
    ensures
        r is Ok <==> draft7_outcome(*schema, *input) == Some(true),
        r is Ok || (r matches Err(ToolError::ValidationFailed { name: n, .. }) && n@ == name@),
        draft7_check(*schema, *input) matches Err(m) ==> (r matches Err(ToolError::ValidationFailed { reason, .. })
            && reason@ == "invalid schema: "@ + m),
        draft7_check(*schema, *input) matches Ok(Err(m)) ==> (r matches Err(ToolError::ValidationFailed { reason, .. })
            && reason@ == m),
{
    let check = draft7_validate(schema, input);
    validation_outcome(name, check)
}

} // verus!
