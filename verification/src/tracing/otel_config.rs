//! When OTLP export is requested and configured.

use vstd::prelude::*;
use crate::text::{blank, is_blank};

verus! {

/// Export is requested when the legacy endpoint setting is present and not blank.
pub open spec fn requests_export(endpoint: Option<Seq<char>>) -> bool {
    match endpoint {
        Some(e) => !is_blank(e),
        None => false,
    }
}

/// Whether export was requested, given the value of the legacy
/// `ARCFLOW_OTLP_ENDPOINT` setting (`None` when it is unset).
pub fn export_requested(legacy_endpoint: Option<&str>) -> (r: bool)
    ensures
        r == requests_export(match legacy_endpoint {
            Some(e) => Some(e@),
            None => None,
        }),
{
    match legacy_endpoint {
        Some(e) => !blank(e),
        None => false,
    }
}

/// OTLP export is configured when it was requested and an OTLP endpoint is set.
pub fn otlp_configured(export_requested: bool, otlp_endpoint: Option<&str>) -> (r: bool)
    ensures
        r == (export_requested && otlp_endpoint is Some),
{
    export_requested && otlp_endpoint.is_some()
}

} // verus!
