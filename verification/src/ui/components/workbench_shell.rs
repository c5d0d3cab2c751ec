//! Text decisions of the Workbench shell.
use vstd::prelude::*;

use crate::services::{
    ManualRetainedArtifactImportRequest, ProgrammaticComparisonStatus, VerificationBundleImportRequest,
};
use crate::text::{is_blank, trimmed};

verus! {

/// The badge text for a yes/no/unknown comparison verdict.
pub fn comparison_badge_text(value: Option<bool>, yes: &str, no: &str, unknown: &str) -> (r: String)
    ensures
        r@ == (match value {
            Some(true) => yes@,
            Some(false) => no@,
            None => unknown@,
        }),
{
    match value {
        Some(true) => yes.to_owned(),
        Some(false) => no.to_owned(),
        None => unknown.to_owned(),
    }
}

/// The import request that the retained-discrepancy form submits for an
/// outcome lane: none unless both ids hold more than whitespace; the ids are
/// carried as entered, and a blank summary becomes no summary.
pub fn manual_import_request(
    artifact_id: String,
    case_id: String,
    summary: String,
    comparison_status: ProgrammaticComparisonStatus,
) -> (r: Option<ManualRetainedArtifactImportRequest>)
    ensures
        (r is Some) <==> (trimmed(artifact_id@).len() > 0 && trimmed(case_id@).len() > 0),
        r matches Some(q) ==> {
            &&& q.artifact_id == artifact_id
            &&& q.case_id == case_id
            &&& q.comparison_status == comparison_status
            &&& q.discrepancy_summary == if trimmed(summary@).len() == 0 { None } else { Some(summary) }
        },
{
    if is_blank(artifact_id.as_str()) || is_blank(case_id.as_str()) {
        return None;
    }
    let discrepancy_summary = if is_blank(summary.as_str()) { None } else { Some(summary) };
    Some(ManualRetainedArtifactImportRequest { artifact_id, case_id, comparison_status, discrepancy_summary })
}

/// The bundle import request for a pasted report: none when the report is
/// blank, else the report as pasted.
pub fn verification_bundle_import_request(report_json: String) -> (r: Option<VerificationBundleImportRequest>)
    ensures
        (r is Some) <==> trimmed(report_json@).len() > 0,
        r matches Some(q) ==> q.report_json == report_json,
{
    if is_blank(report_json.as_str()) {
        None
    } else {
        Some(VerificationBundleImportRequest { report_json })
    }
}

} // verus!
