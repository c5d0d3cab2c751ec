//! The Workbench mode panels: outcome, evidence, lineage, actions and the
//! retained-artifact catalog.
use vstd::prelude::*;

use crate::services::{
    WorkbenchComparisonRecordView, WorkbenchExplainRecordView, WorkbenchRetainedCatalogItemView,
    WorkbenchViewModel,
};

verus! {

#[derive(Debug, PartialEq, Eq)]
pub struct WorkbenchOutcomeClusterViewModel {
    pub scenario_label: String,
    pub truth_source_label: String,
    pub host_profile_summary: String,
    pub capability_floor_summary: String,
    pub outcome_summary: Option<String>,
    pub recommended_action: String,
    pub retained_artifact_id: Option<String>,
    pub retained_case_id: Option<String>,
    pub comparison_status_summary: Option<String>,
    pub visible_output_match: Option<bool>,
    pub replay_equivalent: Option<bool>,
}

#[derive(Debug, PartialEq, Eq)]
pub struct WorkbenchEvidenceClusterViewModel {
    pub raw_entered_cell_text: String,
    pub evidence_summary: Option<String>,
    pub retained_discrepancy_summary: Option<String>,
    pub trace_summary: Option<String>,
    pub imported_bundle_summary: Option<String>,
    pub xml_source_summary: Option<String>,
    pub display_comparison_summary: Option<String>,
    pub upstream_gap_summary: Vec<String>,
    pub comparison_records: Vec<WorkbenchComparisonRecordView>,
    pub explain_records: Vec<WorkbenchExplainRecordView>,
}

#[derive(Debug, PartialEq, Eq)]
pub struct WorkbenchLineageClusterViewModel {
    pub lineage_items: Vec<String>,
}

#[derive(Debug, PartialEq, Eq)]
pub struct WorkbenchActionsClusterViewModel {
    pub action_items: Vec<String>,
    pub recommended_action: String,
}

#[derive(Debug, PartialEq, Eq)]
pub struct WorkbenchCatalogClusterViewModel {
    pub retained_catalog_items: Vec<WorkbenchRetainedCatalogItemView>,
}

/// The outcome cluster: labels, the outcome and the comparison verdicts.
pub fn build_workbench_outcome_cluster(view_model: &WorkbenchViewModel) -> (r: WorkbenchOutcomeClusterViewModel)
    ensures
        r.scenario_label == view_model.scenario_label,
        r.truth_source_label == view_model.truth_source_label,
        r.host_profile_summary == view_model.host_profile_summary,
        r.capability_floor_summary == view_model.capability_floor_summary,
        r.outcome_summary == view_model.outcome_summary,
        r.recommended_action == view_model.recommended_action,
        r.retained_artifact_id == view_model.retained_artifact_id,
        r.retained_case_id == view_model.retained_case_id,
        r.comparison_status_summary == view_model.comparison_status_summary,
        r.visible_output_match == view_model.visible_output_match,
        r.replay_equivalent == view_model.replay_equivalent,
{
    WorkbenchOutcomeClusterViewModel {
        scenario_label: view_model.scenario_label.clone(),
        truth_source_label: view_model.truth_source_label.clone(),
        host_profile_summary: view_model.host_profile_summary.clone(),
        capability_floor_summary: view_model.capability_floor_summary.clone(),
        outcome_summary: view_model.outcome_summary.clone(),
        recommended_action: view_model.recommended_action.clone(),
        retained_artifact_id: view_model.retained_artifact_id.clone(),
        retained_case_id: view_model.retained_case_id.clone(),
        comparison_status_summary: view_model.comparison_status_summary.clone(),
        visible_output_match: view_model.visible_output_match,
        replay_equivalent: view_model.replay_equivalent,
    }
}

/// The evidence cluster: the entered text, evidence summaries and records.
pub fn build_workbench_evidence_cluster(view_model: &WorkbenchViewModel) -> (r: WorkbenchEvidenceClusterViewModel)
    ensures
        r.raw_entered_cell_text == view_model.raw_entered_cell_text,
        r.evidence_summary == view_model.evidence_summary,
        r.retained_discrepancy_summary == view_model.retained_discrepancy_summary,
        r.trace_summary == view_model.trace_summary,
        r.imported_bundle_summary == view_model.imported_bundle_summary,
        r.xml_source_summary == view_model.xml_source_summary,
        r.display_comparison_summary == view_model.display_comparison_summary,
        r.upstream_gap_summary@ == view_model.upstream_gap_summary@,
        r.comparison_records@ == view_model.comparison_records@,
        r.explain_records@ == view_model.explain_records@,
{
    let upstream_gap_summary = view_model.upstream_gap_summary.clone();
    let comparison_records = view_model.comparison_records.clone();
    let explain_records = view_model.explain_records.clone();
    assert(upstream_gap_summary@ =~= view_model.upstream_gap_summary@);
    assert(comparison_records@ =~= view_model.comparison_records@);
    assert(explain_records@ =~= view_model.explain_records@);
    WorkbenchEvidenceClusterViewModel {
        raw_entered_cell_text: view_model.raw_entered_cell_text.clone(),
        evidence_summary: view_model.evidence_summary.clone(),
        retained_discrepancy_summary: view_model.retained_discrepancy_summary.clone(),
        trace_summary: view_model.trace_summary.clone(),
        imported_bundle_summary: view_model.imported_bundle_summary.clone(),
        xml_source_summary: view_model.xml_source_summary.clone(),
        display_comparison_summary: view_model.display_comparison_summary.clone(),
        upstream_gap_summary,
        comparison_records,
        explain_records,
    }
}

/// The lineage cluster: the lineage items.
pub fn build_workbench_lineage_cluster(view_model: &WorkbenchViewModel) -> (r: WorkbenchLineageClusterViewModel)
    ensures
        r.lineage_items@ == view_model.lineage_items@,
{
    let lineage_items = view_model.lineage_items.clone();
    assert(lineage_items@ =~= view_model.lineage_items@);
    WorkbenchLineageClusterViewModel { lineage_items }
}

/// The actions cluster: the action items and the recommended action.
pub fn build_workbench_actions_cluster(view_model: &WorkbenchViewModel) -> (r: WorkbenchActionsClusterViewModel)
    ensures
        r.action_items@ == view_model.action_items@,
        r.recommended_action == view_model.recommended_action,
{
    let action_items = view_model.action_items.clone();
    assert(action_items@ =~= view_model.action_items@);
    WorkbenchActionsClusterViewModel {
        action_items,
        recommended_action: view_model.recommended_action.clone(),
    }
}

/// The catalog cluster: the retained catalog items.
pub fn build_workbench_catalog_cluster(view_model: &WorkbenchViewModel) -> (r: WorkbenchCatalogClusterViewModel)
    ensures
        r.retained_catalog_items@ == view_model.retained_catalog_items@,
{
    let retained_catalog_items = view_model.retained_catalog_items.clone();
    assert(retained_catalog_items@ =~= view_model.retained_catalog_items@);
    WorkbenchCatalogClusterViewModel { retained_catalog_items }
}

} // verus!
