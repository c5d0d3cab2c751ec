//! The Inspect mode panels: the formula-walk cluster and the summary cluster.
use vstd::prelude::*;

use crate::services::{
    BindSummary, EvalSummary, InspectFormulaWalkNodeView, InspectRetainedArtifactContextView,
    InspectViewModel, ParseSummary, ProvenanceSummary,
};

verus! {

#[derive(Debug, PartialEq, Eq)]
pub struct InspectWalkClusterViewModel {
    pub scenario_label: String,
    pub truth_source_label: String,
    pub host_profile_summary: String,
    pub raw_entered_cell_text: String,
    pub green_tree_key: Option<String>,
    pub formula_walk_nodes: Vec<InspectFormulaWalkNodeView>,
    pub inspect_result_summary: Option<String>,
}

#[derive(Debug, PartialEq, Eq)]
pub struct InspectSummaryClusterViewModel {
    pub packet_kind_summary: String,
    pub capability_floor_summary: String,
    pub mode_availability_summary: String,
    pub trace_summary: Option<String>,
    pub blocked_reason: Option<String>,
    pub parse_summary: Option<ParseSummary>,
    pub bind_summary: Option<BindSummary>,
    pub eval_summary: Option<EvalSummary>,
    pub provenance_summary: Option<ProvenanceSummary>,
    pub retained_artifact_context: Option<InspectRetainedArtifactContextView>,
}

/// `a` holds the same walk nodes as `b`, subtree by subtree.
pub open spec fn same_walk_nodes(a: Seq<InspectFormulaWalkNodeView>, b: Seq<InspectFormulaWalkNodeView>) -> bool {
    &&& a.len() == b.len()
    &&& forall|i: int| #![trigger a[i]] 0 <= i < a.len() ==> a[i].is_copy_of(b[i])
}

/// `a` holds the same retained-artifact context as `b`.
pub open spec fn same_artifact_context(
    a: Option<InspectRetainedArtifactContextView>,
    b: Option<InspectRetainedArtifactContextView>,
) -> bool {
    match (a, b) {
        (Some(x), Some(y)) => x.is_copy_of(y),
        (None, None) => true,
        _ => false,
    }
}

/// The walk cluster: labels, the entered text and the formula walk.
pub fn build_inspect_walk_cluster(view_model: &InspectViewModel) -> (r: InspectWalkClusterViewModel)
    ensures
        r.scenario_label == view_model.scenario_label,
        r.truth_source_label == view_model.truth_source_label,
        r.host_profile_summary == view_model.host_profile_summary,
        r.raw_entered_cell_text == view_model.raw_entered_cell_text,
        r.green_tree_key == view_model.green_tree_key,
        same_walk_nodes(r.formula_walk_nodes@, view_model.formula_walk_nodes@),
        r.inspect_result_summary == view_model.inspect_result_summary,
{
    let mut nodes: Vec<InspectFormulaWalkNodeView> = Vec::new();
    let mut i: usize = 0;
    while i < view_model.formula_walk_nodes.len()
        invariant
            i <= view_model.formula_walk_nodes@.len(),
            nodes@.len() == i,
            forall|j: int| #![trigger nodes@[j]] 0 <= j < i ==> nodes@[j].is_copy_of(view_model.formula_walk_nodes@[j]),
        decreases view_model.formula_walk_nodes@.len() - i,
    {
        nodes.push(view_model.formula_walk_nodes[i].copy_tree());
        i += 1;
    }
    InspectWalkClusterViewModel {
        scenario_label: view_model.scenario_label.clone(),
        truth_source_label: view_model.truth_source_label.clone(),
        host_profile_summary: view_model.host_profile_summary.clone(),
        raw_entered_cell_text: view_model.raw_entered_cell_text.clone(),
        green_tree_key: view_model.green_tree_key.clone(),
        formula_walk_nodes: nodes,
        inspect_result_summary: view_model.inspect_result_summary.clone(),
    }
}

/// The summary cluster: packet, capability and mode summaries with the
/// parse, bind, eval and provenance summaries and the retained artifact.
pub fn build_inspect_summary_cluster(view_model: &InspectViewModel) -> (r: InspectSummaryClusterViewModel)
    ensures
        r.packet_kind_summary == view_model.packet_kind_summary,
        r.capability_floor_summary == view_model.capability_floor_summary,
        r.mode_availability_summary == view_model.mode_availability_summary,
        r.trace_summary == view_model.trace_summary,
        r.blocked_reason == view_model.blocked_reason,
        r.parse_summary == view_model.parse_summary,
        r.bind_summary == view_model.bind_summary,
        r.eval_summary == view_model.eval_summary,
        r.provenance_summary == view_model.provenance_summary,
        same_artifact_context(r.retained_artifact_context, view_model.retained_artifact_context),
{
    InspectSummaryClusterViewModel {
        packet_kind_summary: view_model.packet_kind_summary.clone(),
        capability_floor_summary: view_model.capability_floor_summary.clone(),
        mode_availability_summary: view_model.mode_availability_summary.clone(),
        trace_summary: view_model.trace_summary.clone(),
        blocked_reason: view_model.blocked_reason.clone(),
        parse_summary: view_model.parse_summary.clone(),
        bind_summary: view_model.bind_summary,
        eval_summary: view_model.eval_summary.clone(),
        provenance_summary: view_model.provenance_summary.clone(),
        retained_artifact_context: view_model.retained_artifact_context.clone(),
    }
}

} // verus!
