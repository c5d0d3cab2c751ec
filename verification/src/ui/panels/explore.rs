//! The Explore mode panels: the editor cluster and the result cluster.
use vstd::prelude::*;

use crate::adapters::FormulaTextSpan;
use crate::services::{
    ExploreCompletionItemView, ExploreDiagnosticView, ExploreFunctionHelpView,
    ExploreSignatureHelpView, ExploreViewModel,
};
use crate::ui::editor::render_projection::SyntaxRun;
use crate::ui::editor::state::EditorSurfaceState;

verus! {

#[derive(Debug, PartialEq, Eq)]
pub struct ExploreEditorClusterViewModel {
    pub raw_entered_cell_text: String,
    pub editor_surface_state: EditorSurfaceState,
    pub syntax_runs: Vec<SyntaxRun>,
    pub diagnostics: Vec<ExploreDiagnosticView>,
    pub completion_count: usize,
    pub completion_items: Vec<ExploreCompletionItemView>,
    pub selected_completion_proposal_id: Option<String>,
    pub completion_anchor_span: Option<FormulaTextSpan>,
    pub has_signature_help: bool,
    pub signature_help: Option<ExploreSignatureHelpView>,
    pub function_help: Option<ExploreFunctionHelpView>,
    pub function_help_lookup_key: Option<String>,
    pub green_tree_key: Option<String>,
    pub reused_green_tree: bool,
}

#[derive(Debug, PartialEq, Eq)]
pub struct ExploreResultClusterViewModel {
    pub effective_display_summary: Option<String>,
    pub latest_evaluation_summary: Option<String>,
}

/// The completion item that the editor state selects, if the index names one.
pub open spec fn selected_completion(vm: ExploreViewModel) -> Option<ExploreCompletionItemView> {
    match vm.editor_surface_state.completion_selected_index {
        Some(i) => if i < vm.completion_items@.len() { Some(vm.completion_items@[i as int]) } else { None },
        None => None,
    }
}

/// `a` holds the same function help as `b`.
pub open spec fn same_function_help(a: Option<ExploreFunctionHelpView>, b: Option<ExploreFunctionHelpView>) -> bool {
    match (a, b) {
        (Some(x), Some(y)) => x.is_copy_of(y),
        (None, None) => true,
        _ => false,
    }
}

/// The editor cluster: the editing surface of the Explore view model, with
/// the selected completion's proposal id and replacement span picked out.
pub fn build_explore_editor_cluster(view_model: &ExploreViewModel) -> (r: ExploreEditorClusterViewModel)
    ensures
        r.raw_entered_cell_text == view_model.raw_entered_cell_text,
        r.editor_surface_state == view_model.editor_surface_state,
        r.syntax_runs@ == view_model.syntax_runs@,
        r.diagnostics@ == view_model.diagnostics@,
        r.completion_count == view_model.completion_count,
        r.completion_items@ == view_model.completion_items@,
        r.selected_completion_proposal_id == (match selected_completion(*view_model) {
            Some(item) => Some(item.proposal_id),
            None => None,
        }),
        r.completion_anchor_span == (match selected_completion(*view_model) {
            Some(item) => item.replacement_span,
            None => None,
        }),
        r.has_signature_help == view_model.has_signature_help,
        r.signature_help == view_model.signature_help,
        same_function_help(r.function_help, view_model.function_help),
        r.function_help_lookup_key == view_model.function_help_lookup_key,
        r.green_tree_key == view_model.green_tree_key,
        r.reused_green_tree == view_model.reused_green_tree,
{
    let syntax_runs = view_model.syntax_runs.clone();
    let diagnostics = view_model.diagnostics.clone();
    let completion_items = view_model.completion_items.clone();
    assert(syntax_runs@ =~= view_model.syntax_runs@);
    assert(diagnostics@ =~= view_model.diagnostics@);
    assert(completion_items@ =~= view_model.completion_items@);
    let mut selected_completion_proposal_id: Option<String> = None;
    let mut completion_anchor_span: Option<FormulaTextSpan> = None;
    match view_model.editor_surface_state.completion_selected_index {
        Some(index) => {
            if index < view_model.completion_items.len() {
                let item = &view_model.completion_items[index];
                selected_completion_proposal_id = Some(item.proposal_id.clone());
                completion_anchor_span = item.replacement_span;
            }
        },
        None => {},
    }
    ExploreEditorClusterViewModel {
        raw_entered_cell_text: view_model.raw_entered_cell_text.clone(),
        editor_surface_state: view_model.editor_surface_state,
        syntax_runs,
        diagnostics,
        completion_count: view_model.completion_count,
        completion_items,
        selected_completion_proposal_id,
        completion_anchor_span,
        has_signature_help: view_model.has_signature_help,
        signature_help: view_model.signature_help.clone(),
        function_help: view_model.function_help.clone(),
        function_help_lookup_key: view_model.function_help_lookup_key.clone(),
        green_tree_key: view_model.green_tree_key.clone(),
        reused_green_tree: view_model.reused_green_tree,
    }
}

/// The result cluster: the effective display and the latest evaluation.
pub fn build_explore_result_cluster(view_model: &ExploreViewModel) -> (r: ExploreResultClusterViewModel)
    ensures
        r.effective_display_summary == view_model.effective_display_summary,
        r.latest_evaluation_summary == view_model.latest_evaluation_summary,
{
    ExploreResultClusterViewModel {
        effective_display_summary: view_model.effective_display_summary.clone(),
        latest_evaluation_summary: view_model.latest_evaluation_summary.clone(),
    }
}

} // verus!
