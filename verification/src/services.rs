//! The mode view models that the host's services hand to the panels.
use vstd::prelude::*;

use crate::adapters::{FormulaTextSpan, FormulaWalkNodeState};
use crate::state::FormulaConditionalFormattingTypedRule;
use crate::ui::editor::render_projection::SyntaxRun;
use crate::ui::editor::state::EditorSurfaceState;

verus! {

// ---------------------------------------------------------------------------
// Explore
// ---------------------------------------------------------------------------

#[derive(Debug, PartialEq, Eq)]
pub struct ExploreDiagnosticView {
    pub diagnostic_id: String,
    pub message: String,
    pub span_start: usize,
    pub span_len: usize,
}

impl Clone for ExploreDiagnosticView {
    fn clone(&self) -> (r: Self)
        ensures
            r == *self,
    {
        Self {
            diagnostic_id: self.diagnostic_id.clone(),
            message: self.message.clone(),
            span_start: self.span_start,
            span_len: self.span_len,
        }
    }
}

#[derive(Debug, Clone, Copy, PartialEq, Eq, Structural)]
pub enum ExploreCompletionKindView {
    Function,
}

#[derive(Debug, PartialEq, Eq)]
pub struct ExploreCompletionItemView {
    pub proposal_id: String,
    pub proposal_kind: ExploreCompletionKindView,
    pub display_text: String,
    pub insert_text: String,
    pub replacement_span: Option<FormulaTextSpan>,
    pub documentation_ref: Option<String>,
    pub requires_revalidation: bool,
}

impl Clone for ExploreCompletionItemView {
    fn clone(&self) -> (r: Self)
        ensures
            r == *self,
    {
        Self {
            proposal_id: self.proposal_id.clone(),
            proposal_kind: self.proposal_kind,
            display_text: self.display_text.clone(),
            insert_text: self.insert_text.clone(),
            replacement_span: self.replacement_span,
            documentation_ref: self.documentation_ref.clone(),
            requires_revalidation: self.requires_revalidation,
        }
    }
}

#[derive(Debug, PartialEq, Eq)]
pub struct ExploreSignatureHelpView {
    pub callee_text: String,
    pub call_span: FormulaTextSpan,
    pub active_argument_index: usize,
}

impl Clone for ExploreSignatureHelpView {
    fn clone(&self) -> (r: Self)
        ensures
            r == *self,
    {
        Self {
            callee_text: self.callee_text.clone(),
            call_span: self.call_span,
            active_argument_index: self.active_argument_index,
        }
    }
}

#[derive(Debug, PartialEq, Eq)]
pub struct ExploreFunctionHelpSignatureView {
    pub display_signature: String,
    pub min_arity: usize,
    pub max_arity: Option<usize>,
}

impl Clone for ExploreFunctionHelpSignatureView {
    fn clone(&self) -> (r: Self)
        ensures
            r == *self,
    {
        Self {
            display_signature: self.display_signature.clone(),
            min_arity: self.min_arity,
            max_arity: self.max_arity,
        }
    }
}

#[derive(Debug, PartialEq, Eq)]
pub struct ExploreFunctionHelpView {
    pub lookup_key: String,
    pub display_name: String,
    pub signature_forms: Vec<ExploreFunctionHelpSignatureView>,
    pub argument_help: Vec<String>,
    pub short_description: Option<String>,
    pub availability_summary: Option<String>,
    pub deferred_or_profile_limited: bool,
}

impl ExploreFunctionHelpView {
    /// `self` holds the same values as `other`, list by list.
    pub open spec fn is_copy_of(self, other: Self) -> bool {
        &&& self.lookup_key == other.lookup_key
        &&& self.display_name == other.display_name
        &&& self.signature_forms@ == other.signature_forms@
        &&& self.argument_help@ == other.argument_help@
        &&& self.short_description == other.short_description
        &&& self.availability_summary == other.availability_summary
        &&& self.deferred_or_profile_limited == other.deferred_or_profile_limited
    }
}

impl Clone for ExploreFunctionHelpView {
    fn clone(&self) -> (r: Self)
        ensures
            r.is_copy_of(*self),
    {
        let signature_forms = self.signature_forms.clone();
        let argument_help = self.argument_help.clone();
        assert(signature_forms@ =~= self.signature_forms@);
        assert(argument_help@ =~= self.argument_help@);
        Self {
            lookup_key: self.lookup_key.clone(),
            display_name: self.display_name.clone(),
            signature_forms,
            argument_help,
            short_description: self.short_description.clone(),
            availability_summary: self.availability_summary.clone(),
            deferred_or_profile_limited: self.deferred_or_profile_limited,
        }
    }
}

/// A completion proposal accepted from the popup: the text to insert, the
/// span it replaces (none: append), and where the caret lands afterwards.
#[derive(Debug, PartialEq, Eq)]
pub struct CompletionAcceptance {
    pub replacement_span: Option<FormulaTextSpan>,
    pub insert_text: String,
    pub new_caret_offset: usize,
}

/// What Explore mode shows of one formula space.
#[derive(Debug, PartialEq, Eq)]
pub struct ExploreViewModel {
    pub raw_entered_cell_text: String,
    pub editor_surface_state: EditorSurfaceState,
    pub syntax_runs: Vec<SyntaxRun>,
    pub diagnostics: Vec<ExploreDiagnosticView>,
    pub completion_count: usize,
    pub completion_items: Vec<ExploreCompletionItemView>,
    pub has_signature_help: bool,
    pub signature_help: Option<ExploreSignatureHelpView>,
    pub function_help: Option<ExploreFunctionHelpView>,
    pub function_help_lookup_key: Option<String>,
    pub effective_display_summary: Option<String>,
    pub latest_evaluation_summary: Option<String>,
    pub green_tree_key: Option<String>,
    pub reused_green_tree: bool,
}

// ---------------------------------------------------------------------------
// Inspect
// ---------------------------------------------------------------------------

#[derive(Debug, PartialEq, Eq)]
pub struct InspectFormulaWalkNodeView {
    pub node_id: String,
    pub label: String,
    pub value_preview: Option<String>,
    pub state: FormulaWalkNodeState,
    pub children: Vec<InspectFormulaWalkNodeView>,
}

proof fn lemma_walk_node_copy(r: InspectFormulaWalkNodeView, o: InspectFormulaWalkNodeView)
    requires
        r.node_id == o.node_id,
        r.label == o.label,
        r.value_preview == o.value_preview,
        r.state == o.state,
        r.children@.len() == o.children@.len(),
        forall|i: int| #![trigger r.children@[i]] 0 <= i < r.children@.len() ==> r.children@[i].is_copy_of(o.children@[i]),
    ensures
        r.is_copy_of(o),
{
}

impl InspectFormulaWalkNodeView {
    /// `self` holds the same values as `other`, down the whole subtree.
    pub open spec fn is_copy_of(self, other: Self) -> bool
        decreases self,
    {
        &&& self.node_id == other.node_id
        &&& self.label == other.label
        &&& self.value_preview == other.value_preview
        &&& self.state == other.state
        &&& self.children@.len() == other.children@.len()
        &&& forall|i: int| #![trigger self.children@[i]] 0 <= i < self.children@.len() ==> self.children@[i].is_copy_of(other.children@[i])
    }

    /// A copy of the node and its whole subtree.
    pub fn copy_tree(&self) -> (r: Self)
        ensures
            r.is_copy_of(*self),
        decreases self,
    {
        let mut children: Vec<InspectFormulaWalkNodeView> = Vec::new();
        let mut i: usize = 0;
        while i < self.children.len()
            invariant
                i <= self.children@.len(),
                children@.len() == i,
                forall|j: int| #![trigger children@[j]] 0 <= j < i ==> children@[j].is_copy_of(self.children@[j]),
            decreases self.children@.len() - i,
        {
            children.push(self.children[i].copy_tree());
            i += 1;
        }
        let r = Self {
            node_id: self.node_id.clone(),
            label: self.label.clone(),
            value_preview: self.value_preview.clone(),
            state: self.state,
            children,
        };
        proof {
            lemma_walk_node_copy(r, *self);
        }
        r
    }
}

#[derive(Debug, PartialEq, Eq)]
pub struct ParseSummary {
    pub status: String,
    pub token_count: usize,
}

impl Clone for ParseSummary {
    fn clone(&self) -> (r: Self)
        ensures
            r == *self,
    {
        Self { status: self.status.clone(), token_count: self.token_count }
    }
}

#[derive(Debug, Clone, Copy, PartialEq, Eq, Structural)]
pub struct BindSummary {
    pub variable_count: usize,
    pub reference_count: usize,
}

#[derive(Debug, PartialEq, Eq)]
pub struct EvalSummary {
    pub step_count: usize,
    pub duration_text: String,
}

impl Clone for EvalSummary {
    fn clone(&self) -> (r: Self)
        ensures
            r == *self,
    {
        Self { step_count: self.step_count, duration_text: self.duration_text.clone() }
    }
}

#[derive(Debug, PartialEq, Eq)]
pub struct ProvenanceSummary {
    pub profile_summary: String,
    pub blocked_reason: Option<String>,
}

impl Clone for ProvenanceSummary {
    fn clone(&self) -> (r: Self)
        ensures
            r == *self,
    {
        Self { profile_summary: self.profile_summary.clone(), blocked_reason: self.blocked_reason.clone() }
    }
}

#[derive(Debug, PartialEq, Eq)]
pub struct InspectRetainedArtifactContextView {
    pub artifact_id: String,
    pub case_id: String,
    pub comparison_status: String,
    pub discrepancy_summary: Option<String>,
    pub bundle_report_path: Option<String>,
    pub xml_source_summary: Option<String>,
    pub display_comparison_summary: Option<String>,
    pub upstream_gap_summary: Vec<String>,
}

impl InspectRetainedArtifactContextView {
    /// `self` holds the same values as `other`, list by list.
    pub open spec fn is_copy_of(self, other: Self) -> bool {
        &&& self.artifact_id == other.artifact_id
        &&& self.case_id == other.case_id
        &&& self.comparison_status == other.comparison_status
        &&& self.discrepancy_summary == other.discrepancy_summary
        &&& self.bundle_report_path == other.bundle_report_path
        &&& self.xml_source_summary == other.xml_source_summary
        &&& self.display_comparison_summary == other.display_comparison_summary
        &&& self.upstream_gap_summary@ == other.upstream_gap_summary@
    }
}

impl Clone for InspectRetainedArtifactContextView {
    fn clone(&self) -> (r: Self)
        ensures
            r.is_copy_of(*self),
    {
        let upstream_gap_summary = self.upstream_gap_summary.clone();
        assert(upstream_gap_summary@ =~= self.upstream_gap_summary@);
        Self {
            artifact_id: self.artifact_id.clone(),
            case_id: self.case_id.clone(),
            comparison_status: self.comparison_status.clone(),
            discrepancy_summary: self.discrepancy_summary.clone(),
            bundle_report_path: self.bundle_report_path.clone(),
            xml_source_summary: self.xml_source_summary.clone(),
            display_comparison_summary: self.display_comparison_summary.clone(),
            upstream_gap_summary,
        }
    }
}

/// What Inspect mode shows of one formula space.
#[derive(Debug, PartialEq, Eq)]
pub struct InspectViewModel {
    pub raw_entered_cell_text: String,
    pub scenario_label: String,
    pub truth_source_label: String,
    pub host_profile_summary: String,
    pub inspect_result_summary: Option<String>,
    pub green_tree_key: Option<String>,
    pub formula_walk_nodes: Vec<InspectFormulaWalkNodeView>,
    pub parse_summary: Option<ParseSummary>,
    pub bind_summary: Option<BindSummary>,
    pub eval_summary: Option<EvalSummary>,
    pub provenance_summary: Option<ProvenanceSummary>,
    pub packet_kind_summary: String,
    pub capability_floor_summary: String,
    pub mode_availability_summary: String,
    pub trace_summary: Option<String>,
    pub blocked_reason: Option<String>,
    pub retained_artifact_context: Option<InspectRetainedArtifactContextView>,
}

// ---------------------------------------------------------------------------
// Workbench
// ---------------------------------------------------------------------------

#[derive(Debug, PartialEq, Eq)]
pub struct WorkbenchComparisonRecordView {
    pub mismatch_kind: String,
    pub severity: String,
    pub view_family: Option<String>,
    pub family_label: String,
    pub status_label: String,
    pub summary: String,
    pub left_value_repr: Option<String>,
    pub right_value_repr: Option<String>,
    pub detail: Option<String>,
    pub is_projection_gap: bool,
}

impl Clone for WorkbenchComparisonRecordView {
    fn clone(&self) -> (r: Self)
        ensures
            r == *self,
    {
        Self {
            mismatch_kind: self.mismatch_kind.clone(),
            severity: self.severity.clone(),
            view_family: self.view_family.clone(),
            family_label: self.family_label.clone(),
            status_label: self.status_label.clone(),
            summary: self.summary.clone(),
            left_value_repr: self.left_value_repr.clone(),
            right_value_repr: self.right_value_repr.clone(),
            detail: self.detail.clone(),
            is_projection_gap: self.is_projection_gap,
        }
    }
}

#[derive(Debug, PartialEq, Eq)]
pub struct WorkbenchExplainRecordView {
    pub query_id: Option<String>,
    pub mismatch_kind: String,
    pub severity: String,
    pub view_family: Option<String>,
    pub family_label: String,
    pub summary: String,
    pub left_value_repr: Option<String>,
    pub right_value_repr: Option<String>,
    pub detail: Option<String>,
}

impl Clone for WorkbenchExplainRecordView {
    fn clone(&self) -> (r: Self)
        ensures
            r == *self,
    {
        Self {
            query_id: self.query_id.clone(),
            mismatch_kind: self.mismatch_kind.clone(),
            severity: self.severity.clone(),
            view_family: self.view_family.clone(),
            family_label: self.family_label.clone(),
            summary: self.summary.clone(),
            left_value_repr: self.left_value_repr.clone(),
            right_value_repr: self.right_value_repr.clone(),
            detail: self.detail.clone(),
        }
    }
}

#[derive(Debug, PartialEq, Eq)]
pub struct WorkbenchRetainedCatalogItemView {
    pub artifact_id: String,
    pub case_id: String,
    pub comparison_status: String,
    pub discrepancy_summary: Option<String>,
    pub xml_source_summary: Option<String>,
    pub is_open: bool,
}

impl Clone for WorkbenchRetainedCatalogItemView {
    fn clone(&self) -> (r: Self)
        ensures
            r == *self,
    {
        Self {
            artifact_id: self.artifact_id.clone(),
            case_id: self.case_id.clone(),
            comparison_status: self.comparison_status.clone(),
            discrepancy_summary: self.discrepancy_summary.clone(),
            xml_source_summary: self.xml_source_summary.clone(),
            is_open: self.is_open,
        }
    }
}

/// The outcome lane a retained comparison is filed under.
#[derive(Debug, Clone, Copy, PartialEq, Eq, Structural)]
pub enum ProgrammaticComparisonStatus {
    Matched,
    Mismatched,
    Blocked,
}

/// A retained discrepancy record entered by hand in the Workbench.
#[derive(Debug, PartialEq, Eq)]
pub struct ManualRetainedArtifactImportRequest {
    pub artifact_id: String,
    pub case_id: String,
    pub comparison_status: ProgrammaticComparisonStatus,
    pub discrepancy_summary: Option<String>,
}

/// A verification bundle report pasted into the Workbench.
#[derive(Debug, PartialEq, Eq)]
pub struct VerificationBundleImportRequest {
    pub report_json: String,
}

/// A conditional-formatting rule as the home shell's formatting panel
/// shows it.
#[derive(Debug, PartialEq, Eq)]
pub struct ConditionalFormattingRuleView {
    pub rule_kind: String,
    pub operator: Option<String>,
    pub thresholds: Vec<String>,
    pub font_color: Option<String>,
    pub fill_color: Option<String>,
    pub typed_rule: Option<FormulaConditionalFormattingTypedRule>,
}

/// What Workbench mode shows of one formula space.
#[derive(Debug, PartialEq, Eq)]
pub struct WorkbenchViewModel {
    pub raw_entered_cell_text: String,
    pub scenario_label: String,
    pub truth_source_label: String,
    pub host_profile_summary: String,
    pub capability_floor_summary: String,
    pub outcome_summary: Option<String>,
    pub evidence_summary: Option<String>,
    pub lineage_items: Vec<String>,
    pub action_items: Vec<String>,
    pub recommended_action: String,
    pub retained_artifact_id: Option<String>,
    pub retained_case_id: Option<String>,
    pub comparison_status_summary: Option<String>,
    pub visible_output_match: Option<bool>,
    pub replay_equivalent: Option<bool>,
    pub retained_discrepancy_summary: Option<String>,
    pub trace_summary: Option<String>,
    pub imported_bundle_summary: Option<String>,
    pub xml_source_summary: Option<String>,
    pub display_comparison_summary: Option<String>,
    pub upstream_gap_summary: Vec<String>,
    pub comparison_records: Vec<WorkbenchComparisonRecordView>,
    pub explain_records: Vec<WorkbenchExplainRecordView>,
    pub retained_catalog_items: Vec<WorkbenchRetainedCatalogItemView>,
}

} // verus!
