use dnaonecalc_host::adapters::{FormulaTextSpan, FormulaWalkNodeState};
use dnaonecalc_host::services::{
    BindSummary, EvalSummary, ExploreCompletionItemView, ExploreCompletionKindView,
    ExploreDiagnosticView, ExploreFunctionHelpSignatureView, ExploreFunctionHelpView,
    ExploreSignatureHelpView, ExploreViewModel, InspectFormulaWalkNodeView,
    InspectRetainedArtifactContextView, InspectViewModel, ParseSummary, ProvenanceSummary,
    WorkbenchComparisonRecordView, WorkbenchExplainRecordView, WorkbenchRetainedCatalogItemView,
    WorkbenchViewModel,
};
use dnaonecalc_host::ui::editor::render_projection::{SyntaxRun, SyntaxTokenRole};
use dnaonecalc_host::ui::editor::state::{EditorLiveState, EditorSurfaceState};
use dnaonecalc_host::ui::panels::explore::{build_explore_editor_cluster, build_explore_result_cluster};
use dnaonecalc_host::ui::panels::inspect::{build_inspect_summary_cluster, build_inspect_walk_cluster};
use dnaonecalc_host::ui::panels::value_panel_model::{
    build_value_panel_from_explore_strings, ValuePanelArrayShape, ValuePanelErrorSurface,
    ValuePanelNumberFormatHint, ValuePanelPipelineStepStatus, ValuePanelReferenceKind,
    ValuePanelStyleHint, ValuePanelValue,
};
use dnaonecalc_host::ui::panels::workbench::{
    build_workbench_actions_cluster, build_workbench_catalog_cluster,
    build_workbench_evidence_cluster, build_workbench_lineage_cluster,
    build_workbench_outcome_cluster,
};

fn explore_view_model_with_selection(selected: Option<usize>) -> ExploreViewModel {
    ExploreViewModel {
        raw_entered_cell_text: "=SUM(1,2)".to_string(),
        editor_surface_state: EditorSurfaceState {
            completion_selected_index: selected,
            completion_anchor_offset: Some(4),
            signature_help_anchor_offset: Some(4),
            ..EditorSurfaceState::for_text("=SUM(1,2)")
        },
        syntax_runs: vec![SyntaxRun {
            text: "SUM".to_string(),
            span_start: 1,
            span_len: 3,
            role: SyntaxTokenRole::Function,
        }],
        diagnostics: vec![ExploreDiagnosticView {
            diagnostic_id: "diag-1".to_string(),
            message: "sample".to_string(),
            span_start: 1,
            span_len: 3,
        }],
        completion_count: 2,
        completion_items: vec![ExploreCompletionItemView {
            proposal_id: "proposal-1".to_string(),
            proposal_kind: ExploreCompletionKindView::Function,
            display_text: "SUM".to_string(),
            insert_text: "SUM(".to_string(),
            replacement_span: Some(FormulaTextSpan { start: 1, len: 3 }),
            documentation_ref: Some("preview:function:SUM".to_string()),
            requires_revalidation: true,
        }],
        has_signature_help: true,
        signature_help: Some(ExploreSignatureHelpView {
            callee_text: "SUM".to_string(),
            call_span: FormulaTextSpan { start: 0, len: 9 },
            active_argument_index: 1,
        }),
        function_help: Some(ExploreFunctionHelpView {
            lookup_key: "SUM".to_string(),
            display_name: "SUM".to_string(),
            signature_forms: vec![ExploreFunctionHelpSignatureView {
                display_signature: "SUM(number1, number2, ...)".to_string(),
                min_arity: 1,
                max_arity: None,
            }],
            argument_help: vec!["number1".to_string(), "number2".to_string()],
            short_description: Some("Adds numbers".to_string()),
            availability_summary: Some("supported".to_string()),
            deferred_or_profile_limited: false,
        }),
        function_help_lookup_key: Some("SUM".to_string()),
        effective_display_summary: Some("3".to_string()),
        latest_evaluation_summary: Some("Number".to_string()),
        green_tree_key: Some("green-1".to_string()),
        reused_green_tree: true,
    }
}

#[test]
fn explore_editor_cluster_keeps_editing_surface_fields() {
    let view_model = explore_view_model_with_selection(Some(0));

    let cluster = build_explore_editor_cluster(&view_model);
    assert_eq!(cluster.raw_entered_cell_text, "=SUM(1,2)");
    assert_eq!(cluster.editor_surface_state.caret.offset, 9);
    assert_eq!(cluster.syntax_runs.len(), 1);
    assert_eq!(cluster.diagnostics.len(), 1);
    assert_eq!(cluster.completion_items.len(), 1);
    assert_eq!(cluster.selected_completion_proposal_id.as_deref(), Some("proposal-1"));
    assert_eq!(cluster.completion_anchor_span, Some(FormulaTextSpan { start: 1, len: 3 }));
    assert_eq!(
        cluster.signature_help.as_ref().map(|help| help.active_argument_index),
        Some(1)
    );
    assert_eq!(cluster.function_help.as_ref().map(|help| help.display_name.as_str()), Some("SUM"));
    assert_eq!(cluster.function_help_lookup_key.as_deref(), Some("SUM"));
    assert!(cluster.reused_green_tree);
}

#[test]
fn explore_editor_cluster_selects_nothing_without_a_valid_index() {
    let none_selected = build_explore_editor_cluster(&explore_view_model_with_selection(None));
    assert_eq!(none_selected.selected_completion_proposal_id, None);
    assert_eq!(none_selected.completion_anchor_span, None);

    let out_of_range = build_explore_editor_cluster(&explore_view_model_with_selection(Some(1)));
    assert_eq!(out_of_range.selected_completion_proposal_id, None);
    assert_eq!(out_of_range.completion_anchor_span, None);
    assert_eq!(out_of_range.completion_count, 2);
}

#[test]
fn explore_result_cluster_keeps_result_surface_fields() {
    let view_model = ExploreViewModel {
        raw_entered_cell_text: "=SUM(1,2)".to_string(),
        editor_surface_state: EditorSurfaceState::for_text("=SUM(1,2)"),
        syntax_runs: vec![],
        diagnostics: vec![],
        completion_count: 0,
        completion_items: vec![],
        has_signature_help: false,
        signature_help: None,
        function_help: None,
        function_help_lookup_key: None,
        effective_display_summary: Some("3".to_string()),
        latest_evaluation_summary: Some("Number".to_string()),
        green_tree_key: None,
        reused_green_tree: false,
    };

    let cluster = build_explore_result_cluster(&view_model);
    assert_eq!(cluster.effective_display_summary.as_deref(), Some("3"));
    assert_eq!(cluster.latest_evaluation_summary.as_deref(), Some("Number"));
}

#[test]
fn inspect_walk_cluster_keeps_formula_walk_surface_fields() {
    let view_model = InspectViewModel {
        raw_entered_cell_text: "=LET(x,1,x)".to_string(),
        scenario_label: "let binding".to_string(),
        truth_source_label: "preview-backed".to_string(),
        host_profile_summary: "Windows desktop preview".to_string(),
        inspect_result_summary: Some("Number".to_string()),
        green_tree_key: Some("green-1".to_string()),
        formula_walk_nodes: vec![InspectFormulaWalkNodeView {
            node_id: "node-1".to_string(),
            label: "LET".to_string(),
            value_preview: Some("1".to_string()),
            state: FormulaWalkNodeState::Evaluated,
            children: vec![],
        }],
        parse_summary: Some(ParseSummary {
            status: "Valid".to_string(),
            token_count: 7,
        }),
        bind_summary: None,
        eval_summary: None,
        provenance_summary: None,
        packet_kind_summary: "preview edit packet".to_string(),
        capability_floor_summary: "Explore + Inspect".to_string(),
        mode_availability_summary: "Explore / Inspect / Workbench".to_string(),
        trace_summary: Some("Preview trace".to_string()),
        blocked_reason: None,
        retained_artifact_context: None,
    };

    let cluster = build_inspect_walk_cluster(&view_model);
    assert_eq!(cluster.truth_source_label, "preview-backed");
    assert_eq!(cluster.raw_entered_cell_text, "=LET(x,1,x)");
    assert_eq!(cluster.green_tree_key.as_deref(), Some("green-1"));
    assert_eq!(cluster.formula_walk_nodes.len(), 1);
}

#[test]
fn inspect_walk_cluster_copies_nested_walk_nodes() {
    let leaf = InspectFormulaWalkNodeView {
        node_id: "node-2".to_string(),
        label: "x".to_string(),
        value_preview: None,
        state: FormulaWalkNodeState::Bound,
        children: vec![],
    };
    let view_model = InspectViewModel {
        raw_entered_cell_text: "=LET(x,1,x)".to_string(),
        scenario_label: "let binding".to_string(),
        truth_source_label: "preview-backed".to_string(),
        host_profile_summary: "Windows desktop preview".to_string(),
        inspect_result_summary: None,
        green_tree_key: None,
        formula_walk_nodes: vec![InspectFormulaWalkNodeView {
            node_id: "node-1".to_string(),
            label: "LET".to_string(),
            value_preview: Some("1".to_string()),
            state: FormulaWalkNodeState::Evaluated,
            children: vec![leaf],
        }],
        parse_summary: None,
        bind_summary: None,
        eval_summary: None,
        provenance_summary: None,
        packet_kind_summary: "preview edit packet".to_string(),
        capability_floor_summary: "Explore + Inspect".to_string(),
        mode_availability_summary: "Explore / Inspect / Workbench".to_string(),
        trace_summary: None,
        blocked_reason: None,
        retained_artifact_context: None,
    };

    let cluster = build_inspect_walk_cluster(&view_model);
    assert_eq!(cluster.formula_walk_nodes, view_model.formula_walk_nodes);
    assert_eq!(cluster.formula_walk_nodes[0].children[0].node_id, "node-2");
    assert_eq!(cluster.formula_walk_nodes[0].children[0].state, FormulaWalkNodeState::Bound);
}

#[test]
fn inspect_summary_cluster_keeps_summary_surface_fields() {
    let view_model = InspectViewModel {
        raw_entered_cell_text: "=LET(x,1,x)".to_string(),
        scenario_label: "let binding".to_string(),
        truth_source_label: "preview-backed".to_string(),
        host_profile_summary: "Windows desktop preview".to_string(),
        inspect_result_summary: Some("Number".to_string()),
        green_tree_key: None,
        formula_walk_nodes: vec![],
        parse_summary: Some(ParseSummary {
            status: "Valid".to_string(),
            token_count: 7,
        }),
        bind_summary: Some(BindSummary {
            variable_count: 1,
            reference_count: 0,
        }),
        eval_summary: Some(EvalSummary {
            step_count: 2,
            duration_text: "1.2ms".to_string(),
        }),
        provenance_summary: Some(ProvenanceSummary {
            profile_summary: "OC-H0".to_string(),
            blocked_reason: None,
        }),
        packet_kind_summary: "preview edit packet".to_string(),
        capability_floor_summary: "Explore + Inspect".to_string(),
        mode_availability_summary: "Explore / Inspect / Workbench".to_string(),
        trace_summary: Some("Preview trace".to_string()),
        blocked_reason: None,
        retained_artifact_context: Some(InspectRetainedArtifactContextView {
            artifact_id: "artifact-1".to_string(),
            case_id: "case-1".to_string(),
            comparison_status: "blocked".to_string(),
            discrepancy_summary: Some("excel lane unavailable".to_string()),
            bundle_report_path: Some("target/onecalc-verification/example".to_string()),
            xml_source_summary: Some("Input @ Input!A1 | format $#,##0.00".to_string()),
            display_comparison_summary: Some("OxFml 6 vs Excel $6.00".to_string()),
            upstream_gap_summary: vec!["OxXlPlay missing: effective_display_text".to_string()],
        }),
    };

    let cluster = build_inspect_summary_cluster(&view_model);
    assert_eq!(cluster.packet_kind_summary, "preview edit packet");
    assert_eq!(
        cluster.parse_summary.as_ref().map(|x| x.token_count),
        Some(7)
    );
    assert_eq!(
        cluster.bind_summary.as_ref().map(|x| x.variable_count),
        Some(1)
    );
    assert_eq!(cluster.eval_summary.as_ref().map(|x| x.step_count), Some(2));
    assert_eq!(
        cluster
            .provenance_summary
            .as_ref()
            .map(|x| x.profile_summary.as_str()),
        Some("OC-H0")
    );
    assert_eq!(
        cluster
            .retained_artifact_context
            .as_ref()
            .map(|x| x.artifact_id.as_str()),
        Some("artifact-1")
    );
}

#[test]
fn workbench_clusters_split_outcome_and_evidence_fields() {
    let view_model = WorkbenchViewModel {
        raw_entered_cell_text: "=SUM(1,2)".to_string(),
        scenario_label: "mismatch case".to_string(),
        truth_source_label: "preview-backed".to_string(),
        host_profile_summary: "Windows desktop preview".to_string(),
        capability_floor_summary: "Workbench with retained artifacts".to_string(),
        outcome_summary: Some("Number".to_string()),
        evidence_summary: Some("green=green-1, diagnostics=1".to_string()),
        lineage_items: vec!["Scenario opened".to_string()],
        action_items: vec!["Retain snapshot".to_string()],
        recommended_action: "Retain and compare".to_string(),
        retained_artifact_id: Some("artifact-1".to_string()),
        retained_case_id: Some("case-1".to_string()),
        comparison_status_summary: Some("mismatched".to_string()),
        visible_output_match: Some(false),
        replay_equivalent: Some(false),
        retained_discrepancy_summary: Some("dna=1 excel=2".to_string()),
        trace_summary: Some("Preview trace".to_string()),
        imported_bundle_summary: Some("Imported bundle: target/example".to_string()),
        xml_source_summary: Some("Input @ Input!A1 | format $#,##0.00".to_string()),
        display_comparison_summary: Some(
            "Display divergence (effective_display_text): OxFml 6 vs Excel $6.00"
                .to_string(),
        ),
        upstream_gap_summary: vec![
            "Projection coverage gap (formatting_view): comparison view family `formatting_view` is missing on one side"
                .to_string(),
        ],
        comparison_records: vec![WorkbenchComparisonRecordView {
            mismatch_kind: "effective_display_text".to_string(),
            severity: "informational".to_string(),
            view_family: Some("effective_display_text".to_string()),
            family_label: "Effective display".to_string(),
            status_label: "Display divergence".to_string(),
            summary: "comparison view values diverged".to_string(),
            left_value_repr: Some("6".to_string()),
            right_value_repr: Some("$6.00".to_string()),
            detail: Some("comparison view values diverged".to_string()),
            is_projection_gap: false,
        }],
        explain_records: vec![WorkbenchExplainRecordView {
            query_id: Some("explain-01".to_string()),
            mismatch_kind: "effective_display_text".to_string(),
            severity: "informational".to_string(),
            view_family: Some("effective_display_text".to_string()),
            family_label: "Effective display".to_string(),
            summary: "comparison diverged on `effective_display_text`".to_string(),
            left_value_repr: Some("6".to_string()),
            right_value_repr: Some("$6.00".to_string()),
            detail: Some("comparison view values diverged".to_string()),
        }],
        retained_catalog_items: vec![WorkbenchRetainedCatalogItemView {
            artifact_id: "artifact-1".to_string(),
            case_id: "case-1".to_string(),
            comparison_status: "mismatched".to_string(),
            discrepancy_summary: Some("dna=1 excel=2".to_string()),
            xml_source_summary: Some("Input @ Input!A1".to_string()),
            is_open: true,
        }],
    };

    let outcome = build_workbench_outcome_cluster(&view_model);
    let evidence = build_workbench_evidence_cluster(&view_model);
    let lineage = build_workbench_lineage_cluster(&view_model);
    let actions = build_workbench_actions_cluster(&view_model);
    let catalog = build_workbench_catalog_cluster(&view_model);

    assert_eq!(outcome.truth_source_label, "preview-backed");
    assert_eq!(outcome.outcome_summary.as_deref(), Some("Number"));
    assert_eq!(outcome.recommended_action, "Retain and compare");
    assert_eq!(outcome.retained_artifact_id.as_deref(), Some("artifact-1"));
    assert_eq!(outcome.retained_case_id.as_deref(), Some("case-1"));
    assert_eq!(outcome.visible_output_match, Some(false));
    assert_eq!(evidence.raw_entered_cell_text, "=SUM(1,2)");
    assert_eq!(
        evidence.retained_discrepancy_summary.as_deref(),
        Some("dna=1 excel=2")
    );
    assert_eq!(evidence.trace_summary.as_deref(), Some("Preview trace"));
    assert_eq!(
        evidence.display_comparison_summary.as_deref(),
        Some("Display divergence (effective_display_text): OxFml 6 vs Excel $6.00")
    );
    assert_eq!(evidence.upstream_gap_summary.len(), 1);
    assert_eq!(evidence.comparison_records.len(), 1);
    assert_eq!(evidence.explain_records.len(), 1);
    assert_eq!(lineage.lineage_items.len(), 1);
    assert_eq!(actions.action_items.len(), 1);
    assert_eq!(catalog.retained_catalog_items.len(), 1);
    assert!(catalog.retained_catalog_items[0].is_open);
    assert_eq!(catalog.retained_catalog_items[0].case_id, "case-1");
    assert!(evidence
        .evidence_summary
        .as_deref()
        .is_some_and(|value| value.contains("green-1")));
}

#[test]
fn build_from_strings_classifies_number_summary() {
    let panel = build_value_panel_from_explore_strings(
        Some("Number"),
        Some("3"),
        Some("green-1"),
        EditorLiveState::EditingLive,
    );
    assert!(matches!(panel.value, ValuePanelValue::Number { .. }));
    assert_eq!(panel.effective_display_text.as_deref(), Some("3"));
    assert_eq!(panel.display_pipeline.len(), 5);
    assert_eq!(
        panel
            .provenance
            .as_ref()
            .and_then(|p| p.green_tree_key.clone()),
        Some("green-1".to_string())
    );
}

#[test]
fn build_from_strings_classifies_error_summary() {
    let panel = build_value_panel_from_explore_strings(
        Some("#DIV/0!"),
        None,
        None,
        EditorLiveState::Idle,
    );
    assert!(matches!(panel.value, ValuePanelValue::Error { .. }));
    assert!(panel.effective_display_text.is_none());
    let last = panel.display_pipeline.last().expect("effective step");
    assert_eq!(last.label, "effective");
    assert!(matches!(
        last.status,
        ValuePanelPipelineStepStatus::NotImplemented { .. }
    ));
}

#[test]
fn build_from_strings_falls_back_to_unevaluated_when_empty() {
    let panel = build_value_panel_from_explore_strings(None, None, None, EditorLiveState::Idle);
    assert!(matches!(panel.value, ValuePanelValue::Unevaluated));
    assert_eq!(panel.value.slug(), "unevaluated");
    assert_eq!(panel.value.header_label(), "Unevaluated");
}

#[test]
fn build_from_strings_reads_logical_text_and_array_summaries() {
    let truthy = build_value_panel_from_explore_strings(Some("  TRUE "), None, None, EditorLiveState::Idle);
    assert_eq!(truthy.value, ValuePanelValue::Logical(true));
    let logical = build_value_panel_from_explore_strings(Some("Logical"), None, None, EditorLiveState::Idle);
    assert_eq!(logical.value, ValuePanelValue::Logical(false));

    let text = build_value_panel_from_explore_strings(Some("hello 🙂"), None, None, EditorLiveState::Idle);
    match text.value {
        ValuePanelValue::Text { content, utf16_code_units, utf16_code_unit_limit, has_dangling_surrogate } => {
            assert_eq!(content, "hello 🙂");
            assert_eq!(utf16_code_units, 8);
            assert_eq!(utf16_code_unit_limit, 32_767);
            assert!(!has_dangling_surrogate);
        }
        other => panic!("expected text, got {:?}", other),
    }

    let array = build_value_panel_from_explore_strings(Some("Array 2x2"), None, None, EditorLiveState::Idle);
    assert_eq!(array.value.header_label(), "Array [0 × 0]");
    assert_eq!(array.value.slug(), "array");

    let blank = build_value_panel_from_explore_strings(Some("   "), None, None, EditorLiveState::Idle);
    assert_eq!(blank.value, ValuePanelValue::Unevaluated);
}

#[test]
fn build_from_strings_number_carries_summary_row_and_pipeline_labels() {
    let panel = build_value_panel_from_explore_strings(
        Some(" Number · 3 "),
        Some("3"),
        None,
        EditorLiveState::EditingLive,
    );
    match &panel.value {
        ValuePanelValue::Number { raw_bits, detail_rows } => {
            assert!(f64::from_bits(*raw_bits).is_nan());
            assert_eq!(detail_rows.len(), 1);
            assert_eq!(detail_rows[0].label, "summary");
            assert_eq!(detail_rows[0].value, "Number · 3");
        }
        other => panic!("expected number, got {:?}", other),
    }
    let labels: Vec<&str> = panel.display_pipeline.iter().map(|s| s.label.as_str()).collect();
    assert_eq!(labels, vec!["raw", "format code", "locale", "CF override", "effective"]);
    assert_eq!(panel.display_pipeline[0].value_preview.as_deref(), Some("Number"));
    assert_eq!(panel.display_pipeline[4].value_preview.as_deref(), Some("3"));
    assert_eq!(panel.display_pipeline[4].status, ValuePanelPipelineStepStatus::Live);
    assert_eq!(
        panel.display_pipeline[2].status,
        ValuePanelPipelineStepStatus::NotImplemented { seam_id: "SEAM-OXFUNC-LOCALE-EXPAND".to_string() }
    );
    assert!(panel.provenance.is_none());
    assert_eq!(panel.live_state, EditorLiveState::EditingLive);
}

#[test]
fn error_header_label_wraps_the_code() {
    let panel = build_value_panel_from_explore_strings(Some("#N/A"), None, None, EditorLiveState::Idle);
    assert_eq!(panel.value.header_label(), "Error (#N/A)");
    assert_eq!(panel.value.slug(), "error");
    assert_eq!(panel.display_pipeline[0].value_preview.as_deref(), Some("Error (#N/A)"));
}

#[test]
fn array_shape_cell_count_is_saturating() {
    let shape = ValuePanelArrayShape {
        rows: usize::MAX,
        cols: 2,
    };
    assert_eq!(shape.cell_count(), usize::MAX);
}

#[test]
fn array_shape_cell_count_multiplies_small_shapes() {
    assert_eq!(ValuePanelArrayShape { rows: 3, cols: 4 }.cell_count(), 12);
    assert_eq!(ValuePanelArrayShape { rows: 0, cols: 7 }.cell_count(), 0);
}

#[test]
fn reference_kind_labels_are_stable() {
    assert_eq!(ValuePanelReferenceKind::MultiArea.label(), "Multi-area");
    assert_eq!(ValuePanelReferenceKind::MultiArea.slug(), "multi-area");
}

#[test]
fn hint_and_surface_labels_are_stable() {
    assert_eq!(ValuePanelNumberFormatHint::DateLike.slug(), "date-like");
    assert_eq!(ValuePanelStyleHint::Hyperlink.label(), "Hyperlink");
    assert_eq!(ValuePanelErrorSurface::XllTransferable.slug(), "xll-transferable");
}
