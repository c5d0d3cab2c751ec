use dnaonecalc_host::adapters::{EditorSyntaxSnapshot, EditorToken, EditorTrivia, FormulaTextSpan};
use dnaonecalc_host::ui::editor::browser_measurement::{
    capture_overlay_measurement_event, measurement_event_with_metrics, textarea_measurement_metrics,
};
use dnaonecalc_host::ui::editor::commands::{
    apply_editor_command, keydown_to_command, EditorCommand,
};
use dnaonecalc_host::ui::editor::geometry::{
    derive_overlay_snapshot, offset_to_line_column, resolve_overlay_box, EditorLineColumn,
    EditorMeasuredOverlayBox, EditorOverlayMeasurement, EditorOverlayMeasurementSource,
    TextareaMeasurementMetrics,
};
use dnaonecalc_host::ui::editor::render_projection::{
    classify_token_role, syntax_runs_from_snapshot, syntax_runs_from_text, SyntaxRun, SyntaxTokenRole,
};
use dnaonecalc_host::ui::editor::state::{
    EditorCaret, EditorScrollWindow, EditorSelection, EditorSurfaceState,
};
use dnaonecalc_host::services::ExploreDiagnosticView;
use dnaonecalc_host::ui::components::formula_editor_surface::{
    build_overlay_measurement_event, formula_editor_surface_model,
};
use dnaonecalc_host::ui::editor::geometry::EditorOverlayGeometrySnapshot;
use dnaonecalc_host::ui::panels::explore::ExploreEditorClusterViewModel;

fn state_with(caret: usize, anchor: usize, focus: usize) -> EditorSurfaceState {
    EditorSurfaceState {
        caret: EditorCaret { offset: caret },
        selection: EditorSelection { anchor, focus },
        scroll_window: EditorScrollWindow { first_visible_line: 0, visible_line_count: 4 },
        completion_anchor_offset: None,
        signature_help_anchor_offset: None,
        completion_selected_index: None,
    }
}

fn token(text: &str, start: usize) -> EditorToken {
    EditorToken {
        text: text.to_string(),
        leading_trivia: Vec::new(),
        trailing_trivia: Vec::new(),
        span: FormulaTextSpan { start, len: text.chars().count() },
    }
}

fn trivia(text: &str) -> EditorTrivia {
    EditorTrivia { text: text.to_string() }
}

fn snapshot(tokens: Vec<EditorToken>) -> EditorSyntaxSnapshot {
    EditorSyntaxSnapshot { formula_stable_id: "f".to_string(), green_tree_key: "g".to_string(), tokens }
}

fn joined(runs: &[SyntaxRun]) -> String {
    runs.iter().map(|run| run.text.as_str()).collect()
}

// ---------------------------------------------------------------------------
// state
// ---------------------------------------------------------------------------

#[test]
fn editor_surface_state_defaults_to_end_of_text() {
    let state = EditorSurfaceState::for_text("=SUM(1,2)");
    assert_eq!(state.caret.offset, 9);
    assert!(state.selection.is_collapsed());
    assert_eq!(state.scroll_window.first_visible_line, 0);
    assert!(state.completion_anchor_offset.is_none());
    assert!(state.signature_help_anchor_offset.is_none());
}

#[test]
fn editor_surface_state_can_preserve_explicit_selection() {
    let state = EditorSurfaceState::for_text_with_selection("=SUM(1,2)", 2, 5);
    assert_eq!(state.selection.anchor, 2);
    assert_eq!(state.selection.focus, 5);
    assert_eq!(state.caret.offset, 5);
    assert!(state.completion_anchor_offset.is_none());
    assert!(state.signature_help_anchor_offset.is_none());
}

#[test]
fn surface_state_clamps_selection_and_counts_visible_lines() {
    let state = EditorSurfaceState::for_text_with_selection("a\nb\n", 40, 1);
    assert_eq!(state.selection.anchor, 4);
    assert_eq!(state.selection.focus, 1);
    assert_eq!(state.caret.offset, 1);
    // `lines` yields two lines: a final line ending adds none.
    assert_eq!(state.scroll_window.visible_line_count, 2);
    assert_eq!(EditorSurfaceState::for_text("").scroll_window.visible_line_count, 1);
    let many = "x\n".repeat(30);
    assert_eq!(EditorSurfaceState::for_text(&many).scroll_window.visible_line_count, 12);
}

#[test]
fn selection_start_and_end_order_anchor_and_focus() {
    let selection = EditorSelection { anchor: 7, focus: 2 };
    assert_eq!(selection.start(), 2);
    assert_eq!(selection.end(), 7);
    assert!(!selection.is_collapsed());
    assert!(EditorSelection::collapsed(3).is_collapsed());
}

#[test]
fn state_counts_chars_not_bytes() {
    let state = EditorSurfaceState::for_text("=\"é€\"");
    assert_eq!(state.caret.offset, 5);
}

// ---------------------------------------------------------------------------
// commands
// ---------------------------------------------------------------------------

#[test]
fn move_caret_commands_stay_in_bounds() {
    let text = "=SUM(1,2)";
    let state = state_with(1, 1, 1);

    let moved_left = apply_editor_command(text, &state, EditorCommand::MoveCaretLeft);
    assert_eq!(moved_left.state.caret.offset, 0);

    let moved_right = apply_editor_command(text, &moved_left.state, EditorCommand::MoveCaretRight);
    assert_eq!(moved_right.state.caret.offset, 1);
}

#[test]
fn caret_moves_clamp_at_both_ends() {
    let text = "ab";
    let at_start = apply_editor_command(text, &state_with(0, 0, 0), EditorCommand::MoveCaretLeft);
    assert_eq!(at_start.state.caret.offset, 0);
    let at_end = apply_editor_command(text, &state_with(2, 2, 2), EditorCommand::MoveCaretRight);
    assert_eq!(at_end.state.caret.offset, 2);
    assert_eq!(at_end.state.selection, EditorSelection::collapsed(2));
    assert_eq!(at_end.text, "ab");
}

#[test]
fn indent_with_spaces_inserts_four_spaces_on_selected_lines() {
    let text = "SUM(\n1,\n2)";
    let state = state_with(3, 0, text.chars().count());

    let result = apply_editor_command(text, &state, EditorCommand::IndentWithSpaces);
    assert!(result.text.starts_with("    SUM("));
    assert!(result.text.contains("\n    1,"));
    assert!(result.text.contains("\n    2)"));
}

#[test]
fn indent_shifts_offsets_by_lines_before_them() {
    let text = "SUM(\n1,\n2)";
    let state = state_with(3, 0, 10);
    let result = apply_editor_command(text, &state, EditorCommand::IndentWithSpaces);
    assert_eq!(result.text, "    SUM(\n    1,\n    2)");
    assert_eq!(result.state.caret.offset, 7);
    assert_eq!(result.state.selection.anchor, 4);
    assert_eq!(result.state.selection.focus, 22);
}

#[test]
fn indent_touches_only_the_selected_lines() {
    let text = "a\nb\nc";
    let state = state_with(2, 2, 3);
    let result = apply_editor_command(text, &state, EditorCommand::IndentWithSpaces);
    assert_eq!(result.text, "a\n    b\nc");
    assert_eq!(result.state.caret.offset, 6);
}

#[test]
fn indent_after_final_line_break_indents_the_empty_last_line() {
    let text = "a\n";
    let state = state_with(2, 2, 2);
    let result = apply_editor_command(text, &state, EditorCommand::IndentWithSpaces);
    assert_eq!(result.text, "a\n    ");
    assert_eq!(result.state.caret.offset, 6);
}

#[test]
fn outdent_with_spaces_removes_up_to_four_spaces_per_line() {
    let text = "    SUM(\n    1,\n    2)";
    let state = state_with(4, 0, text.chars().count());

    let result = apply_editor_command(text, &state, EditorCommand::OutdentWithSpaces);
    assert!(result.text.starts_with("SUM("));
    assert!(result.text.contains("\n1,"));
    assert!(result.text.contains("\n2)"));
}

#[test]
fn outdent_removes_at_most_four_and_only_spaces() {
    let text = "      x\n  y\nz";
    let state = state_with(13, 0, 13);
    let result = apply_editor_command(text, &state, EditorCommand::OutdentWithSpaces);
    assert_eq!(result.text, "  x\ny\nz");
    assert_eq!(result.state.caret.offset, 7);
    assert_eq!(result.state.selection.anchor, 0);
    assert_eq!(result.state.selection.focus, 7);
}

#[test]
fn outdent_inside_the_leading_spaces_moves_caret_to_line_start() {
    let text = "    x";
    let state = state_with(2, 2, 2);
    let result = apply_editor_command(text, &state, EditorCommand::OutdentWithSpaces);
    assert_eq!(result.text, "x");
    assert_eq!(result.state.caret.offset, 0);
}

#[test]
fn outdent_undoes_indent_on_concrete_text() {
    let text = "=LET(\n  x, 1,\n\tx)";
    let state = state_with(9, 7, 14);
    let indented = apply_editor_command(text, &state, EditorCommand::IndentWithSpaces);
    let back = apply_editor_command(&indented.text, &indented.state, EditorCommand::OutdentWithSpaces);
    assert_eq!(back.text, text);
    assert_eq!(back.state, state);
}

#[test]
fn every_command_keeps_offsets_within_the_text() {
    let texts = ["", "=SUM(1,2)", "  a\n      b\n c", "x\n\n    ", "é\n  €"];
    let commands = [
        EditorCommand::MoveCaretLeft,
        EditorCommand::MoveCaretRight,
        EditorCommand::IndentWithSpaces,
        EditorCommand::OutdentWithSpaces,
    ];
    for text in texts {
        let len = text.chars().count();
        for caret in 0..=len {
            for anchor in 0..=len {
                let state = state_with(caret, anchor, caret);
                for command in commands {
                    let result = apply_editor_command(text, &state, command);
                    let new_len = result.text.chars().count();
                    assert!(result.state.caret.offset <= new_len, "{text:?} {caret} {anchor} {command:?}");
                    assert!(result.state.selection.anchor <= new_len);
                    assert!(result.state.selection.focus <= new_len);
                }
            }
        }
    }
}

#[test]
fn indent_handles_non_ascii_text() {
    let text = "é\n€";
    let state = state_with(3, 0, 3);
    let result = apply_editor_command(text, &state, EditorCommand::IndentWithSpaces);
    assert_eq!(result.text, "    é\n    €");
    assert_eq!(result.state.caret.offset, 11);
}

#[test]
fn keydown_mapping_recognizes_tab_and_arrow_commands() {
    assert_eq!(keydown_to_command("ArrowLeft", false), Some(EditorCommand::MoveCaretLeft));
    assert_eq!(keydown_to_command("ArrowRight", false), Some(EditorCommand::MoveCaretRight));
    assert_eq!(keydown_to_command("Tab", false), Some(EditorCommand::IndentWithSpaces));
    assert_eq!(keydown_to_command("Tab", true), Some(EditorCommand::OutdentWithSpaces));
}

#[test]
fn keydown_mapping_ignores_other_keys() {
    assert_eq!(keydown_to_command("ArrowLeft", true), None);
    assert_eq!(keydown_to_command("ArrowRight", true), None);
    assert_eq!(keydown_to_command("Enter", false), None);
    assert_eq!(keydown_to_command("tab", false), None);
}

// ---------------------------------------------------------------------------
// geometry
// ---------------------------------------------------------------------------

#[test]
fn offset_to_line_column_tracks_multiline_positions() {
    let text = "=LET(\n  x, 1,\n  x)";
    assert_eq!(offset_to_line_column(text, 0), EditorLineColumn { line_index: 0, column_index: 0 });
    assert_eq!(offset_to_line_column(text, 6), EditorLineColumn { line_index: 1, column_index: 0 });
    assert_eq!(
        offset_to_line_column(text, text.chars().count()),
        EditorLineColumn { line_index: 2, column_index: 4 }
    );
}

#[test]
fn offset_past_end_lands_after_last_char() {
    let text = "ab\ncd";
    assert_eq!(offset_to_line_column(text, 99), EditorLineColumn { line_index: 1, column_index: 2 });
}

#[test]
fn derived_grid_span_box_produces_line_and_pixel_geometry() {
    let measurement = EditorOverlayMeasurement::derived_grid();
    let text = "=SUM(\n  1,\n  2)";
    let span_box = measurement.span_box(text, FormulaTextSpan { start: 6, len: 2 });

    assert_eq!(span_box.start.line_index, 1);
    assert_eq!(span_box.start.column_index, 0);
    assert_eq!(span_box.top_px, 22);
    assert_eq!(span_box.left_px, 0);
    assert_eq!(span_box.height_px, 22);
    assert_eq!(span_box.width_px, 16);
}

#[test]
fn multi_line_span_box_is_one_column_wide_and_spans_lines() {
    let measurement = EditorOverlayMeasurement::derived_grid();
    let text = "=SUM(\n  1,\n  2)";
    let span_box = measurement.span_box(text, FormulaTextSpan { start: 1, len: 10 });
    assert_eq!(span_box.end.line_index, 2);
    assert_eq!(span_box.width_px, 8);
    assert_eq!(span_box.height_px, 66);
}

#[test]
fn measured_box_is_preferred_over_derived_geometry() {
    let derived_box = EditorOverlayMeasurement::derived_grid().offset_box("=SUM(1,2)", 4);
    let (source, resolved_box) = resolve_overlay_box(
        Some(EditorMeasuredOverlayBox {
            top_px: 120,
            left_px: 48,
            width_px: 14,
            height_px: 20,
            line_index: 3,
            column_index: 6,
        }),
        derived_box,
    );

    assert_eq!(source, EditorOverlayMeasurementSource::DomMeasured);
    assert_eq!(resolved_box.top_px, 120);
    assert_eq!(resolved_box.left_px, 48);
    assert_eq!(resolved_box.start.line_index, 3);
    assert_eq!(resolved_box.start.column_index, 6);
}

#[test]
fn derived_box_is_used_without_measurement() {
    let derived_box = EditorOverlayMeasurement::derived_grid().offset_box("=SUM(1,2)", 4);
    assert_eq!(derived_box.left_px, 32);
    assert_eq!(derived_box.width_px, 8);
    let (source, resolved_box) = resolve_overlay_box(None, derived_box);
    assert_eq!(source, EditorOverlayMeasurementSource::DerivedGrid);
    assert_eq!(resolved_box, derived_box);
}

#[test]
fn derived_snapshot_boxes_caret_and_selection() {
    let snapshot = derive_overlay_snapshot("ab\ncd", 4, FormulaTextSpan { start: 0, len: 0 }, None, Some(FormulaTextSpan { start: 3, len: 50 }));
    let caret = snapshot.caret_box.unwrap();
    assert_eq!((caret.line_index, caret.column_index, caret.top_px, caret.left_px), (1, 1, 22, 8));
    assert!(snapshot.selection_box.is_none());
    assert!(snapshot.completion_anchor_box.is_none());
    let help = snapshot.signature_help_anchor_box.unwrap();
    assert_eq!((help.top_px, help.left_px, help.width_px, help.height_px), (22, 0, 16, 22));
}

#[test]
fn textarea_metrics_divide_client_size_by_grid() {
    let metrics = textarea_measurement_metrics(4, 20, 100, 170, -3, 12);
    assert_eq!(metrics.char_width_px, 8);
    assert_eq!(metrics.line_height_px, 25);
    assert_eq!(metrics.scroll_top_px, 0);
    assert_eq!(metrics.scroll_left_px, 12);
    let degenerate = textarea_measurement_metrics(0, 0, 0, 0, 0, 0);
    assert_eq!((degenerate.char_width_px, degenerate.line_height_px), (1, 1));
}

fn cluster_for(text: &str, state: EditorSurfaceState) -> ExploreEditorClusterViewModel {
    ExploreEditorClusterViewModel {
        raw_entered_cell_text: text.to_string(),
        editor_surface_state: state,
        syntax_runs: Vec::new(),
        diagnostics: Vec::new(),
        completion_count: 0,
        completion_items: Vec::new(),
        selected_completion_proposal_id: None,
        completion_anchor_span: None,
        has_signature_help: false,
        signature_help: None,
        function_help: None,
        function_help_lookup_key: None,
        green_tree_key: None,
        reused_green_tree: false,
    }
}

#[test]
fn capture_measures_the_selection_of_the_editor() {
    let editor = cluster_for("=SUM(1,2)", state_with(5, 5, 1));
    let event = capture_overlay_measurement_event(&(), &editor);
    let selection = event.snapshot.selection_box.unwrap();
    assert_eq!((selection.left_px, selection.width_px), (8, 32));
    assert_eq!(event.snapshot.caret_box.unwrap().left_px, 40);
}

#[test]
fn surface_event_places_anchors_on_the_derived_grid() {
    let mut editor = cluster_for("=SUM(\n1,2)", state_with(6, 6, 6));
    editor.completion_anchor_span = Some(FormulaTextSpan { start: 1, len: 3 });
    let event = build_overlay_measurement_event(&editor);
    assert!(event.snapshot.selection_box.is_none());
    let caret = event.snapshot.caret_box.unwrap();
    assert_eq!((caret.line_index, caret.column_index, caret.top_px, caret.left_px), (1, 0, 22, 0));
    let anchor = event.snapshot.completion_anchor_box.unwrap();
    assert_eq!((anchor.left_px, anchor.width_px, anchor.height_px), (8, 24, 22));
    assert!(event.snapshot.signature_help_anchor_box.is_none());
    assert_eq!(event, capture_overlay_measurement_event(&(), &editor));
}

#[test]
fn measured_grid_shifts_boxes_by_scroll() {
    let editor = cluster_for("ab\ncd", state_with(4, 4, 4));
    let metrics = TextareaMeasurementMetrics { char_width_px: 10, line_height_px: 20, scroll_top_px: 5, scroll_left_px: 50 };
    let event = measurement_event_with_metrics(&editor, metrics);
    let caret = event.snapshot.caret_box.unwrap();
    assert_eq!((caret.top_px, caret.left_px), (15, 0));
}

// ---------------------------------------------------------------------------
// render projection
// ---------------------------------------------------------------------------

#[test]
fn syntax_runs_follow_snapshot_tokens() {
    let snapshot = snapshot(vec![token("=", 0), token("SUM", 1)]);

    let runs = syntax_runs_from_snapshot(&snapshot, "=SUM");
    assert_eq!(runs.len(), 2);
    assert_eq!(runs[1].text, "SUM");
    assert_eq!(runs[1].span_start, 1);
    assert_eq!(runs[0].role, SyntaxTokenRole::Operator);
    assert_eq!(runs[1].role, SyntaxTokenRole::Function);
}

#[test]
fn syntax_runs_preserve_inter_token_whitespace_trivia() {
    let mut sum = token("SUM", 2);
    sum.leading_trivia = vec![trivia(" ")];
    let snapshot = snapshot(vec![token("=", 0), sum]);

    let runs = syntax_runs_from_snapshot(&snapshot, "= SUM");
    let total_text = joined(&runs);
    assert_eq!(total_text, "= SUM", "concatenated run text must equal the textarea value (5 chars)",);
    assert_eq!(runs.len(), 3);
    assert_eq!(runs[0].role, SyntaxTokenRole::Operator);
    assert_eq!(runs[1].role, SyntaxTokenRole::Trivia);
    assert_eq!(runs[1].text, " ");
    assert_eq!(runs[1].span_start, 1);
    assert_eq!(runs[1].span_len, 1);
    assert_eq!(runs[2].role, SyntaxTokenRole::Function);
    assert_eq!(runs[2].span_start, 2);
}

#[test]
fn syntax_runs_preserve_leading_trivia_at_start_of_input() {
    let mut equals = token("=", 2);
    equals.leading_trivia = vec![trivia("  ")];
    let snapshot = snapshot(vec![equals]);
    let runs = syntax_runs_from_snapshot(&snapshot, "  =");
    let total_text = joined(&runs);
    assert_eq!(total_text, "  =");
    assert_eq!(runs.len(), 2);
    assert_eq!(runs[0].role, SyntaxTokenRole::Trivia);
    assert_eq!(runs[0].text, "  ");
    assert_eq!(runs[1].role, SyntaxTokenRole::Operator);
}

#[test]
fn syntax_runs_fill_tail_when_snapshot_drops_trailing_chars() {
    let mut equals = token("=", 1);
    equals.leading_trivia = vec![trivia("\n")];
    let snapshot = snapshot(vec![equals]);
    let runs = syntax_runs_from_snapshot(&snapshot, "\n=aaa");
    let total_text = joined(&runs);
    assert_eq!(
        total_text, "\n=aaa",
        "concatenated runs must cover the full source text even when the snapshot's tokens don't",
    );
    assert_eq!(runs.len(), 3);
    assert_eq!(runs[0].role, SyntaxTokenRole::Trivia);
    assert_eq!(runs[0].text, "\n");
    assert_eq!(runs[1].role, SyntaxTokenRole::Operator);
    assert_eq!(runs[1].text, "=");
    assert_eq!(runs[2].role, SyntaxTokenRole::Text);
    assert_eq!(runs[2].text, "aaa");
    assert_eq!(runs[2].span_start, 2);
    assert_eq!(runs[2].span_len, 3);
}

#[test]
fn syntax_runs_fill_gap_between_non_contiguous_tokens() {
    let snapshot = snapshot(vec![token("=", 0), token("X", 4)]);
    let runs = syntax_runs_from_snapshot(&snapshot, "=ZZZX");
    let total_text = joined(&runs);
    assert_eq!(total_text, "=ZZZX");
    assert_eq!(runs.len(), 3);
    assert_eq!(runs[1].role, SyntaxTokenRole::Text);
    assert_eq!(runs[1].text, "ZZZ");
    assert_eq!(runs[1].span_start, 1);
}

#[test]
fn syntax_runs_keep_trailing_trivia_of_last_token_only() {
    let mut first = token("=", 0);
    first.trailing_trivia = vec![trivia(" ")];
    let mut second = token("A1", 2);
    second.leading_trivia = vec![trivia(" ")];
    second.trailing_trivia = vec![trivia(""), trivia("  ")];
    let snapshot = snapshot(vec![first, second]);
    let runs = syntax_runs_from_snapshot(&snapshot, "= A1  ");
    assert_eq!(joined(&runs), "= A1  ");
    assert_eq!(runs.len(), 4);
    assert_eq!(runs[2].role, SyntaxTokenRole::Identifier);
    assert_eq!(runs[3].span_start, 4);
}

#[test]
fn empty_snapshot_renders_source_as_text() {
    let runs = syntax_runs_from_snapshot(&snapshot(vec![]), "=1+");
    assert_eq!(runs.len(), 1);
    assert_eq!(runs[0].role, SyntaxTokenRole::Text);
    assert_eq!(runs[0].text, "=1+");
    assert!(syntax_runs_from_snapshot(&snapshot(vec![]), "").is_empty());
}

#[test]
fn syntax_runs_from_text_splits_formula_like_input() {
    let runs = syntax_runs_from_text("=LET(x,1,x)");
    assert_eq!(runs.len(), 9);
    assert_eq!(runs[1].text, "LET");
    assert_eq!(runs[1].role, SyntaxTokenRole::Function);
    assert_eq!(runs[3].role, SyntaxTokenRole::Identifier);
}

#[test]
fn syntax_runs_from_text_drops_only_whitespace() {
    let text = "= SUM( 1.5 ,\tA_1 )";
    let runs = syntax_runs_from_text(text);
    let kept: String = text.chars().filter(|c| !c.is_whitespace()).collect();
    assert_eq!(joined(&runs), kept);
    let roles: Vec<SyntaxTokenRole> = runs.iter().map(|run| run.role).collect();
    assert_eq!(
        roles,
        vec![
            SyntaxTokenRole::Operator,
            SyntaxTokenRole::Function,
            SyntaxTokenRole::Delimiter,
            SyntaxTokenRole::Number,
            SyntaxTokenRole::Delimiter,
            SyntaxTokenRole::Identifier,
            SyntaxTokenRole::Delimiter,
        ]
    );
    for run in &runs {
        let slice: String = text.chars().skip(run.span_start).take(run.span_len).collect();
        assert_eq!(slice, run.text);
    }
}

#[test]
fn token_roles_follow_their_chars() {
    assert_eq!(classify_token_role("="), SyntaxTokenRole::Operator);
    assert_eq!(classify_token_role(","), SyntaxTokenRole::Delimiter);
    assert_eq!(classify_token_role("12.5"), SyntaxTokenRole::Number);
    assert_eq!(classify_token_role("SUM_X"), SyntaxTokenRole::Function);
    assert_eq!(classify_token_role("Sheet1.A1"), SyntaxTokenRole::Identifier);
    assert_eq!(classify_token_role("\"hi\""), SyntaxTokenRole::Text);
    assert_eq!(classify_token_role(""), SyntaxTokenRole::Text);
    assert_eq!(classify_token_role("=="), SyntaxTokenRole::Text);
}

#[test]
fn whitespace_follows_unicode_white_space() {
    let runs = syntax_runs_from_text("A\u{00A0}B\u{3000}C\u{200B}D");
    // U+200B is not White_Space, so it joins the word around it.
    let texts: Vec<&str> = runs.iter().map(|run| run.text.as_str()).collect();
    assert_eq!(texts, vec!["A", "B", "C\u{200B}D"]);
}

#[test]
fn syntax_runs_skip_zero_width_tokens() {
    let empty = token("", 1);
    let snapshot = snapshot(vec![token("=", 0), empty, token("A1", 1)]);
    let runs = syntax_runs_from_snapshot(&snapshot, "=A1");
    assert_eq!(joined(&runs), "=A1");
    assert_eq!(runs.len(), 2);
    assert!(runs.iter().all(|r| r.span_len >= 1 && !r.text.is_empty()));

    let mut no_span = token("X", 3);
    no_span.span.len = 0;
    let runs = syntax_runs_from_snapshot(&snapshot_with(no_span), "=A1");
    assert!(runs.iter().all(|r| r.span_len >= 1 && !r.text.is_empty()));
}

fn snapshot_with(tok: EditorToken) -> EditorSyntaxSnapshot {
    snapshot(vec![token("=", 0), tok])
}

#[test]
fn surface_model_uses_derived_boxes_without_measurement() {
    let mut editor = cluster_for("=SUM(\n1,2)", state_with(6, 1, 4));
    editor.syntax_runs = syntax_runs_from_text("=SUM(\n1,2)");
    let model = formula_editor_surface_model(&editor, None);
    assert_eq!(model.line_count, 2);
    assert_eq!(model.token_count, editor.syntax_runs.len());
    assert_eq!(model.function_count, 1);
    assert_eq!(model.toolbar_state, "Clean");
    assert_eq!(model.diagnostics_text, "No diagnostics");
    assert_eq!(model.diagnostics_state_label, "Ready to evaluate");
    assert_eq!((model.selection_start, model.selection_end, model.selection_label), (1, 4, "range"));
    assert_eq!(model.caret_source, EditorOverlayMeasurementSource::DerivedGrid);
    assert_eq!((model.caret_box.top_px, model.caret_box.left_px), (22, 0));
    assert_eq!((model.selection_box.left_px, model.selection_box.width_px), (8, 24));
    assert_eq!(model.measurement_source, "derived-grid");
}

#[test]
fn surface_model_prefers_measured_boxes_and_reports_mixed() {
    let mut editor = cluster_for("", state_with(0, 0, 0));
    editor.diagnostics = vec![
        ExploreDiagnosticView { diagnostic_id: "d1".to_string(), message: "bad".to_string(), span_start: 0, span_len: 0 },
        ExploreDiagnosticView { diagnostic_id: "d2".to_string(), message: "worse".to_string(), span_start: 0, span_len: 0 },
    ];
    let measured = EditorMeasuredOverlayBox { top_px: 5, left_px: 7, width_px: 9, height_px: 11, line_index: 0, column_index: 3 };
    let geometry = EditorOverlayGeometrySnapshot {
        caret_box: Some(measured),
        selection_box: None,
        completion_anchor_box: None,
        signature_help_anchor_box: None,
    };
    let model = formula_editor_surface_model(&editor, Some(geometry));
    assert_eq!(model.line_count, 1);
    assert_eq!(model.toolbar_state, "Review");
    assert_eq!(model.diagnostics_text, "d1: bad | d2: worse");
    assert_eq!(model.diagnostics_state_label, "2 diagnostic(s) need review");
    assert_eq!(model.selection_label, "collapsed");
    assert_eq!(model.caret_source, EditorOverlayMeasurementSource::DomMeasured);
    assert_eq!((model.caret_box.left_px, model.caret_box.start.column_index), (7, 3));
    assert_eq!(model.selection_source, EditorOverlayMeasurementSource::DerivedGrid);
    assert_eq!(model.measurement_source, "mixed");
    let empty = EditorOverlayGeometrySnapshot {
        caret_box: None,
        selection_box: None,
        completion_anchor_box: None,
        signature_help_anchor_box: None,
    };
    assert_eq!(formula_editor_surface_model(&editor, Some(empty)).measurement_source, "derived-grid");
}
