use dnaonecalc_host::adapters::{FormulaTextSpan, FormulaWalkNodeState};
use dnaonecalc_host::ui::components::explore_shell::split_signature;
use dnaonecalc_host::ui::components::formula_editor_surface::{
    inline_diagnostic_excerpt, measurement_source_label, overlay_popup_style,
};
use dnaonecalc_host::ui::components::home_shell::{
    column_index_to_a1_label, display_kind_attr, formula_drill_state_label, formula_drill_state_slug, icon_glyph_for,
    is_bracket_token, is_caret_navigation_key, is_open_bracket_text, normalize_color_for_input,
    role_class, role_slug, short_green_tree_key, splice_textarea_value, threshold_from_kind_and_value,
    threshold_kind_label, threshold_numeric_value, truncate_for_drill, ResultKind,
    caret_sync_event, completion_acceptance_event, home_shell_key_action, host_cf_rule_from_view,
    remove_color_scale_stop, seed_visualization_rule_defaults, shell_key_action,
    update_color_scale_stop, HomeShellKeyAction, FIFTY_PERCENTILE_BITS,
};
use dnaonecalc_host::services::{
    CompletionAcceptance, ConditionalFormattingRuleView, ProgrammaticComparisonStatus,
};
use dnaonecalc_host::state::{
    FormulaAverageRuleOptions, FormulaColorScaleRuleOptions, FormulaColorScaleStop,
    FormulaConditionalFormattingRank, FormulaConditionalFormattingRule,
    FormulaConditionalFormattingThreshold, FormulaConditionalFormattingTypedRule,
    FormulaRankRuleOptions,
};
use dnaonecalc_host::ui::components::inspect_shell::{
    bind_summary_text, blocked_reason_text, eval_summary_text, green_tree_text, or_unavailable,
    parse_status_text, provenance_summary_text, walk_node_state_label,
};
use dnaonecalc_host::services::{BindSummary, EvalSummary, ParseSummary, ProvenanceSummary};
use dnaonecalc_host::ui::components::shell_frame::{
    rail_row_action, rail_row_button_role, rail_row_meta_summary, rail_row_state, RailRowAction,
};
use dnaonecalc_host::ui::components::workbench_shell::{
    manual_import_request, verification_bundle_import_request,
};
use dnaonecalc_host::ui::editor::commands::EditorInputKind;
use dnaonecalc_host::ui::components::shell_frame::{encode_data_uri_payload, verdict_slug};
use dnaonecalc_host::ui::components::workbench_shell::comparison_badge_text;
use dnaonecalc_host::ui::editor::geometry::{
    EditorLineColumn, EditorOverlayBox, EditorOverlayMeasurementSource,
};
use dnaonecalc_host::ui::editor::render_projection::SyntaxTokenRole;

#[test]
fn short_green_tree_key_strips_prefix_and_trims_long_keys() {
    let key = "green:a3f91eabc1234";
    assert_eq!(short_green_tree_key(key), "a3f91e…");
}

#[test]
fn short_green_tree_key_passes_short_keys_through() {
    assert_eq!(short_green_tree_key("green:abc123"), "abc123");
    assert_eq!(short_green_tree_key("abc123"), "abc123");
    assert_eq!(short_green_tree_key(""), "");
}

#[test]
fn short_green_tree_key_handles_non_prefixed_keys() {
    let key = "abcdefghijklmnop";
    assert_eq!(short_green_tree_key(key), "abcdef…");
}

#[test]
fn short_green_tree_key_keeps_seven_char_bodies_whole() {
    assert_eq!(short_green_tree_key("green:abcdefg"), "abcdefg");
    assert_eq!(short_green_tree_key("green:abcdefgh"), "abcdef…");
}

#[test]
fn column_labels_follow_a1_convention() {
    assert_eq!(column_index_to_a1_label(0), "A");
    assert_eq!(column_index_to_a1_label(25), "Z");
    assert_eq!(column_index_to_a1_label(26), "AA");
    assert_eq!(column_index_to_a1_label(27), "AB");
    assert_eq!(column_index_to_a1_label(51), "AZ");
    assert_eq!(column_index_to_a1_label(52), "BA");
    assert_eq!(column_index_to_a1_label(701), "ZZ");
    assert_eq!(column_index_to_a1_label(702), "AAA");
    assert_eq!(column_index_to_a1_label(16383), "XFD");
}

#[test]
fn column_labels_are_distinct() {
    let mut seen = std::collections::HashSet::new();
    for index in 0..20_000usize {
        assert!(seen.insert(column_index_to_a1_label(index)), "{index}");
    }
}

#[test]
fn caret_navigation_keys_are_recognized() {
    for key in ["ArrowLeft", "ArrowRight", "ArrowUp", "ArrowDown", "Home", "End", "PageUp", "PageDown"] {
        assert!(is_caret_navigation_key(key), "{key}");
    }
    assert!(!is_caret_navigation_key("a"));
    assert!(!is_caret_navigation_key("Tab"));
    assert!(!is_caret_navigation_key("arrowleft"));
}

#[test]
fn splice_replaces_span_on_char_boundaries() {
    assert_eq!(
        splice_textarea_value("=SU", Some(FormulaTextSpan { start: 1, len: 2 }), "SUM("),
        "=SUM("
    );
    assert_eq!(
        splice_textarea_value("=é+SU", Some(FormulaTextSpan { start: 3, len: 2 }), "SUM("),
        "=é+SUM("
    );
    assert_eq!(splice_textarea_value("=1+", None, "SUM("), "=1+SUM(");
    assert_eq!(
        splice_textarea_value("=ab", Some(FormulaTextSpan { start: 10, len: 5 }), "X"),
        "=abX"
    );
    assert_eq!(
        splice_textarea_value("=abcd", Some(FormulaTextSpan { start: 2, len: usize::MAX }), "X"),
        "=aX"
    );
}

#[test]
fn color_input_defaults_to_black() {
    assert_eq!(normalize_color_for_input(""), "#000000");
    assert_eq!(normalize_color_for_input("#ff0000"), "#ff0000");
}

#[test]
fn drill_values_are_cut_at_thirty_two_chars() {
    let short = "x".repeat(32);
    assert_eq!(truncate_for_drill(short.clone()), short);
    let long = "y".repeat(40);
    assert_eq!(truncate_for_drill(long), format!("{}…", "y".repeat(32)));
}

#[test]
fn drill_state_slugs_and_labels() {
    assert_eq!(formula_drill_state_slug(FormulaWalkNodeState::Evaluated), "evaluated");
    assert_eq!(formula_drill_state_slug(FormulaWalkNodeState::Blocked), "blocked");
    assert_eq!(formula_drill_state_label(FormulaWalkNodeState::Bound), "bound");
    assert_eq!(formula_drill_state_label(FormulaWalkNodeState::Opaque), "opaque");
}

#[test]
fn syntax_role_classes_and_slugs() {
    assert_eq!(role_class(SyntaxTokenRole::Function), "syn-fn");
    assert_eq!(role_class(SyntaxTokenRole::Trivia), "syn-trivia");
    assert_eq!(role_slug(SyntaxTokenRole::Delimiter), "delimiter");
    assert_eq!(role_slug(SyntaxTokenRole::Identifier), "identifier");
}

#[test]
fn bracket_tokens_are_recognized() {
    for t in ["(", ")", "[", "]", "{", "}"] {
        assert!(is_bracket_token(t));
    }
    assert!(!is_bracket_token("(("));
    assert!(!is_bracket_token(","));
    assert!(is_open_bracket_text("("));
    assert!(is_open_bracket_text("{"));
    assert!(!is_open_bracket_text(")"));
}

#[test]
fn icon_glyphs_follow_the_icon_set() {
    assert_eq!(icon_glyph_for("3Arrows", 2), ("3Arrows".to_string(), "↑".to_string()));
    assert_eq!(icon_glyph_for("5Quarters", 0), ("5Quarters".to_string(), "○".to_string()));
    assert_eq!(icon_glyph_for("3Arrows", 7), ("3Arrows".to_string(), "•".to_string()));
    assert_eq!(icon_glyph_for("Unknown", 0), ("Unknown".to_string(), "•".to_string()));
    assert_eq!(icon_glyph_for("4Rating", 3), ("4Rating".to_string(), "▇".to_string()));
}

#[test]
fn split_signature_separates_prefix_arguments_and_suffix() {
    let (prefix, args, suffix) = split_signature("SUM(number1, number2, ...)");
    assert_eq!(prefix, "SUM(");
    assert_eq!(args, vec!["number1".to_string(), "number2".to_string(), "...".to_string()]);
    assert_eq!(suffix, ")");

    let (prefix, args, suffix) = split_signature("PI()");
    assert_eq!(prefix, "PI(");
    assert!(args.is_empty());
    assert_eq!(suffix, ")");

    let (prefix, args, suffix) = split_signature("IF(a,, b )");
    assert_eq!(prefix, "IF(");
    assert_eq!(args, vec!["a".to_string(), "b".to_string()]);
    assert_eq!(suffix, ")");

    let (prefix, args, suffix) = split_signature("NOPARENS");
    assert_eq!(prefix, "NOPARENS");
    assert!(args.is_empty());
    assert_eq!(suffix, "");

    let (prefix, args, suffix) = split_signature(")X(");
    assert_eq!(prefix, ")X(");
    assert!(args.is_empty());
    assert_eq!(suffix, "");
}

#[test]
fn popup_style_sits_below_the_box() {
    let geometry = EditorOverlayBox {
        start: EditorLineColumn { line_index: 0, column_index: 4 },
        end: EditorLineColumn { line_index: 0, column_index: 4 },
        top_px: 22,
        left_px: 40,
        width_px: 0,
        height_px: 20,
    };
    assert_eq!(overlay_popup_style(geometry), "position:absolute;top:42px;left:40px;");
}

#[test]
fn measurement_source_labels() {
    assert_eq!(measurement_source_label(EditorOverlayMeasurementSource::DerivedGrid), "derived-grid");
    assert_eq!(measurement_source_label(EditorOverlayMeasurementSource::DomMeasured), "dom-measured");
}

#[test]
fn diagnostic_excerpt_is_cut_to_the_text() {
    assert_eq!(inline_diagnostic_excerpt("=SUM(1,2)", 1, 3), "SUM");
    assert_eq!(inline_diagnostic_excerpt("=é1", 1, 10), "é1");
    assert_eq!(inline_diagnostic_excerpt("=1", 5, 2), "");
}

#[test]
fn data_uri_payload_percent_encodes_reserved_bytes() {
    assert_eq!(encode_data_uri_payload("a-b_c.d~e"), "a-b_c.d~e");
    assert_eq!(encode_data_uri_payload("{\"mode\":\"Explore\"}"), "%7B%22mode%22%3A%22Explore%22%7D");
    assert_eq!(encode_data_uri_payload("a b"), "a%20b");
    assert_eq!(encode_data_uri_payload("é"), "%C3%A9");
    assert_eq!(encode_data_uri_payload(""), "");
}

fn percent_decode(encoded: &str) -> Vec<u8> {
    let chars: Vec<char> = encoded.chars().collect();
    let mut out = Vec::new();
    let mut i = 0;
    while i < chars.len() {
        if chars[i] == '%' && i + 2 < chars.len() {
            let hex: String = chars[i + 1..i + 3].iter().collect();
            out.push(u8::from_str_radix(&hex, 16).unwrap());
            i += 3;
        } else {
            out.push(chars[i] as u8);
            i += 1;
        }
    }
    out
}

#[test]
fn data_uri_payload_decodes_back_to_its_bytes() {
    for payload in ["", "plain", "{\"mode\":\"Explore\"}", "a b%c", "é€🙂\n<x/>"] {
        let encoded = encode_data_uri_payload(payload);
        assert!(encoded.chars().all(|c| c.is_ascii_alphanumeric() || "-_.~%".contains(c)));
        assert_eq!(percent_decode(&encoded), payload.as_bytes());
    }
}

#[test]
fn verdict_and_badge_texts() {
    assert_eq!(verdict_slug(Some(true)), "pass");
    assert_eq!(verdict_slug(Some(false)), "fail");
    assert_eq!(verdict_slug(None), "unobserved");
    assert_eq!(comparison_badge_text(Some(true), "match", "mismatch", "unknown"), "match");
    assert_eq!(comparison_badge_text(Some(false), "match", "mismatch", "unknown"), "mismatch");
    assert_eq!(comparison_badge_text(None, "match", "mismatch", "unknown"), "unknown");
}

#[test]
fn thresholds_round_trip_through_kind_and_value() {
    let half = 50.0f64.to_bits();
    let percentile = FormulaConditionalFormattingThreshold::Percentile(half);
    assert_eq!(threshold_kind_label(&percentile), "percentile");
    assert_eq!(threshold_numeric_value(&percentile), Some(half));
    assert_eq!(threshold_from_kind_and_value("percentile", half), percentile);

    assert_eq!(threshold_kind_label(&FormulaConditionalFormattingThreshold::Number(half)), "num");
    assert_eq!(threshold_numeric_value(&FormulaConditionalFormattingThreshold::Min), None);
    assert_eq!(threshold_from_kind_and_value("mid", half), FormulaConditionalFormattingThreshold::Mid);
    assert_eq!(threshold_from_kind_and_value("max", 0), FormulaConditionalFormattingThreshold::Max);
    assert_eq!(
        threshold_from_kind_and_value("percent", 1.5f64.to_bits()),
        FormulaConditionalFormattingThreshold::Percent(1.5f64.to_bits())
    );
    assert_eq!(
        threshold_from_kind_and_value("anything", half),
        FormulaConditionalFormattingThreshold::Number(half)
    );
}

#[test]
fn display_kind_attributes() {
    assert_eq!(display_kind_attr(ResultKind::Number), "number");
    assert_eq!(display_kind_attr(ResultKind::RichValue), "rich-value");
    assert_eq!(display_kind_attr(ResultKind::Other), "other");
}

#[test]
fn textarea_keys_follow_the_popup_policy() {
    assert_eq!(home_shell_key_action("d", true, true, false, false), HomeShellKeyAction::ToggleViewMode);
    assert_eq!(home_shell_key_action("D", true, false, true, true), HomeShellKeyAction::ToggleViewMode);
    assert_eq!(home_shell_key_action("d", true, false, false, false), HomeShellKeyAction::ToggleFormulaDrill);
    assert_eq!(home_shell_key_action("d", false, false, false, true), HomeShellKeyAction::PassThrough);
    assert_eq!(home_shell_key_action("ArrowDown", false, false, false, false), HomeShellKeyAction::PassThrough);
    assert_eq!(home_shell_key_action("ArrowDown", false, false, false, true), HomeShellKeyAction::MoveCompletionSelectionDown);
    assert_eq!(home_shell_key_action("ArrowUp", false, false, false, true), HomeShellKeyAction::MoveCompletionSelectionUp);
    assert_eq!(home_shell_key_action("Tab", false, false, false, true), HomeShellKeyAction::AcceptSelectedCompletion);
    assert_eq!(home_shell_key_action("Enter", false, false, true, true), HomeShellKeyAction::AcceptSelectedCompletion);
    assert_eq!(home_shell_key_action("Escape", false, false, false, true), HomeShellKeyAction::DismissCompletionPopup);
    assert_eq!(home_shell_key_action("ArrowLeft", false, false, false, true), HomeShellKeyAction::PassThrough);
    assert_eq!(home_shell_key_action("dd", true, false, false, true), HomeShellKeyAction::PassThrough);
}

#[test]
fn shell_keys_follow_the_shell_policy() {
    assert_eq!(shell_key_action("Escape", false, false, false, true), HomeShellKeyAction::CloseScenarioBreadcrumb);
    assert_eq!(shell_key_action("Escape", false, false, false, false), HomeShellKeyAction::PassThrough);
    assert_eq!(shell_key_action("F9", false, false, false, false), HomeShellKeyAction::Recalculate);
    assert_eq!(shell_key_action("F9", true, false, false, false), HomeShellKeyAction::PassThrough);
    assert_eq!(shell_key_action("k", true, false, false, false), HomeShellKeyAction::ClaimCommandPalette);
    assert_eq!(shell_key_action("K", true, false, true, false), HomeShellKeyAction::ClaimCommandPalette);
    assert_eq!(shell_key_action("P", true, false, true, false), HomeShellKeyAction::ClaimCommandPalette);
    assert_eq!(shell_key_action("p", true, false, false, false), HomeShellKeyAction::PassThrough);
    assert_eq!(shell_key_action("k", true, true, false, false), HomeShellKeyAction::PassThrough);
}

#[test]
fn accepting_a_completion_splices_and_moves_the_caret() {
    let acceptance = CompletionAcceptance {
        replacement_span: Some(FormulaTextSpan { start: 1, len: 2 }),
        insert_text: "SUM(".to_string(),
        new_caret_offset: 5,
    };
    let event = completion_acceptance_event("=SU", &acceptance);
    assert_eq!(event.text, "=SUM(");
    assert_eq!((event.selection_start, event.selection_end), (Some(5), Some(5)));
    assert_eq!(event.input_kind, EditorInputKind::InsertText);
    assert_eq!(event.inserted_text.as_deref(), Some("SUM("));

    let sync = caret_sync_event("=A1".to_string(), Some(2), None);
    assert_eq!((sync.text.as_str(), sync.selection_start, sync.selection_end), ("=A1", Some(2), None));
    assert_eq!(sync.input_kind, EditorInputKind::CaretSync);
    assert!(sync.inserted_text.is_none());
}

#[test]
fn manual_import_needs_both_ids() {
    let r = manual_import_request(" a-1 ".to_string(), "c".to_string(), "  ".to_string(), ProgrammaticComparisonStatus::Blocked)
        .unwrap();
    assert_eq!((r.artifact_id.as_str(), r.case_id.as_str()), (" a-1 ", "c"));
    assert_eq!(r.comparison_status, ProgrammaticComparisonStatus::Blocked);
    assert_eq!(r.discrepancy_summary, None);
    let r = manual_import_request("a".to_string(), "c".to_string(), " x ".to_string(), ProgrammaticComparisonStatus::Matched)
        .unwrap();
    assert_eq!(r.discrepancy_summary.as_deref(), Some(" x "));
    assert!(manual_import_request(" \t".to_string(), "c".to_string(), "s".to_string(), ProgrammaticComparisonStatus::Mismatched).is_none());
    assert!(manual_import_request("a".to_string(), "".to_string(), "s".to_string(), ProgrammaticComparisonStatus::Mismatched).is_none());
    assert!(verification_bundle_import_request("  \n".to_string()).is_none());
    assert_eq!(verification_bundle_import_request(" {} ".to_string()).unwrap().report_json, " {} ");
}

#[test]
fn inspect_summary_lines() {
    assert_eq!(or_unavailable(None), "Unavailable");
    assert_eq!(or_unavailable(Some("6".to_string())), "6");
    assert_eq!(parse_status_text(&Some(ParseSummary { status: "Valid".to_string(), token_count: 7 })), "Valid");
    assert_eq!(parse_status_text(&None), "Unavailable");
    assert_eq!(bind_summary_text(&Some(BindSummary { variable_count: 1, reference_count: 20 })), "vars=1, refs=20");
    assert_eq!(bind_summary_text(&None), "Unavailable");
    assert_eq!(
        eval_summary_text(&Some(EvalSummary { step_count: 2, duration_text: "1.2ms".to_string() })),
        "steps=2, duration=1.2ms"
    );
    assert_eq!(
        provenance_summary_text(&Some(ProvenanceSummary { profile_summary: "OC-H0".to_string(), blocked_reason: None })),
        "OC-H0"
    );
    assert_eq!(green_tree_text(None), "none");
    assert_eq!(blocked_reason_text(None), "No blocked dimension recorded");
    assert_eq!(walk_node_state_label(FormulaWalkNodeState::Evaluated), "Evaluated");
}

#[test]
fn rail_rows_reopen_or_select() {
    assert_eq!(rail_row_state(true, true), "recent");
    assert_eq!(rail_row_state(false, true), "active");
    assert_eq!(rail_row_state(false, false), "idle");
    assert_eq!(rail_row_action(true), RailRowAction::Reopen);
    assert_eq!(rail_row_button_role(rail_row_action(false)), "formula-space-select");
    assert_eq!(rail_row_button_role(RailRowAction::Reopen), "formula-space-reopen");
    assert_eq!(rail_row_meta_summary("live-backed", "Explore"), "live-backed · Explore");
}

fn rule(kind: &str) -> FormulaConditionalFormattingRule {
    FormulaConditionalFormattingRule {
        rule_kind: kind.to_string(),
        operator: Some("greaterThan".to_string()),
        thresholds: vec!["5".to_string()],
        font_color: None,
        fill_color: None,
        typed_rule: None,
    }
}

#[test]
fn seeding_fills_kind_defaults() {
    let mut r = rule("ColorScale");
    seed_visualization_rule_defaults(&mut r);
    assert!(r.thresholds.is_empty());
    assert_eq!(r.fill_color, None);
    let stops = &r.typed_rule.as_ref().unwrap().color_scale.as_ref().unwrap().stops;
    assert_eq!(stops.len(), 3);
    assert_eq!(stops[1].position, FormulaConditionalFormattingThreshold::Percentile(50.0f64.to_bits()));
    assert_eq!(FIFTY_PERCENTILE_BITS, 50.0f64.to_bits());
    assert_eq!(stops[2].color, "#63BE7B");

    let mut r = rule("dataBar");
    seed_visualization_rule_defaults(&mut r);
    assert_eq!(r.fill_color.as_deref(), Some("#638EC6"));
    assert_eq!(r.typed_rule.as_ref().unwrap().data_bar.as_ref().unwrap().bar_color.as_deref(), Some("#638EC6"));

    let mut r = rule("top");
    r.fill_color = Some("#000000".to_string());
    seed_visualization_rule_defaults(&mut r);
    assert_eq!(r.fill_color.as_deref(), Some("#000000"));
    assert_eq!(
        r.typed_rule.as_ref().unwrap().rank,
        Some(FormulaRankRuleOptions { rank: FormulaConditionalFormattingRank::Count(10) })
    );

    let mut r = rule("aboveAverage");
    seed_visualization_rule_defaults(&mut r);
    assert_eq!(
        r.typed_rule.as_ref().unwrap().average,
        Some(FormulaAverageRuleOptions { include_equal: false, stddev_multiplier: None })
    );

    let mut r = rule("uniqueValues");
    seed_visualization_rule_defaults(&mut r);
    assert_eq!(r.thresholds, vec!["5".to_string()]);
    assert_eq!(r.fill_color.as_deref(), Some("#FFE9B3"));
    assert!(r.typed_rule.is_none());

    let mut r = rule("cellIs");
    seed_visualization_rule_defaults(&mut r);
    assert_eq!(r, rule("cellIs"));
}

#[test]
fn color_scale_stops_update_and_remove() {
    let mut r = rule("colorScale");
    seed_visualization_rule_defaults(&mut r);
    update_color_scale_stop(
        &mut r,
        1,
        FormulaColorScaleStop { position: FormulaConditionalFormattingThreshold::Mid, color: "#FFFFFF".to_string() },
    );
    let stops = &r.typed_rule.as_ref().unwrap().color_scale.as_ref().unwrap().stops;
    assert_eq!(stops[1].color, "#FFFFFF");
    assert_eq!(stops[1].position, FormulaConditionalFormattingThreshold::Mid);
    remove_color_scale_stop(&mut r, 0);
    remove_color_scale_stop(&mut r, 9);
    let stops = &r.typed_rule.as_ref().unwrap().color_scale.as_ref().unwrap().stops;
    assert_eq!(stops.len(), 2);
    assert_eq!(stops[0].color, "#FFFFFF");

    let mut bare = rule("cellIs");
    update_color_scale_stop(
        &mut bare,
        0,
        FormulaColorScaleStop { position: FormulaConditionalFormattingThreshold::Min, color: "#000000".to_string() },
    );
    assert_eq!(
        bare.typed_rule,
        Some(FormulaConditionalFormattingTypedRule {
            color_scale: Some(FormulaColorScaleRuleOptions { stops: vec![] }),
            data_bar: None,
            icon_set: None,
            average: None,
            rank: None,
        })
    );
    let mut none = rule("cellIs");
    remove_color_scale_stop(&mut none, 0);
    assert_eq!(none, rule("cellIs"));
}

#[test]
fn view_rules_lift_to_host_rules() {
    let view = ConditionalFormattingRuleView {
        rule_kind: "top".to_string(),
        operator: None,
        thresholds: vec!["3".to_string()],
        font_color: Some("#111111".to_string()),
        fill_color: None,
        typed_rule: None,
    };
    let host = host_cf_rule_from_view(&view);
    assert_eq!(host.rule_kind, "top");
    assert_eq!(host.thresholds, vec!["3".to_string()]);
    assert_eq!(host.font_color.as_deref(), Some("#111111"));
    assert!(host.typed_rule.is_none());
}
