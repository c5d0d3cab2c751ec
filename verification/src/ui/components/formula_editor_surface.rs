//! Text decisions of the formula editor surface.
use vstd::prelude::*;

use crate::services::ExploreDiagnosticView;
use crate::text::{chars_of, push_decimal, string_from_chars, decimal_digits};
use crate::adapters::FormulaTextSpan;
use crate::ui::editor::geometry::{
    grid_of, lemma_boxes_fit, measured_as_box, resolve_overlay_box, EditorMeasuredOverlayBox,
    EditorOverlayGeometrySnapshot, EditorOverlayMeasurement,
};
use crate::ui::editor::render_projection::{SyntaxRun, SyntaxTokenRole};
use crate::ui::editor::state::{count_lines, line_count, max_nat};
use crate::ui::editor::browser_measurement::{editor_measurement_event, measurement_event_with_metrics};
use crate::ui::editor::geometry::{
    derived_metrics, metrics_fit, EditorOverlayBox, EditorOverlayMeasurementEvent,
    EditorOverlayMeasurementSource, TextareaMeasurementMetrics, DERIVED_CHAR_WIDTH_PX,
    DERIVED_LINE_HEIGHT_PX,
};
use crate::ui::editor::state::min_nat;
use crate::ui::panels::explore::ExploreEditorClusterViewModel;

verus! {

/// The `data-measurement-source` label of a measurement source.
pub fn measurement_source_label(source: EditorOverlayMeasurementSource) -> (r: &'static str)
    ensures
        r@ == (match source {
            EditorOverlayMeasurementSource::DerivedGrid => "derived-grid"@,
            EditorOverlayMeasurementSource::DomMeasured => "dom-measured"@,
        }),
{
    match source {
        EditorOverlayMeasurementSource::DerivedGrid => "derived-grid",
        EditorOverlayMeasurementSource::DomMeasured => "dom-measured",
    }
}

/// The overlay geometry that the surface reports where no DOM measures it:
/// the editor's caret, selection, completion anchor and signature-help
/// anchor on the derived character grid.
pub fn build_overlay_measurement_event(editor: &ExploreEditorClusterViewModel) -> (r: EditorOverlayMeasurementEvent)
    requires
        metrics_fit(editor.raw_entered_cell_text@, derived_metrics()),
    ensures
        r == editor_measurement_event(*editor, derived_metrics()),
{
    measurement_event_with_metrics(
        editor,
        TextareaMeasurementMetrics {
            char_width_px: DERIVED_CHAR_WIDTH_PX,
            line_height_px: DERIVED_LINE_HEIGHT_PX,
            scroll_top_px: 0,
            scroll_left_px: 0,
        },
    )
}

/// The inline style that places a popup just below an overlay box.
pub fn overlay_popup_style(box_geometry: EditorOverlayBox) -> (r: String)
    requires
        box_geometry.top_px + box_geometry.height_px <= usize::MAX,
    ensures
        r@ == "position:absolute;top:"@ + decimal_digits((box_geometry.top_px + box_geometry.height_px) as nat)
            + "px;left:"@ + decimal_digits(box_geometry.left_px as nat) + "px;"@,
{
    let mut s = "position:absolute;top:".to_owned();
    push_decimal(&mut s, box_geometry.top_px + box_geometry.height_px);
    s.append("px;left:");
    push_decimal(&mut s, box_geometry.left_px);
    s.append("px;");
    s
}

/// The chars of `text` under a diagnostic span, cut back to the text.
pub fn inline_diagnostic_excerpt(text: &str, span_start: usize, span_len: usize) -> (r: String)
    ensures
        r@ == text@.subrange(
            min_nat(span_start as int, text@.len() as int),
            min_nat(min_nat(span_start as int, text@.len() as int) + span_len, text@.len() as int),
        ),
{
    let chars = chars_of(text);
    let n = chars.len();
    let start = if span_start <= n { span_start } else { n };
    let end = if span_len <= n - start { start + span_len } else { n };
    string_from_chars(&chars, start, end)
}

// ---------------------------------------------------------------------------
// The surface model
// ---------------------------------------------------------------------------

/// What the formula editor surface shows around the textarea: its toolbar
/// metrics, the diagnostics summary, the selection, and the caret and
/// selection boxes with where each came from.
#[derive(Debug)]
pub struct FormulaEditorSurfaceModel {
    pub line_count: usize,
    pub token_count: usize,
    pub function_count: usize,
    pub toolbar_state: &'static str,
    pub diagnostics_text: String,
    pub diagnostics_state_label: String,
    pub diagnostics_state_detail: &'static str,
    pub selection_start: usize,
    pub selection_end: usize,
    pub selection_label: &'static str,
    pub caret_source: EditorOverlayMeasurementSource,
    pub caret_box: EditorOverlayBox,
    pub selection_source: EditorOverlayMeasurementSource,
    pub selection_box: EditorOverlayBox,
    pub measurement_source: &'static str,
}

/// The number of runs with the `Function` role.
pub open spec fn function_run_count(runs: Seq<SyntaxRun>) -> nat
    decreases runs.len(),
{
    if runs.len() == 0 {
        0
    } else {
        function_run_count(runs.drop_last()) + if runs.last().role == SyntaxTokenRole::Function { 1nat } else { 0nat }
    }
}

/// One diagnostic as `id: message`.
pub open spec fn diagnostic_entry(d: ExploreDiagnosticView) -> Seq<char> {
    d.diagnostic_id@ + ": "@ + d.message@
}

/// The diagnostics as `id: message` entries joined by ` | `.
pub open spec fn diagnostics_joined(ds: Seq<ExploreDiagnosticView>) -> Seq<char>
    decreases ds.len(),
{
    if ds.len() == 0 {
        Seq::empty()
    } else if ds.len() == 1 {
        diagnostic_entry(ds[0])
    } else {
        diagnostics_joined(ds.drop_last()) + " | "@ + diagnostic_entry(ds.last())
    }
}

/// A measured box, when there is one, else the derived box.
pub open spec fn resolved_box(measured: Option<EditorMeasuredOverlayBox>, derived: EditorOverlayBox)
    -> (EditorOverlayMeasurementSource, EditorOverlayBox)
{
    match measured {
        Some(m) => (EditorOverlayMeasurementSource::DomMeasured, measured_as_box(m)),
        None => (EditorOverlayMeasurementSource::DerivedGrid, derived),
    }
}

/// The geometry holds at least one measured box (it is not the empty
/// snapshot).
pub open spec fn has_measurement(g: Option<EditorOverlayGeometrySnapshot>) -> bool {
    g matches Some(x) && (x.caret_box is Some || x.selection_box is Some || x.completion_anchor_box is Some
        || x.signature_help_anchor_box is Some)
}

pub open spec fn caret_measured(g: Option<EditorOverlayGeometrySnapshot>) -> Option<EditorMeasuredOverlayBox> {
    match g { Some(x) => x.caret_box, None => None }
}

pub open spec fn selection_measured(g: Option<EditorOverlayGeometrySnapshot>) -> Option<EditorMeasuredOverlayBox> {
    match g { Some(x) => x.selection_box, None => None }
}

fn function_count_of(runs: &Vec<SyntaxRun>) -> (r: usize)
    ensures
        r == function_run_count(runs@),
{
    let mut count: usize = 0;
    let mut i: usize = 0;
    while i < runs.len()
        invariant
            i <= runs@.len(),
            count == function_run_count(runs@.take(i as int)),
            count <= i,
        decreases runs@.len() - i,
    {
        assert(runs@.take(i + 1).drop_last() =~= runs@.take(i as int));
        if runs[i].role == SyntaxTokenRole::Function {
            count += 1;
        }
        i += 1;
    }
    assert(runs@.take(runs@.len() as int) =~= runs@);
    count
}

fn diagnostics_text_of(ds: &Vec<ExploreDiagnosticView>) -> (r: String)
    ensures
        r@ == diagnostics_joined(ds@),
{
    let mut s = String::new();
    let mut i: usize = 0;
    while i < ds.len()
        invariant
            i <= ds@.len(),
            s@ == diagnostics_joined(ds@.take(i as int)),
        decreases ds@.len() - i,
    {
        assert(ds@.take(i + 1).drop_last() =~= ds@.take(i as int));
        if i > 0 {
            s.append(" | ");
        }
        s.append(ds[i].diagnostic_id.as_str());
        s.append(": ");
        s.append(ds[i].message.as_str());
        proof {
            if i == 0 {
                assert(ds@.take(1)[0] == ds@[0]);
            }
        }
        assert(s@ =~= diagnostics_joined(ds@.take(i + 1)));
        i += 1;
    }
    assert(ds@.take(ds@.len() as int) =~= ds@);
    s
}

/// The surface model of an editor cluster, with the overlay geometry that
/// the DOM last measured, if any. The caret and selection boxes are the
/// measured ones where the geometry has them, else the derived grid's; the
/// measurement source reads `mixed` whenever the geometry holds any box.
pub fn formula_editor_surface_model(
    editor: &ExploreEditorClusterViewModel,
    overlay_geometry: Option<EditorOverlayGeometrySnapshot>,
) -> (r: FormulaEditorSurfaceModel)
    requires
        metrics_fit(editor.raw_entered_cell_text@, derived_metrics()),
    ensures
        r.line_count == max_nat(line_count(editor.raw_entered_cell_text@) as int, 1),
        r.token_count == editor.syntax_runs@.len(),
        r.function_count == function_run_count(editor.syntax_runs@),
        r.toolbar_state@ == if editor.diagnostics@.len() == 0 { "Clean"@ } else { "Review"@ },
        r.diagnostics_text@ == if editor.diagnostics@.len() == 0 { "No diagnostics"@ } else {
            diagnostics_joined(editor.diagnostics@)
        },
        r.diagnostics_state_label@ == if editor.diagnostics@.len() == 0 { "Ready to evaluate"@ } else {
            decimal_digits(editor.diagnostics@.len()) + " diagnostic(s) need review"@
        },
        r.diagnostics_state_detail@ == if editor.diagnostics@.len() == 0 {
            "Live OxFml analysis is clean and the editor surface is in-sync."@
        } else {
            "Live OxFml analysis reported issues in the current entry."@
        },
        r.selection_start == editor.editor_surface_state.selection.spec_start(),
        r.selection_end == editor.editor_surface_state.selection.spec_end(),
        r.selection_label@ == if r.selection_start == r.selection_end { "collapsed"@ } else { "range"@ },
        (r.caret_source, r.caret_box) == resolved_box(
            caret_measured(overlay_geometry),
            grid_of(derived_metrics()).offset_box_spec(
                editor.raw_entered_cell_text@,
                editor.editor_surface_state.caret.offset as int,
            ),
        ),
        (r.selection_source, r.selection_box) == resolved_box(
            selection_measured(overlay_geometry),
            grid_of(derived_metrics()).span_box_spec(
                editor.raw_entered_cell_text@,
                FormulaTextSpan {
                    start: r.selection_start,
                    len: (r.selection_end - r.selection_start) as usize,
                },
            ),
        ),
        r.measurement_source@ == if has_measurement(overlay_geometry) { "mixed"@ } else { "derived-grid"@ },
{
    let text = editor.raw_entered_cell_text.as_str();
    let chars = chars_of(text);
    let lines = count_lines(&chars);
    let line_count = if lines >= 1 { lines } else { 1 };
    let function_count = function_count_of(&editor.syntax_runs);
    let n_diag = editor.diagnostics.len();
    let diagnostics_text = if n_diag == 0 {
        "No diagnostics".to_owned()
    } else {
        diagnostics_text_of(&editor.diagnostics)
    };
    let diagnostics_state_label = if n_diag == 0 {
        "Ready to evaluate".to_owned()
    } else {
        let mut s = String::new();
        push_decimal(&mut s, n_diag);
        s.append(" diagnostic(s) need review");
        s
    };
    let diagnostics_state_detail = if n_diag == 0 {
        "Live OxFml analysis is clean and the editor surface is in-sync."
    } else {
        "Live OxFml analysis reported issues in the current entry."
    };
    let state = editor.editor_surface_state;
    let selection_start = state.selection.start();
    let selection_end = state.selection.end();
    let selection_label = if state.selection.is_collapsed() { "collapsed" } else { "range" };
    let grid = EditorOverlayMeasurement::derived_grid();
    let selection_span = FormulaTextSpan { start: selection_start, len: selection_end - selection_start };
    proof {
        lemma_boxes_fit(text@, state.caret.offset as int, selection_span, derived_metrics());
        assert(grid == grid_of(derived_metrics()));
    }
    let (caret_measured_box, selection_measured_box, measured_any) = match overlay_geometry {
        Some(g) => (
            g.caret_box,
            g.selection_box,
            g.caret_box.is_some() || g.selection_box.is_some() || g.completion_anchor_box.is_some()
                || g.signature_help_anchor_box.is_some(),
        ),
        None => (None, None, false),
    };
    let (caret_source, caret_box) = resolve_overlay_box(caret_measured_box, grid.offset_box(text, state.caret.offset));
    let (selection_source, selection_box) = resolve_overlay_box(selection_measured_box, grid.span_box(text, selection_span));
    let measurement_source = if measured_any {
        "mixed"
    } else {
        measurement_source_label(grid.source)
    };
    FormulaEditorSurfaceModel {
        line_count,
        token_count: editor.syntax_runs.len(),
        function_count,
        toolbar_state: if n_diag == 0 { "Clean" } else { "Review" },
        diagnostics_text,
        diagnostics_state_label,
        diagnostics_state_detail,
        selection_start,
        selection_end,
        selection_label,
        caret_source,
        caret_box,
        selection_source,
        selection_box,
        measurement_source,
    }
}

} // verus!
