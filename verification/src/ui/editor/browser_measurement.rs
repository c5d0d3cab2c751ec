//! Measurement of the editor overlay from the textarea. Reading the
//! textarea's dimensions is the host's part; what is computed from them is
//! here.
use vstd::prelude::*;

use crate::adapters::FormulaTextSpan;
use crate::ui::editor::geometry::{
    derive_overlay_snapshot_with_metrics, derived_metrics, metrics_fit, overlay_snapshot,
    EditorOverlayMeasurementEvent, TextareaMeasurementMetrics, DERIVED_CHAR_WIDTH_PX,
    DERIVED_LINE_HEIGHT_PX,
};
use crate::ui::editor::state::max_nat;
use crate::ui::panels::explore::ExploreEditorClusterViewModel;

verus! {

/// The grid metrics of a textarea with the given rows, columns, client
/// size and scroll offsets: each dimension is taken as at least one, each
/// cell as at least one pixel, and negative scroll offsets as zero.
pub fn textarea_measurement_metrics(
    rows: u32,
    cols: u32,
    client_height: i32,
    client_width: i32,
    scroll_top: i32,
    scroll_left: i32,
) -> (r: TextareaMeasurementMetrics)
    ensures
        r.char_width_px == max_nat(max_nat(client_width as int, 1) / max_nat(cols as int, 1), 1),
        r.line_height_px == max_nat(max_nat(client_height as int, 1) / max_nat(rows as int, 1), 1),
        r.scroll_top_px == max_nat(scroll_top as int, 0),
        r.scroll_left_px == max_nat(scroll_left as int, 0),
{
    let rows = if rows >= 1 { rows as usize } else { 1 };
    let cols = if cols >= 1 { cols as usize } else { 1 };
    let client_height = if client_height >= 1 { client_height as usize } else { 1 };
    let client_width = if client_width >= 1 { client_width as usize } else { 1 };
    let char_width = client_width / cols;
    let line_height = client_height / rows;
    TextareaMeasurementMetrics {
        char_width_px: if char_width >= 1 { char_width } else { 1 },
        line_height_px: if line_height >= 1 { line_height } else { 1 },
        scroll_top_px: if scroll_top >= 0 { scroll_top as usize } else { 0 },
        scroll_left_px: if scroll_left >= 0 { scroll_left as usize } else { 0 },
    }
}

/// The selection of the editor as a span.
pub open spec fn editor_selection_span(editor: ExploreEditorClusterViewModel) -> FormulaTextSpan {
    let sel = editor.editor_surface_state.selection;
    FormulaTextSpan { start: sel.spec_start() as usize, len: (sel.spec_end() - sel.spec_start()) as usize }
}

/// The measurement event for an editor cluster on a grid.
pub open spec fn editor_measurement_event(
    editor: ExploreEditorClusterViewModel,
    metrics: TextareaMeasurementMetrics,
) -> EditorOverlayMeasurementEvent {
    EditorOverlayMeasurementEvent {
        snapshot: overlay_snapshot(
            editor.raw_entered_cell_text@,
            editor.editor_surface_state.caret.offset as int,
            editor_selection_span(editor),
            editor.completion_anchor_span,
            match editor.signature_help {
                Some(help) => Some(help.call_span),
                None => None,
            },
            metrics,
        ),
    }
}

/// The overlay geometry of the editor's caret, selection, completion anchor
/// and signature-help anchor on a measured grid.
pub fn measurement_event_with_metrics(
    editor: &ExploreEditorClusterViewModel,
    metrics: TextareaMeasurementMetrics,
) -> (r: EditorOverlayMeasurementEvent)
    requires
        metrics_fit(editor.raw_entered_cell_text@, metrics),
    ensures
        r == editor_measurement_event(*editor, metrics),
{
    let start = editor.editor_surface_state.selection.start();
    let end = editor.editor_surface_state.selection.end();
    let signature_span = match &editor.signature_help {
        Some(help) => Some(help.call_span),
        None => None,
    };
    EditorOverlayMeasurementEvent {
        snapshot: derive_overlay_snapshot_with_metrics(
            editor.raw_entered_cell_text.as_str(),
            editor.editor_surface_state.caret.offset,
            FormulaTextSpan { start, len: end.saturating_sub(start) },
            editor.completion_anchor_span,
            signature_span,
            metrics,
        ),
    }
}

/// The overlay geometry on the derived grid, for hosts without a DOM.
pub fn capture_overlay_measurement_event(
    _textarea: &(),
    editor: &ExploreEditorClusterViewModel,
) -> (r: EditorOverlayMeasurementEvent)
    requires
        metrics_fit(editor.raw_entered_cell_text@, derived_metrics()),
    ensures
        r == editor_measurement_event(*editor, derived_metrics()),
{
    measurement_event_with_metrics(
        editor,
        TextareaMeasurementMetrics {
            char_width_px: DERIVED_CHAR_WIDTH_PX,
            line_height_px: DERIVED_LINE_HEIGHT_PX,
            scroll_top_px: 0,
            scroll_left_px: 0,
        },
    )
}

} // verus!
