//! Where the caret, selection and popups of the formula editor sit on
//! screen, derived from a character grid or taken from DOM measurements.
use vstd::prelude::*;

use crate::adapters::FormulaTextSpan;
use crate::text::chars_of;
use crate::ui::editor::commands::{is_line_start, line_start_at, lemma_line_start_at_bounds, lemma_line_start_at_clamp};
use crate::ui::editor::state::{max_nat, min_nat, newline_count};

verus! {

#[derive(Debug, Clone, Copy, PartialEq, Eq, Structural)]
pub enum EditorOverlayMeasurementSource {
    DerivedGrid,
    DomMeasured,
}

#[derive(Debug, Clone, Copy, PartialEq, Eq, Structural)]
pub struct EditorLineColumn {
    pub line_index: usize,
    pub column_index: usize,
}

#[derive(Debug, Clone, Copy, PartialEq, Eq, Structural)]
pub struct EditorOverlayBox {
    pub start: EditorLineColumn,
    pub end: EditorLineColumn,
    pub top_px: usize,
    pub left_px: usize,
    pub width_px: usize,
    pub height_px: usize,
}

#[derive(Debug, Clone, Copy, PartialEq, Eq, Structural)]
pub struct EditorOverlayMeasurement {
    pub source: EditorOverlayMeasurementSource,
    pub char_width_px: usize,
    pub line_height_px: usize,
}

#[derive(Debug, Clone, Copy, PartialEq, Eq, Structural)]
pub struct EditorMeasuredOverlayBox {
    pub top_px: usize,
    pub left_px: usize,
    pub width_px: usize,
    pub height_px: usize,
    pub line_index: usize,
    pub column_index: usize,
}

#[derive(Debug, Clone, Copy, PartialEq, Eq, Structural, Default)]
pub struct EditorOverlayGeometrySnapshot {
    pub caret_box: Option<EditorMeasuredOverlayBox>,
    pub selection_box: Option<EditorMeasuredOverlayBox>,
    pub completion_anchor_box: Option<EditorMeasuredOverlayBox>,
    pub signature_help_anchor_box: Option<EditorMeasuredOverlayBox>,
}

/// The overlay geometry that one measurement pass produced.
#[derive(Debug, Clone, Copy, PartialEq, Eq, Structural)]
pub struct EditorOverlayMeasurementEvent {
    pub snapshot: EditorOverlayGeometrySnapshot,
}

/// The character grid of a textarea as the browser lays it out.
#[derive(Debug, Clone, Copy, PartialEq, Eq, Structural)]
pub struct TextareaMeasurementMetrics {
    pub char_width_px: usize,
    pub line_height_px: usize,
    pub scroll_top_px: usize,
    pub scroll_left_px: usize,
}

/// The char width of the derived grid, in pixels.
pub const DERIVED_CHAR_WIDTH_PX: usize = 8;

/// The line height of the derived grid, in pixels.
pub const DERIVED_LINE_HEIGHT_PX: usize = 22;

/// Line and column of offset `off` (clamped to the text): the number of
/// line breaks before it, and its distance from the start of its line.
pub open spec fn line_column(s: Seq<char>, off: int) -> EditorLineColumn {
    let p = min_nat(off, s.len() as int);
    EditorLineColumn {
        line_index: newline_count(s.take(p)) as usize,
        column_index: (p - line_start_at(s, p)) as usize,
    }
}

impl EditorOverlayMeasurement {
    /// The box that `offset_box` yields: one char cell at the offset.
    pub open spec fn offset_box_spec(self, s: Seq<char>, off: int) -> EditorOverlayBox {
        let lc = line_column(s, off);
        EditorOverlayBox {
            start: lc,
            end: lc,
            top_px: (lc.line_index * self.line_height_px) as usize,
            left_px: (lc.column_index * self.char_width_px) as usize,
            width_px: max_nat(self.char_width_px as int, 1) as usize,
            height_px: self.line_height_px,
        }
    }

    /// The pixel arithmetic of `offset_box` fits in `usize`.
    pub open spec fn offset_box_fits(self, s: Seq<char>, off: int) -> bool {
        let lc = line_column(s, off);
        &&& lc.line_index * self.line_height_px <= usize::MAX
        &&& lc.column_index * self.char_width_px <= usize::MAX
    }

    /// Columns the span covers on its first line: at least one, and one when
    /// it runs onto another line.
    pub open spec fn span_columns(self, s: Seq<char>, span: FormulaTextSpan) -> int {
        let a = line_column(s, span.start as int);
        let b = line_column(s, span.start + span.len);
        if a.line_index == b.line_index {
            max_nat(max_nat(b.column_index - a.column_index, 0), 1)
        } else {
            1
        }
    }

    /// Lines the span covers.
    pub open spec fn span_lines(self, s: Seq<char>, span: FormulaTextSpan) -> int {
        let a = line_column(s, span.start as int);
        let b = line_column(s, span.start + span.len);
        max_nat(b.line_index - a.line_index, 0) + 1
    }

    /// The box that `span_box` yields: from the span's start, as wide as its
    /// columns on the first line and as tall as its lines.
    pub open spec fn span_box_spec(self, s: Seq<char>, span: FormulaTextSpan) -> EditorOverlayBox {
        let a = line_column(s, span.start as int);
        let b = line_column(s, span.start + span.len);
        EditorOverlayBox {
            start: a,
            end: b,
            top_px: (a.line_index * self.line_height_px) as usize,
            left_px: (a.column_index * self.char_width_px) as usize,
            width_px: (self.span_columns(s, span) * self.char_width_px) as usize,
            height_px: (self.span_lines(s, span) * self.line_height_px) as usize,
        }
    }

    /// The arithmetic of `span_box` fits in `usize`.
    pub open spec fn span_box_fits(self, s: Seq<char>, span: FormulaTextSpan) -> bool {
        let a = line_column(s, span.start as int);
        &&& span.start + span.len <= usize::MAX
        &&& a.line_index * self.line_height_px <= usize::MAX
        &&& a.column_index * self.char_width_px <= usize::MAX
        &&& self.span_columns(s, span) * self.char_width_px <= usize::MAX
        &&& self.span_lines(s, span) <= usize::MAX
        &&& self.span_lines(s, span) * self.line_height_px <= usize::MAX
    }

    /// The fixed character grid used before the DOM has been measured.
    pub fn derived_grid() -> (r: Self)
        ensures
            r == (EditorOverlayMeasurement {
                source: EditorOverlayMeasurementSource::DerivedGrid,
                char_width_px: DERIVED_CHAR_WIDTH_PX,
                line_height_px: DERIVED_LINE_HEIGHT_PX,
            }),
    {
        Self {
            source: EditorOverlayMeasurementSource::DerivedGrid,
            char_width_px: DERIVED_CHAR_WIDTH_PX,
            line_height_px: DERIVED_LINE_HEIGHT_PX,
        }
    }

    /// The box of the char cell at `offset`.
    pub fn offset_box(&self, text: &str, offset: usize) -> (r: EditorOverlayBox)
        requires
            self.offset_box_fits(text@, offset as int),
        ensures
            r == self.offset_box_spec(text@, offset as int),
    {
        let start = offset_to_line_column(text, offset);
        EditorOverlayBox {
            start,
            end: start,
            top_px: start.line_index * self.line_height_px,
            left_px: start.column_index * self.char_width_px,
            width_px: if self.char_width_px >= 1 { self.char_width_px } else { 1 },
            height_px: self.line_height_px,
        }
    }

    /// The box that covers `span`.
    pub fn span_box(&self, text: &str, span: FormulaTextSpan) -> (r: EditorOverlayBox)
        requires
            self.span_box_fits(text@, span),
        ensures
            r == self.span_box_spec(text@, span),
    {
        let start = offset_to_line_column(text, span.start);
        let end = offset_to_line_column(text, span.start + span.len);
        let same_line = start.line_index == end.line_index;
        let column_span = if same_line {
            let d = end.column_index.saturating_sub(start.column_index);
            if d >= 1 { d } else { 1 }
        } else {
            1
        };
        let line_span = end.line_index.saturating_sub(start.line_index) + 1;
        EditorOverlayBox {
            start,
            end,
            top_px: start.line_index * self.line_height_px,
            left_px: start.column_index * self.char_width_px,
            width_px: column_span * self.char_width_px,
            height_px: line_span * self.line_height_px,
        }
    }
}

/// Line and column of `offset`, counted in chars; offsets past the end
/// land after the last char.
pub fn offset_to_line_column(text: &str, offset: usize) -> (r: EditorLineColumn)
    ensures
        r == line_column(text@, offset as int),
{
    let chars = chars_of(text);
    let ghost s = chars@;
    let mut line_index: usize = 0;
    let mut column_index: usize = 0;
    let mut idx: usize = 0;
    while idx < chars.len() && idx < offset
        invariant
            s == chars@,
            idx <= s.len(),
            idx <= offset,
            line_index == newline_count(s.take(idx as int)),
            column_index == idx - line_start_at(s, idx as int),
            line_index <= idx,
        decreases s.len() - idx,
    {
        proof {
            lemma_line_start_at_bounds(s, idx as int);
            assert(s.take(idx + 1).drop_last() =~= s.take(idx as int));
        }
        if chars[idx] == '\n' {
            line_index += 1;
            column_index = 0;
        } else {
            column_index += 1;
        }
        idx += 1;
    }
    proof {
        lemma_line_start_at_bounds(s, idx as int);
    }
    EditorLineColumn { line_index, column_index }
}

pub open spec fn measured_as_box(m: EditorMeasuredOverlayBox) -> EditorOverlayBox {
    let lc = EditorLineColumn { line_index: m.line_index, column_index: m.column_index };
    EditorOverlayBox {
        start: lc,
        end: lc,
        top_px: m.top_px,
        left_px: m.left_px,
        width_px: m.width_px,
        height_px: m.height_px,
    }
}

/// Prefers a DOM-measured box over the derived one.
pub fn resolve_overlay_box(
    measured_box: Option<EditorMeasuredOverlayBox>,
    derived_box: EditorOverlayBox,
) -> (r: (EditorOverlayMeasurementSource, EditorOverlayBox))
    ensures
        r == (match measured_box {
            Some(m) => (EditorOverlayMeasurementSource::DomMeasured, measured_as_box(m)),
            None => (EditorOverlayMeasurementSource::DerivedGrid, derived_box),
        }),
{
    match measured_box {
        Some(measured_box) => (
            EditorOverlayMeasurementSource::DomMeasured,
            EditorOverlayBox {
                start: EditorLineColumn {
                    line_index: measured_box.line_index,
                    column_index: measured_box.column_index,
                },
                end: EditorLineColumn {
                    line_index: measured_box.line_index,
                    column_index: measured_box.column_index,
                },
                top_px: measured_box.top_px,
                left_px: measured_box.left_px,
                width_px: measured_box.width_px,
                height_px: measured_box.height_px,
            },
        ),
        None => (EditorOverlayMeasurementSource::DerivedGrid, derived_box),
    }
}

// ---------------------------------------------------------------------------
// Overlay snapshots
// ---------------------------------------------------------------------------

pub open spec fn sat_sub(a: int, b: int) -> int {
    if a >= b { a - b } else { 0 }
}

/// A derived box as a measured one, shifted by the textarea's scroll offsets.
pub open spec fn measured_from_box(b: EditorOverlayBox, metrics: TextareaMeasurementMetrics) -> EditorMeasuredOverlayBox {
    EditorMeasuredOverlayBox {
        top_px: sat_sub(b.top_px as int, metrics.scroll_top_px as int) as usize,
        left_px: sat_sub(b.left_px as int, metrics.scroll_left_px as int) as usize,
        width_px: b.width_px,
        height_px: b.height_px,
        line_index: b.start.line_index,
        column_index: b.start.column_index,
    }
}

/// A span cut back to the text: offsets past the end lie on the last
/// line anyway, so the cut box equals the uncut one.
pub open spec fn clamp_span(s: Seq<char>, span: FormulaTextSpan) -> FormulaTextSpan {
    let start = min_nat(span.start as int, s.len() as int);
    FormulaTextSpan { start: start as usize, len: min_nat(span.len as int, s.len() - start) as usize }
}

pub open spec fn grid_of(metrics: TextareaMeasurementMetrics) -> EditorOverlayMeasurement {
    EditorOverlayMeasurement {
        source: EditorOverlayMeasurementSource::DerivedGrid,
        char_width_px: metrics.char_width_px,
        line_height_px: metrics.line_height_px,
    }
}

pub open spec fn span_snapshot_box(s: Seq<char>, span: FormulaTextSpan, metrics: TextareaMeasurementMetrics) -> EditorMeasuredOverlayBox {
    measured_from_box(grid_of(metrics).span_box_spec(s, clamp_span(s, span)), metrics)
}

/// The overlay geometry for the caret, a non-empty selection, the
/// completion anchor and the signature-help anchor on the given grid.
pub open spec fn overlay_snapshot(
    s: Seq<char>,
    caret_offset: int,
    selection: FormulaTextSpan,
    completion_anchor: Option<FormulaTextSpan>,
    signature_help_anchor: Option<FormulaTextSpan>,
    metrics: TextareaMeasurementMetrics,
) -> EditorOverlayGeometrySnapshot {
    EditorOverlayGeometrySnapshot {
        caret_box: Some(measured_from_box(grid_of(metrics).offset_box_spec(s, caret_offset), metrics)),
        selection_box: if selection.len == 0 { None } else { Some(span_snapshot_box(s, selection, metrics)) },
        completion_anchor_box: match completion_anchor {
            Some(span) => Some(span_snapshot_box(s, span, metrics)),
            None => None,
        },
        signature_help_anchor_box: match signature_help_anchor {
            Some(span) => Some(span_snapshot_box(s, span, metrics)),
            None => None,
        },
    }
}

/// The grid metrics fit a text of this length: every pixel offset stays
/// within `usize`.
pub open spec fn metrics_fit(s: Seq<char>, metrics: TextareaMeasurementMetrics) -> bool {
    &&& s.len() + 1 <= usize::MAX
    &&& (s.len() + 1) * max_nat(metrics.char_width_px as int, metrics.line_height_px as int) <= usize::MAX
}

/// The metrics of the derived character grid, unscrolled.
pub open spec fn derived_metrics() -> TextareaMeasurementMetrics {
    TextareaMeasurementMetrics {
        char_width_px: DERIVED_CHAR_WIDTH_PX,
        line_height_px: DERIVED_LINE_HEIGHT_PX,
        scroll_top_px: 0,
        scroll_left_px: 0,
    }
}

proof fn lemma_newline_count_le(s: Seq<char>)
    ensures
        newline_count(s) <= s.len(),
    decreases s.len(),
{
    if s.len() > 0 {
        lemma_newline_count_le(s.drop_last());
    }
}

proof fn lemma_line_column_bounds(s: Seq<char>, off: int)
    requires
        off >= 0,
    ensures
        line_column(s, off).line_index <= s.len(),
        line_column(s, off).column_index <= s.len(),
{
    let p = min_nat(off, s.len() as int);
    lemma_newline_count_le(s.take(p));
    lemma_line_start_at_bounds(s, p);
}

proof fn lemma_mul_le(x: int, y: int, a: int, b: int)
    requires
        0 <= x <= a,
        0 <= y <= b,
    ensures
        x * y <= a * b,
{
    assert(x * y <= a * b) by (nonlinear_arith)
        requires
            0 <= x <= a,
            0 <= y <= b,
    ;
}

/// Within the text, the grid's boxes fit in `usize`.
pub proof fn lemma_boxes_fit(s: Seq<char>, off: int, span: FormulaTextSpan, metrics: TextareaMeasurementMetrics)
    requires
        off >= 0,
        metrics_fit(s, metrics),
        span.start + span.len <= usize::MAX,
    ensures
        grid_of(metrics).offset_box_fits(s, off),
        grid_of(metrics).span_box_fits(s, span),
{
    let m = grid_of(metrics);
    let big = s.len() as int + 1;
    let w = max_nat(metrics.char_width_px as int, metrics.line_height_px as int);
    lemma_line_column_bounds(s, off);
    lemma_line_column_bounds(s, span.start as int);
    lemma_line_column_bounds(s, span.start + span.len);
    let lc = line_column(s, off);
    let a = line_column(s, span.start as int);
    lemma_mul_le(lc.line_index as int, metrics.line_height_px as int, big, w);
    lemma_mul_le(lc.column_index as int, metrics.char_width_px as int, big, w);
    lemma_mul_le(a.line_index as int, metrics.line_height_px as int, big, w);
    lemma_mul_le(a.column_index as int, metrics.char_width_px as int, big, w);
    lemma_mul_le(m.span_columns(s, span), metrics.char_width_px as int, big, w);
    lemma_mul_le(m.span_lines(s, span), metrics.line_height_px as int, big, w);
}

fn measured_box(b: EditorOverlayBox, metrics: &TextareaMeasurementMetrics) -> (r: EditorMeasuredOverlayBox)
    ensures
        r == measured_from_box(b, *metrics),
{
    EditorMeasuredOverlayBox {
        top_px: b.top_px.saturating_sub(metrics.scroll_top_px),
        left_px: b.left_px.saturating_sub(metrics.scroll_left_px),
        width_px: b.width_px,
        height_px: b.height_px,
        line_index: b.start.line_index,
        column_index: b.start.column_index,
    }
}

fn span_box_in_text(text: &str, text_len: usize, span: FormulaTextSpan, metrics: &TextareaMeasurementMetrics)
    -> (r: EditorMeasuredOverlayBox)
    requires
        text_len == text@.len(),
        metrics_fit(text@, *metrics),
    ensures
        r == span_snapshot_box(text@, span, *metrics),
{
    let start = if span.start <= text_len { span.start } else { text_len };
    let len = if span.len <= text_len - start { span.len } else { text_len - start };
    let clamped = FormulaTextSpan { start, len };
    let grid = EditorOverlayMeasurement {
        source: EditorOverlayMeasurementSource::DerivedGrid,
        char_width_px: metrics.char_width_px,
        line_height_px: metrics.line_height_px,
    };
    proof {
        lemma_boxes_fit(text@, 0, clamped, *metrics);
    }
    measured_box(grid.span_box(text, clamped), metrics)
}

/// The overlay geometry on a measured character grid. The choices made
/// here are this crate's own: every box is shifted up and left by the
/// textarea's scroll offsets, saturating at zero; spans are cut back to the
/// text before they are boxed, which moves no box (see
/// `law_clamped_span_box_unchanged`) but keeps the arithmetic in range; a
/// collapsed selection has no box, while the caret always has one.
pub fn derive_overlay_snapshot_with_metrics(
    text: &str,
    caret_offset: usize,
    selection: FormulaTextSpan,
    completion_anchor_span: Option<FormulaTextSpan>,
    signature_help_span: Option<FormulaTextSpan>,
    metrics: TextareaMeasurementMetrics,
) -> (r: EditorOverlayGeometrySnapshot)
    requires
        metrics_fit(text@, metrics),
    ensures
        r == overlay_snapshot(text@, caret_offset as int, selection, completion_anchor_span, signature_help_span, metrics),
{
    let text_len = text.unicode_len();
    let grid = EditorOverlayMeasurement {
        source: EditorOverlayMeasurementSource::DerivedGrid,
        char_width_px: metrics.char_width_px,
        line_height_px: metrics.line_height_px,
    };
    proof {
        lemma_boxes_fit(text@, caret_offset as int, FormulaTextSpan { start: 0, len: 0 }, metrics);
    }
    let caret_box = Some(measured_box(grid.offset_box(text, caret_offset), &metrics));
    let selection_box = if selection.len == 0 {
        None
    } else {
        Some(span_box_in_text(text, text_len, selection, &metrics))
    };
    let completion_anchor_box = match completion_anchor_span {
        Some(span) => Some(span_box_in_text(text, text_len, span, &metrics)),
        None => None,
    };
    let signature_help_anchor_box = match signature_help_span {
        Some(span) => Some(span_box_in_text(text, text_len, span, &metrics)),
        None => None,
    };
    EditorOverlayGeometrySnapshot { caret_box, selection_box, completion_anchor_box, signature_help_anchor_box }
}

/// The overlay geometry on the derived character grid, unscrolled: the
/// same choices as `derive_overlay_snapshot_with_metrics`.
pub fn derive_overlay_snapshot(
    text: &str,
    caret_offset: usize,
    selection: FormulaTextSpan,
    completion_anchor_span: Option<FormulaTextSpan>,
    signature_help_span: Option<FormulaTextSpan>,
) -> (r: EditorOverlayGeometrySnapshot)
    requires
        metrics_fit(text@, derived_metrics()),
    ensures
        r == overlay_snapshot(text@, caret_offset as int, selection, completion_anchor_span, signature_help_span, derived_metrics()),
{
    derive_overlay_snapshot_with_metrics(
        text,
        caret_offset,
        selection,
        completion_anchor_span,
        signature_help_span,
        TextareaMeasurementMetrics {
            char_width_px: DERIVED_CHAR_WIDTH_PX,
            line_height_px: DERIVED_LINE_HEIGHT_PX,
            scroll_top_px: 0,
            scroll_left_px: 0,
        },
    )
}

/// Cutting a span back to the text does not move its box: offsets past the
/// end already lie after the last char.
pub proof fn law_clamped_span_box_unchanged(m: EditorOverlayMeasurement, s: Seq<char>, span: FormulaTextSpan)
    ensures
        line_column(s, clamp_span(s, span).start as int) == line_column(s, span.start as int),
        line_column(s, clamp_span(s, span).start + clamp_span(s, span).len) == line_column(s, span.start + span.len),
        m.span_box_spec(s, clamp_span(s, span)) == m.span_box_spec(s, span),
{
}

/// A line starts at column zero, on the line after as many line breaks as
/// precede it.
pub proof fn law_line_start_is_column_zero(s: Seq<char>, k: int)
    requires
        0 <= k <= s.len(),
        s.len() <= usize::MAX,
        is_line_start(s, k),
    ensures
        line_column(s, k).column_index == 0,
        line_column(s, k).line_index == newline_count(s.take(k)),
{
    lemma_newline_count_le(s.take(k));
}

/// Line and column walk the text char by char: offset 0 is line 0,
/// column 0; stepping over a line break starts the next line at column 0,
/// stepping over any other char moves one column right; offsets past the
/// end sit where the end does.
pub proof fn law_line_column_steps(s: Seq<char>, off: int)
    requires
        0 <= off,
        s.len() <= usize::MAX,
    ensures
        line_column(s, 0) == (EditorLineColumn { line_index: 0, column_index: 0 }),
        off < s.len() && s[off] == '\n' ==> line_column(s, off + 1) == (EditorLineColumn {
            line_index: (line_column(s, off).line_index + 1) as usize,
            column_index: 0,
        }),
        off < s.len() && s[off] != '\n' ==> line_column(s, off + 1) == (EditorLineColumn {
            line_index: line_column(s, off).line_index,
            column_index: (line_column(s, off).column_index + 1) as usize,
        }),
        off >= s.len() ==> line_column(s, off) == line_column(s, s.len() as int),
{
    assert(s.take(0) =~= Seq::<char>::empty());
    if off < s.len() {
        assert(s.take(off + 1).drop_last() =~= s.take(off));
        lemma_newline_count_le(s.take(off + 1));
        lemma_line_start_at_bounds(s, off);
        lemma_line_start_at_bounds(s, off + 1);
    }
}

proof fn lemma_line_column_advance(s: Seq<char>, a: int, m: int)
    requires
        0 <= a,
        0 <= m,
        a + m <= s.len(),
        s.len() <= usize::MAX,
        forall|k: int| a <= k < a + m ==> s[k] != '\n',
    ensures
        line_column(s, a + m).line_index == line_column(s, a).line_index,
        line_column(s, a + m).column_index == line_column(s, a).column_index + m,
    decreases m,
{
    if m > 0 {
        lemma_line_column_advance(s, a, m - 1);
        law_line_column_steps(s, a + m - 1);
        lemma_line_column_bounds(s, a + m - 1);
        lemma_line_start_at_bounds(s, a + m - 1);
        assert(line_column(s, a + m - 1).column_index < s.len()) by {
            let p = a + m - 1;
            assert(p - line_start_at(s, p) <= p);
        }
    }
}

/// A span on one line is boxed from its first char's cell, one cell wide
/// per char and one line tall.
pub proof fn law_single_line_span_box(m: EditorOverlayMeasurement, s: Seq<char>, span: FormulaTextSpan)
    requires
        span.len >= 1,
        span.start + span.len <= s.len(),
        s.len() <= usize::MAX,
        forall|k: int| span.start <= k < span.start + span.len ==> s[k] != '\n',
    ensures
        m.span_box_spec(s, span).start == line_column(s, span.start as int),
        m.span_columns(s, span) == span.len,
        m.span_lines(s, span) == 1,
        m.span_box_spec(s, span).width_px == (span.len * m.char_width_px) as usize,
        m.span_box_spec(s, span).height_px == m.line_height_px,
        m.span_box_spec(s, span).top_px == (line_column(s, span.start as int).line_index * m.line_height_px) as usize,
        m.span_box_spec(s, span).left_px == (line_column(s, span.start as int).column_index * m.char_width_px) as usize,
{
    lemma_line_column_advance(s, span.start as int, span.len as int);
}

} // verus!
