//! The formula editor's caret, selection and scroll window.
use vstd::prelude::*;

use crate::text::chars_of;

verus! {

/// The number of `'\n'` chars in `s`.
pub open spec fn newline_count(s: Seq<char>) -> nat
    decreases s.len(),
{
    if s.len() == 0 {
        0
    } else {
        newline_count(s.drop_last()) + if s.last() == '\n' { 1nat } else { 0nat }
    }
}

/// The number of lines that std's `str::lines` yields for `s`: none for the
/// empty text, and a final line ending adds no empty last line.
pub open spec fn line_count(s: Seq<char>) -> nat {
    if s.len() == 0 {
        0
    } else if s.last() == '\n' {
        newline_count(s)
    } else {
        newline_count(s) + 1
    }
}

pub open spec fn min_nat(a: int, b: int) -> int {
    if a <= b { a } else { b }
}

pub open spec fn max_nat(a: int, b: int) -> int {
    if a >= b { a } else { b }
}

/// The most lines the scroll window shows at once.
pub const VISIBLE_LINE_LIMIT: usize = 12;

/// Whether the editor is idle or being edited with live evaluation.
#[derive(Debug, Clone, Copy, PartialEq, Eq, Structural)]
pub enum EditorLiveState {
    Idle,
    EditingLive,
}

#[derive(Debug, Clone, Copy, PartialEq, Eq, Structural)]
pub struct EditorCaret {
    pub offset: usize,
}

#[derive(Debug, Clone, Copy, PartialEq, Eq, Structural)]
pub struct EditorSelection {
    pub anchor: usize,
    pub focus: usize,
}

impl EditorSelection {
    pub open spec fn spec_start(self) -> int {
        min_nat(self.anchor as int, self.focus as int)
    }

    pub open spec fn spec_end(self) -> int {
        max_nat(self.anchor as int, self.focus as int)
    }

    /// An empty selection at `offset`.
    pub fn collapsed(offset: usize) -> (r: Self)
        ensures
            r.anchor == offset,
            r.focus == offset,
    {
        Self { anchor: offset, focus: offset }
    }

    /// The smaller of anchor and focus.
    pub fn start(&self) -> (r: usize)
        ensures
            r == self.spec_start(),
    {
        if self.anchor <= self.focus { self.anchor } else { self.focus }
    }

    /// The larger of anchor and focus.
    pub fn end(&self) -> (r: usize)
        ensures
            r == self.spec_end(),
    {
        if self.anchor >= self.focus { self.anchor } else { self.focus }
    }

    pub fn is_collapsed(&self) -> (r: bool)
        ensures
            r == (self.anchor == self.focus),
    {
        self.anchor == self.focus
    }
}

#[derive(Debug, Clone, Copy, PartialEq, Eq, Structural)]
pub struct EditorScrollWindow {
    pub first_visible_line: usize,
    pub visible_line_count: usize,
}

#[derive(Debug, Clone, Copy, PartialEq, Eq, Structural)]
pub struct EditorSurfaceState {
    pub caret: EditorCaret,
    pub selection: EditorSelection,
    pub scroll_window: EditorScrollWindow,
    pub completion_anchor_offset: Option<usize>,
    pub signature_help_anchor_offset: Option<usize>,
    pub completion_selected_index: Option<usize>,
}

/// The surface state that `for_text_with_selection` builds.
pub open spec fn surface_state_for(text: Seq<char>, anchor: int, focus: int) -> EditorSurfaceState {
    let len = text.len() as int;
    let a = min_nat(anchor, len);
    let f = min_nat(focus, len);
    EditorSurfaceState {
        caret: EditorCaret { offset: f as usize },
        selection: EditorSelection { anchor: a as usize, focus: f as usize },
        scroll_window: EditorScrollWindow {
            first_visible_line: 0,
            visible_line_count: min_nat(max_nat(line_count(text) as int, 1), VISIBLE_LINE_LIMIT as int) as usize,
        },
        completion_anchor_offset: None,
        signature_help_anchor_offset: None,
        completion_selected_index: None,
    }
}

/// The number of lines of `text`, as `str::lines` counts them.
pub fn count_lines(text: &Vec<char>) -> (r: usize)
    ensures
        r == line_count(text@),
{
    let mut newlines: usize = 0;
    let mut i: usize = 0;
    while i < text.len()
        invariant
            i <= text@.len(),
            newlines == newline_count(text@.take(i as int)),
            newlines <= i,
            i > 0 && text@[i - 1] != '\n' ==> newlines < i,
        decreases text@.len() - i,
    {
        assert(text@.take(i + 1).drop_last() =~= text@.take(i as int));
        if text[i] == '\n' {
            newlines += 1;
        }
        i += 1;
    }
    assert(text@.take(text@.len() as int) =~= text@);
    if text.len() == 0 {
        0
    } else if text[text.len() - 1] == '\n' {
        newlines
    } else {
        newlines + 1
    }
}

impl EditorSurfaceState {
    /// The state for a freshly loaded text: caret and empty selection at its end.
    pub fn for_text(text: &str) -> (r: Self)
        ensures
            r == surface_state_for(text@, text@.len() as int, text@.len() as int),
    {
        let offset = text.unicode_len();
        Self::for_text_with_selection(text, offset, offset)
    }

    /// The state for `text` with the given selection, each end clamped to the
    /// text's length; the caret sits at the focus.
    pub fn for_text_with_selection(text: &str, anchor: usize, focus: usize) -> (r: Self)
        ensures
            r == surface_state_for(text@, anchor as int, focus as int),
    {
        let chars = chars_of(text);
        let text_len = chars.len();
        let anchor = if anchor <= text_len { anchor } else { text_len };
        let focus = if focus <= text_len { focus } else { text_len };
        let lines = count_lines(&chars);
        let lines = if lines >= 1 { lines } else { 1 };
        let visible = if lines <= VISIBLE_LINE_LIMIT { lines } else { VISIBLE_LINE_LIMIT };
        Self {
            caret: EditorCaret { offset: focus },
            selection: EditorSelection { anchor, focus },
            scroll_window: EditorScrollWindow { first_visible_line: 0, visible_line_count: visible },
            completion_anchor_offset: None,
            signature_help_anchor_offset: None,
            completion_selected_index: None,
        }
    }
}

} // verus!
