//! Editor commands: caret moves and line indentation.
use vstd::prelude::*;

use crate::text::{chars_of, push_char, str_equals};
use crate::ui::editor::state::{
    min_nat, EditorCaret, EditorSelection, EditorSurfaceState,
};

verus! {

#[derive(Debug, Clone, Copy, PartialEq, Eq, Structural)]
pub enum EditorCommand {
    MoveCaretLeft,
    MoveCaretRight,
    IndentWithSpaces,
    OutdentWithSpaces,
}

/// What kind of edit an input event carries.
#[derive(Debug, Clone, Copy, PartialEq, Eq, Structural)]
pub enum EditorInputKind {
    /// Text was inserted (typed, pasted or accepted from a completion).
    InsertText,
    /// Only the caret or selection moved; the text is unchanged.
    CaretSync,
    Other,
}

/// The textarea's text and selection after an edit.
#[derive(Debug, Clone, PartialEq, Eq)]
pub struct EditorInputEvent {
    pub text: String,
    pub selection_start: Option<usize>,
    pub selection_end: Option<usize>,
    pub input_kind: EditorInputKind,
    pub inserted_text: Option<String>,
}

#[derive(Debug, Clone, PartialEq, Eq)]
pub struct EditorCommandResult {
    pub text: String,
    pub state: EditorSurfaceState,
}

/// The width of one indentation step, in spaces.
pub const INDENT_WIDTH: usize = 4;

// ---------------------------------------------------------------------------
// Lines
// ---------------------------------------------------------------------------

/// `k` is the offset at which a line of `s` begins.
pub open spec fn is_line_start(s: Seq<char>, k: int) -> bool {
    k == 0 || (0 < k <= s.len() && s[k - 1] == '\n')
}

/// The start of the line that holds offset `off`; an offset past the end
/// belongs to the last line.
pub open spec fn line_start_at(s: Seq<char>, off: int) -> int
    decreases off,
{
    if off <= 0 {
        0
    } else if off - 1 < s.len() && s[off - 1] == '\n' {
        off
    } else {
        line_start_at(s, off - 1)
    }
}

/// A line of `s` starting at `k` lies in the line range `lo..=hi`.
pub open spec fn is_selected_line(s: Seq<char>, lo: int, hi: int, k: int) -> bool {
    is_line_start(s, k) && lo <= k <= hi
}

/// The first and last selected line starts for a selection.
pub open spec fn selection_lines(s: Seq<char>, sel: EditorSelection) -> (int, int) {
    (line_start_at(s, sel.spec_start()), line_start_at(s, sel.spec_end()))
}

/// The number of selected line starts below `m`.
pub open spec fn selected_count(s: Seq<char>, lo: int, hi: int, m: int) -> nat
    decreases m,
{
    if m <= 0 {
        0
    } else {
        selected_count(s, lo, hi, m - 1) + if is_selected_line(s, lo, hi, m - 1) { 1nat } else { 0nat }
    }
}

pub open spec fn indent_spaces() -> Seq<char> {
    seq![' ', ' ', ' ', ' ']
}

/// What indentation inserts before offset `i`.
pub open spec fn indent_pad(s: Seq<char>, lo: int, hi: int, i: int) -> Seq<char> {
    if is_selected_line(s, lo, hi, i) { indent_spaces() } else { Seq::empty() }
}

/// The indented text of the first `m` chars of `s`.
pub open spec fn indent_prefix(s: Seq<char>, lo: int, hi: int, m: int) -> Seq<char>
    decreases m,
{
    if m <= 0 {
        Seq::empty()
    } else {
        indent_prefix(s, lo, hi, m - 1) + indent_pad(s, lo, hi, m - 1) + seq![s[m - 1]]
    }
}

/// `s` with four spaces inserted at the start of each line in `lo..=hi`.
pub open spec fn indent_text(s: Seq<char>, lo: int, hi: int) -> Seq<char> {
    indent_prefix(s, lo, hi, s.len() as int) + indent_pad(s, lo, hi, s.len() as int)
}

/// Where offset `p` moves when the lines `lo..=hi` are indented: four places
/// further per indented line that starts at or before it.
pub open spec fn indent_shift(s: Seq<char>, lo: int, hi: int, p: int) -> int {
    p + 4 * selected_count(s, lo, hi, min_nat(p, s.len() as int) + 1)
}

/// The number of spaces at the start of `s[k..]`.
pub open spec fn leading_spaces(s: Seq<char>, k: int) -> nat
    decreases s.len() - k,
{
    if 0 <= k < s.len() && s[k] == ' ' {
        1 + leading_spaces(s, k + 1)
    } else {
        0
    }
}

/// How many spaces outdenting removes from the line starting at `k`.
pub open spec fn outdent_removal(s: Seq<char>, lo: int, hi: int, k: int) -> int {
    if is_selected_line(s, lo, hi, k) {
        min_nat(4, leading_spaces(s, k) as int)
    } else {
        0
    }
}

/// Outdenting removes the char at offset `i`.
pub open spec fn is_outdent_removed(s: Seq<char>, lo: int, hi: int, i: int) -> bool {
    0 <= i < s.len() && i - line_start_at(s, i) < outdent_removal(s, lo, hi, line_start_at(s, i))
}

/// The outdented text of the first `m` chars of `s`.
pub open spec fn outdent_prefix(s: Seq<char>, lo: int, hi: int, m: int) -> Seq<char>
    decreases m,
{
    if m <= 0 {
        Seq::empty()
    } else if is_outdent_removed(s, lo, hi, m - 1) {
        outdent_prefix(s, lo, hi, m - 1)
    } else {
        outdent_prefix(s, lo, hi, m - 1).push(s[m - 1])
    }
}

/// `s` with up to four leading spaces removed from each line in `lo..=hi`.
pub open spec fn outdent_text(s: Seq<char>, lo: int, hi: int) -> Seq<char> {
    outdent_prefix(s, lo, hi, s.len() as int)
}

/// The number of removed chars below offset `m`.
pub open spec fn removed_count(s: Seq<char>, lo: int, hi: int, m: int) -> nat
    decreases m,
{
    if m <= 0 {
        0
    } else {
        removed_count(s, lo, hi, m - 1) + if is_outdent_removed(s, lo, hi, m - 1) { 1nat } else { 0nat }
    }
}

/// Where offset `p` moves when the lines `lo..=hi` are outdented: one place
/// back per removed char before it.
pub open spec fn outdent_shift(s: Seq<char>, lo: int, hi: int, p: int) -> int {
    p - removed_count(s, lo, hi, min_nat(p, s.len() as int))
}

// ---------------------------------------------------------------------------
// Command results
// ---------------------------------------------------------------------------

pub open spec fn with_caret(state: EditorSurfaceState, caret: int) -> EditorSurfaceState {
    EditorSurfaceState {
        caret: EditorCaret { offset: caret as usize },
        selection: EditorSelection { anchor: caret as usize, focus: caret as usize },
        ..state
    }
}

pub open spec fn indent_state(s: Seq<char>, state: EditorSurfaceState) -> EditorSurfaceState {
    let (lo, hi) = selection_lines(s, state.selection);
    EditorSurfaceState {
        caret: EditorCaret { offset: indent_shift(s, lo, hi, state.caret.offset as int) as usize },
        selection: EditorSelection {
            anchor: indent_shift(s, lo, hi, state.selection.anchor as int) as usize,
            focus: indent_shift(s, lo, hi, state.selection.focus as int) as usize,
        },
        ..state
    }
}

pub open spec fn outdent_state(s: Seq<char>, state: EditorSurfaceState) -> EditorSurfaceState {
    let (lo, hi) = selection_lines(s, state.selection);
    EditorSurfaceState {
        caret: EditorCaret { offset: outdent_shift(s, lo, hi, state.caret.offset as int) as usize },
        selection: EditorSelection {
            anchor: outdent_shift(s, lo, hi, state.selection.anchor as int) as usize,
            focus: outdent_shift(s, lo, hi, state.selection.focus as int) as usize,
        },
        ..state
    }
}

/// The text and state that a command yields.
pub open spec fn command_result(
    s: Seq<char>,
    state: EditorSurfaceState,
    command: EditorCommand,
) -> (Seq<char>, EditorSurfaceState) {
    match command {
        EditorCommand::MoveCaretLeft => (
            s,
            with_caret(state, if state.caret.offset == 0 { 0 } else { state.caret.offset - 1 }),
        ),
        EditorCommand::MoveCaretRight => (
            s,
            with_caret(state, min_nat(state.caret.offset + 1, s.len() as int)),
        ),
        EditorCommand::IndentWithSpaces => {
            let (lo, hi) = selection_lines(s, state.selection);
            (indent_text(s, lo, hi), indent_state(s, state))
        },
        EditorCommand::OutdentWithSpaces => {
            let (lo, hi) = selection_lines(s, state.selection);
            (outdent_text(s, lo, hi), outdent_state(s, state))
        },
    }
}

/// The inputs on which a command's offsets fit in `usize`.
pub open spec fn command_fits(s: Seq<char>, state: EditorSurfaceState, command: EditorCommand) -> bool {
    match command {
        EditorCommand::MoveCaretRight => state.caret.offset < usize::MAX,
        EditorCommand::IndentWithSpaces => {
            let (lo, hi) = selection_lines(s, state.selection);
            &&& indent_shift(s, lo, hi, state.caret.offset as int) <= usize::MAX
            &&& indent_shift(s, lo, hi, state.selection.anchor as int) <= usize::MAX
            &&& indent_shift(s, lo, hi, state.selection.focus as int) <= usize::MAX
        },
        _ => true,
    }
}

// ---------------------------------------------------------------------------
// Lemmas
// ---------------------------------------------------------------------------

pub proof fn lemma_line_start_at_bounds(s: Seq<char>, off: int)
    ensures
        0 <= line_start_at(s, off),
        off >= 0 ==> line_start_at(s, off) <= off,
        line_start_at(s, off) <= s.len(),
        is_line_start(s, line_start_at(s, off)),
    decreases off,
{
    if off > 0 && !(off - 1 < s.len() && s[off - 1] == '\n') {
        lemma_line_start_at_bounds(s, off - 1);
    }
}

/// Past the end of the text every offset belongs to the last line.
pub proof fn lemma_line_start_at_clamp(s: Seq<char>, off: int)
    requires
        off >= s.len(),
    ensures
        line_start_at(s, off) == line_start_at(s, s.len() as int),
    decreases off,
{
    if off > s.len() {
        lemma_line_start_at_clamp(s, off - 1);
    }
}

pub proof fn lemma_selected_count_monotone(s: Seq<char>, lo: int, hi: int, m1: int, m2: int)
    requires
        m1 <= m2,
    ensures
        selected_count(s, lo, hi, m1) <= selected_count(s, lo, hi, m2),
    decreases m2 - m1,
{
    if m1 < m2 {
        lemma_selected_count_monotone(s, lo, hi, m1, m2 - 1);
    }
}

pub proof fn lemma_removed_count_le(s: Seq<char>, lo: int, hi: int, m: int)
    ensures
        m >= 0 ==> removed_count(s, lo, hi, m) <= m,
        removed_count(s, lo, hi, m) >= 0,
    decreases m,
{
    if m > 0 {
        lemma_removed_count_le(s, lo, hi, m - 1);
    }
}

pub proof fn lemma_removed_count_monotone(s: Seq<char>, lo: int, hi: int, m1: int, m2: int)
    requires
        m1 <= m2,
    ensures
        removed_count(s, lo, hi, m1) <= removed_count(s, lo, hi, m2),
    decreases m2 - m1,
{
    if m1 < m2 {
        lemma_removed_count_monotone(s, lo, hi, m1, m2 - 1);
    }
}

// ---------------------------------------------------------------------------
// Executable helpers
// ---------------------------------------------------------------------------

/// The start of the line holding `offset` (clamped to the text).
fn line_start_for_offset(text: &Vec<char>, offset: usize) -> (r: usize)
    ensures
        r == line_start_at(text@, offset as int),
{
    let mut current: usize = 0;
    let mut idx: usize = 0;
    while idx < text.len() && idx < offset
        invariant
            idx <= text@.len(),
            idx <= offset,
            current == line_start_at(text@, idx as int),
        decreases text@.len() - idx,
    {
        if text[idx] == '\n' {
            current = idx + 1;
        }
        idx += 1;
    }
    proof {
        if offset as int > text@.len() {
            lemma_line_start_at_clamp(text@, offset as int);
        }
    }
    current
}

fn is_line_start_exec(text: &Vec<char>, k: usize) -> (r: bool)
    requires
        k <= text@.len(),
    ensures
        r == is_line_start(text@, k as int),
{
    k == 0 || text[k - 1] == '\n'
}

/// The number of leading spaces at `line_start`, capped at four.
fn leading_spaces_at(text: &Vec<char>, line_start: usize) -> (r: usize)
    requires
        line_start <= text@.len(),
    ensures
        r == min_nat(4, leading_spaces(text@, line_start as int) as int),
{
    let mut j = line_start;
    while j < text.len() && text[j] == ' ' && j - line_start < 4
        invariant
            line_start <= j <= text@.len(),
            j - line_start <= 4,
            leading_spaces(text@, line_start as int) == (j - line_start) + leading_spaces(text@, j as int),
        decreases text@.len() - j,
    {
        j += 1;
    }
    j - line_start
}

// ---------------------------------------------------------------------------
// Commands
// ---------------------------------------------------------------------------

/// Applies an editor command to `text` and its surface state.
pub fn apply_editor_command(
    text: &str,
    state: &EditorSurfaceState,
    command: EditorCommand,
) -> (r: EditorCommandResult)
    requires
        command_fits(text@, *state, command),
    ensures
        (r.text@, r.state) == command_result(text@, *state, command),
{
    match command {
        EditorCommand::MoveCaretLeft => {
            let caret = state.caret.offset.saturating_sub(1);
            EditorCommandResult {
                text: text.to_owned(),
                state: EditorSurfaceState {
                    caret: EditorCaret { offset: caret },
                    selection: EditorSelection::collapsed(caret),
                    ..*state
                },
            }
        },
        EditorCommand::MoveCaretRight => {
            let len = text.unicode_len();
            let next = if state.caret.offset + 1 <= len { state.caret.offset + 1 } else { len };
            EditorCommandResult {
                text: text.to_owned(),
                state: EditorSurfaceState {
                    caret: EditorCaret { offset: next },
                    selection: EditorSelection::collapsed(next),
                    ..*state
                },
            }
        },
        EditorCommand::IndentWithSpaces => indent_with_spaces(text, state),
        EditorCommand::OutdentWithSpaces => outdent_with_spaces(text, state),
    }
}

pub open spec fn keydown_command(key: Seq<char>, shift_key: bool) -> Option<EditorCommand> {
    if key == "ArrowLeft"@ && !shift_key {
        Some(EditorCommand::MoveCaretLeft)
    } else if key == "ArrowRight"@ && !shift_key {
        Some(EditorCommand::MoveCaretRight)
    } else if key == "Tab"@ && !shift_key {
        Some(EditorCommand::IndentWithSpaces)
    } else if key == "Tab"@ && shift_key {
        Some(EditorCommand::OutdentWithSpaces)
    } else {
        None
    }
}

/// The command bound to a key press, if any.
pub fn keydown_to_command(key: &str, shift_key: bool) -> (r: Option<EditorCommand>)
    ensures
        r == keydown_command(key@, shift_key),
{
    if str_equals(key, "ArrowLeft") && !shift_key {
        Some(EditorCommand::MoveCaretLeft)
    } else if str_equals(key, "ArrowRight") && !shift_key {
        Some(EditorCommand::MoveCaretRight)
    } else if str_equals(key, "Tab") {
        if shift_key {
            Some(EditorCommand::OutdentWithSpaces)
        } else {
            Some(EditorCommand::IndentWithSpaces)
        }
    } else {
        None
    }
}

fn indent_with_spaces(text: &str, state: &EditorSurfaceState) -> (r: EditorCommandResult)
    requires
        command_fits(text@, *state, EditorCommand::IndentWithSpaces),
    ensures
        (r.text@, r.state) == command_result(text@, *state, EditorCommand::IndentWithSpaces),
{
    let chars = chars_of(text);
    let n = chars.len();
    let lo = line_start_for_offset(&chars, state.selection.start());
    let hi = line_start_for_offset(&chars, state.selection.end());
    let ghost s = chars@;
    let caret = state.caret.offset;
    let anchor = state.selection.anchor;
    let focus = state.selection.focus;
    let mut result = String::new();
    let mut inserted_before_caret: usize = 0;
    let mut inserted_before_anchor: usize = 0;
    let mut inserted_before_focus: usize = 0;
    proof {
        lemma_selected_count_monotone(s, lo as int, hi as int, 0, min_nat(caret as int, n as int) + 1);
        lemma_selected_count_monotone(s, lo as int, hi as int, 0, min_nat(anchor as int, n as int) + 1);
        lemma_selected_count_monotone(s, lo as int, hi as int, 0, min_nat(focus as int, n as int) + 1);
    }
    let mut i: usize = 0;
    while i < n
        invariant
            s == chars@,
            s == text@,
            n == s.len(),
            i <= n,
            lo == selection_lines(s, state.selection).0,
            hi == selection_lines(s, state.selection).1,
            caret == state.caret.offset,
            anchor == state.selection.anchor,
            focus == state.selection.focus,
            command_fits(text@, *state, EditorCommand::IndentWithSpaces),
            result@ == indent_prefix(s, lo as int, hi as int, i as int),
            inserted_before_caret == 4 * selected_count(s, lo as int, hi as int, min_nat(i as int, caret + 1)),
            inserted_before_anchor == 4 * selected_count(s, lo as int, hi as int, min_nat(i as int, anchor + 1)),
            inserted_before_focus == 4 * selected_count(s, lo as int, hi as int, min_nat(i as int, focus + 1)),
        decreases n - i,
    {
        let selected = is_line_start_exec(&chars, i) && lo <= i && i <= hi;
        proof {
            lemma_selected_count_monotone(s, lo as int, hi as int, min_nat(i as int + 1, caret + 1), min_nat(caret as int, n as int) + 1);
            lemma_selected_count_monotone(s, lo as int, hi as int, min_nat(i as int + 1, anchor + 1), min_nat(anchor as int, n as int) + 1);
            lemma_selected_count_monotone(s, lo as int, hi as int, min_nat(i as int + 1, focus + 1), min_nat(focus as int, n as int) + 1);
        }
        if selected {
            push_char(&mut result, ' ');
            push_char(&mut result, ' ');
            push_char(&mut result, ' ');
            push_char(&mut result, ' ');
            if i <= caret {
                inserted_before_caret += INDENT_WIDTH;
            }
            if i <= anchor {
                inserted_before_anchor += INDENT_WIDTH;
            }
            if i <= focus {
                inserted_before_focus += INDENT_WIDTH;
            }
        }
        push_char(&mut result, chars[i]);
        assert(result@ =~= indent_prefix(s, lo as int, hi as int, i as int + 1));
        i += 1;
    }
    // A selected line may also start at the very end of the text.
    let selected_end = is_line_start_exec(&chars, n) && lo <= n && n <= hi;
    proof {
        lemma_selected_count_monotone(s, lo as int, hi as int, min_nat(n as int + 1, caret + 1), min_nat(caret as int, n as int) + 1);
        lemma_selected_count_monotone(s, lo as int, hi as int, min_nat(n as int + 1, anchor + 1), min_nat(anchor as int, n as int) + 1);
        lemma_selected_count_monotone(s, lo as int, hi as int, min_nat(n as int + 1, focus + 1), min_nat(focus as int, n as int) + 1);
    }
    if selected_end {
        push_char(&mut result, ' ');
        push_char(&mut result, ' ');
        push_char(&mut result, ' ');
        push_char(&mut result, ' ');
        if n <= caret {
            inserted_before_caret += INDENT_WIDTH;
        }
        if n <= anchor {
            inserted_before_anchor += INDENT_WIDTH;
        }
        if n <= focus {
            inserted_before_focus += INDENT_WIDTH;
        }
    }
    assert(result@ =~= indent_text(s, lo as int, hi as int));
    EditorCommandResult {
        text: result,
        state: EditorSurfaceState {
            caret: EditorCaret { offset: caret + inserted_before_caret },
            selection: EditorSelection {
                anchor: anchor + inserted_before_anchor,
                focus: focus + inserted_before_focus,
            },
            ..*state
        },
    }
}

fn outdent_with_spaces(text: &str, state: &EditorSurfaceState) -> (r: EditorCommandResult)
    ensures
        (r.text@, r.state) == command_result(text@, *state, EditorCommand::OutdentWithSpaces),
{
    let chars = chars_of(text);
    let n = chars.len();
    let lo = line_start_for_offset(&chars, state.selection.start());
    let hi = line_start_for_offset(&chars, state.selection.end());
    let ghost s = chars@;
    let caret = state.caret.offset;
    let anchor = state.selection.anchor;
    let focus = state.selection.focus;
    let mut result = String::new();
    let mut removed_before_caret: usize = 0;
    let mut removed_before_anchor: usize = 0;
    let mut removed_before_focus: usize = 0;
    let mut line_start: usize = 0;
    let mut removal: usize = 0;
    let mut i: usize = 0;
    while i < n
        invariant
            s == chars@,
            s == text@,
            n == s.len(),
            i <= n,
            lo == selection_lines(s, state.selection).0,
            hi == selection_lines(s, state.selection).1,
            caret == state.caret.offset,
            anchor == state.selection.anchor,
            focus == state.selection.focus,
            i > 0 ==> line_start == line_start_at(s, i - 1),
            i > 0 ==> removal == outdent_removal(s, lo as int, hi as int, line_start as int),
            line_start <= n,
            result@ == outdent_prefix(s, lo as int, hi as int, i as int),
            removed_before_caret == removed_count(s, lo as int, hi as int, min_nat(i as int, caret as int)),
            removed_before_anchor == removed_count(s, lo as int, hi as int, min_nat(i as int, anchor as int)),
            removed_before_focus == removed_count(s, lo as int, hi as int, min_nat(i as int, focus as int)),
        decreases n - i,
    {
        if is_line_start_exec(&chars, i) {
            line_start = i;
            removal = if lo <= i && i <= hi { leading_spaces_at(&chars, i) } else { 0 };
        }
        proof {
            lemma_line_start_at_bounds(s, i as int);
            lemma_removed_count_le(s, lo as int, hi as int, min_nat(i as int, caret as int));
            lemma_removed_count_le(s, lo as int, hi as int, min_nat(i as int, anchor as int));
            lemma_removed_count_le(s, lo as int, hi as int, min_nat(i as int, focus as int));
        }
        assert(line_start == line_start_at(s, i as int));
        let removed = i - line_start < removal;
        assert(removed == is_outdent_removed(s, lo as int, hi as int, i as int));
        if removed {
            if i < caret {
                removed_before_caret += 1;
            }
            if i < anchor {
                removed_before_anchor += 1;
            }
            if i < focus {
                removed_before_focus += 1;
            }
        } else {
            push_char(&mut result, chars[i]);
        }
        i += 1;
    }
    proof {
        lemma_removed_count_le(s, lo as int, hi as int, min_nat(caret as int, n as int));
        lemma_removed_count_le(s, lo as int, hi as int, min_nat(anchor as int, n as int));
        lemma_removed_count_le(s, lo as int, hi as int, min_nat(focus as int, n as int));
    }
    EditorCommandResult {
        text: result,
        state: EditorSurfaceState {
            caret: EditorCaret { offset: caret - removed_before_caret },
            selection: EditorSelection {
                anchor: anchor - removed_before_anchor,
                focus: focus - removed_before_focus,
            },
            ..*state
        },
    }
}

} // verus!
