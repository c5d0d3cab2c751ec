//! Laws that relate the editor commands to one another.
use vstd::prelude::*;

use crate::ui::editor::commands::{
    command_fits, command_result, keydown_command, indent_prefix, indent_shift, indent_state, indent_text,
    indent_pad, is_line_start, is_outdent_removed, is_selected_line, leading_spaces,
    lemma_line_start_at_bounds, lemma_line_start_at_clamp, lemma_removed_count_le,
    lemma_selected_count_monotone,
    line_start_at, outdent_prefix, outdent_shift, outdent_state, outdent_text, removed_count,
    selected_count, selection_lines, EditorCommand,
};
use crate::ui::editor::state::{min_nat, EditorSurfaceState};

verus! {

/// Where the line starting at `k` begins once the lines `lo..=hi` are indented.
pub open spec fn indented_line_start(s: Seq<char>, lo: int, hi: int, k: int) -> int {
    k + 4 * selected_count(s, lo, hi, k)
}

/// Where the char at offset `k` lands once the lines `lo..=hi` are indented.
pub open spec fn indented_offset(s: Seq<char>, lo: int, hi: int, k: int) -> int {
    k + 4 * selected_count(s, lo, hi, k + 1)
}

proof fn lemma_selected_count_step(s: Seq<char>, lo: int, hi: int, k: int)
    requires
        k >= 0,
    ensures
        selected_count(s, lo, hi, k + 1) == selected_count(s, lo, hi, k)
            + if is_selected_line(s, lo, hi, k) { 1nat } else { 0nat },
{
}

proof fn lemma_indented_line_start_strict(s: Seq<char>, lo: int, hi: int, k1: int, k2: int)
    requires
        k1 < k2,
    ensures
        indented_line_start(s, lo, hi, k1) < indented_line_start(s, lo, hi, k2),
{
    lemma_selected_count_monotone(s, lo, hi, k1, k2);
}

/// The shape of the indented prefix: its length, where each original char
/// sits, and the four spaces in front of each selected line.
proof fn lemma_indent_prefix_shape(s: Seq<char>, lo: int, hi: int, m: int)
    requires
        0 <= m <= s.len(),
    ensures
        indent_prefix(s, lo, hi, m).len() == indented_line_start(s, lo, hi, m),
        forall|i: int| 0 <= i < m ==> #[trigger] indent_prefix(s, lo, hi, m)[indented_offset(s, lo, hi, i)] == s[i],
        forall|i: int, j: int|
            0 <= i < m && is_selected_line(s, lo, hi, i) && 0 <= j < 4
                ==> #[trigger] indent_prefix(s, lo, hi, m)[indented_line_start(s, lo, hi, i) + j] == ' ',
    decreases m,
{
    if m > 0 {
        lemma_indent_prefix_shape(s, lo, hi, m - 1);
        lemma_selected_count_step(s, lo, hi, m - 1);
        let prev = indent_prefix(s, lo, hi, m - 1);
        let cur = indent_prefix(s, lo, hi, m);
        assert(cur == prev + indent_pad(s, lo, hi, m - 1) + seq![s[m - 1]]);
        assert forall|i: int| 0 <= i < m implies #[trigger] cur[indented_offset(s, lo, hi, i)] == s[i] by {
            if i < m - 1 {
                lemma_selected_count_monotone(s, lo, hi, i + 1, m - 1);
                assert(cur[indented_offset(s, lo, hi, i)] == prev[indented_offset(s, lo, hi, i)]);
            }
        }
        assert forall|i: int, j: int|
            0 <= i < m && is_selected_line(s, lo, hi, i) && 0 <= j < 4
            implies #[trigger] cur[indented_line_start(s, lo, hi, i) + j] == ' ' by {
            if i < m - 1 {
                lemma_selected_count_step(s, lo, hi, i);
                lemma_selected_count_monotone(s, lo, hi, i + 1, m - 1);
                assert(cur[indented_line_start(s, lo, hi, i) + j] == prev[indented_line_start(s, lo, hi, i) + j]);
            }
        }
    }
}

/// Indentation inserts four spaces in front of each selected line and
/// keeps every original char, in order: the indented text is four chars
/// longer per selected line, each char of the original sits at its shifted
/// offset, and the four places in front of each selected line hold spaces.
pub proof fn law_indent_inserts_four_spaces_per_line(s: Seq<char>, lo: int, hi: int)
    ensures
        indent_text(s, lo, hi).len() == indented_offset(s, lo, hi, s.len() as int),
        forall|i: int| 0 <= i < s.len() ==> #[trigger] indent_text(s, lo, hi)[indented_offset(s, lo, hi, i)] == s[i],
        forall|i: int, j: int|
            0 <= i <= s.len() && is_selected_line(s, lo, hi, i) && 0 <= j < 4
                ==> #[trigger] indent_text(s, lo, hi)[indented_line_start(s, lo, hi, i) + j] == ' ',
{
    let n = s.len() as int;
    lemma_indent_prefix_shape(s, lo, hi, n);
    lemma_selected_count_step(s, lo, hi, n);
    let t = indent_text(s, lo, hi);
    let p = indent_prefix(s, lo, hi, n);
    assert(t == p + indent_pad(s, lo, hi, n));
    assert forall|i: int| 0 <= i < n implies #[trigger] t[indented_offset(s, lo, hi, i)] == s[i] by {
        lemma_selected_count_monotone(s, lo, hi, i + 1, n);
        assert(t[indented_offset(s, lo, hi, i)] == p[indented_offset(s, lo, hi, i)]);
    }
    assert forall|i: int, j: int|
        0 <= i <= n && is_selected_line(s, lo, hi, i) && 0 <= j < 4
        implies #[trigger] t[indented_line_start(s, lo, hi, i) + j] == ' ' by {
        if i < n {
            lemma_selected_count_step(s, lo, hi, i);
            lemma_selected_count_monotone(s, lo, hi, i + 1, n);
            assert(t[indented_line_start(s, lo, hi, i) + j] == p[indented_line_start(s, lo, hi, i) + j]);
        }
    }
}

proof fn lemma_line_start_at_of_line_start(s: Seq<char>, k: int)
    requires
        0 <= k <= s.len(),
        is_line_start(s, k),
    ensures
        line_start_at(s, k) == k,
{
}

/// Within the four spaces in front of an indented line, the line still
/// starts at the spaces.
proof fn lemma_line_start_in_pad(s: Seq<char>, lo: int, hi: int, p: int, j: int)
    requires
        0 <= p <= s.len(),
        is_selected_line(s, lo, hi, p),
        0 <= j <= 4,
    ensures
        line_start_at(indent_text(s, lo, hi), indented_line_start(s, lo, hi, p) + j)
            == indented_line_start(s, lo, hi, p),
    decreases j,
{
    let t = indent_text(s, lo, hi);
    let ns = indented_line_start(s, lo, hi, p);
    law_indent_inserts_four_spaces_per_line(s, lo, hi);
    lemma_selected_count_step(s, lo, hi, p);
    lemma_selected_count_monotone(s, lo, hi, p + 1, s.len() as int + 1);
    if j == 0 {
        if p > 0 {
            lemma_selected_count_step(s, lo, hi, p - 1);
            assert(indented_offset(s, lo, hi, p - 1) == ns - 1);
            assert(t[ns - 1] == s[p - 1]);
        }
    } else {
        lemma_line_start_in_pad(s, lo, hi, p, j - 1);
        assert(t[ns + (j - 1)] == ' ');
    }
}

/// Indentation moves every line start along with its line.
proof fn lemma_line_start_image(s: Seq<char>, lo: int, hi: int, p: int)
    requires
        0 <= p <= s.len(),
    ensures
        line_start_at(indent_text(s, lo, hi), indented_offset(s, lo, hi, p))
            == indented_line_start(s, lo, hi, line_start_at(s, p)),
    decreases p,
{
    let t = indent_text(s, lo, hi);
    law_indent_inserts_four_spaces_per_line(s, lo, hi);
    lemma_selected_count_step(s, lo, hi, p);
    if is_selected_line(s, lo, hi, p) {
        lemma_line_start_in_pad(s, lo, hi, p, 4);
        lemma_line_start_at_of_line_start(s, p);
    } else if p == 0 {
    } else {
        lemma_line_start_image(s, lo, hi, p - 1);
        lemma_selected_count_monotone(s, lo, hi, p, s.len() as int + 1);
        assert(indented_offset(s, lo, hi, p) == indented_offset(s, lo, hi, p - 1) + 1);
        assert(t[indented_offset(s, lo, hi, p - 1)] == s[p - 1]);
    }
}

/// The shifted offset of a caret-like position, clamped to the text.
proof fn lemma_indent_shift_line_start(s: Seq<char>, lo: int, hi: int, p: int)
    requires
        p >= 0,
    ensures
        line_start_at(indent_text(s, lo, hi), indent_shift(s, lo, hi, p))
            == indented_line_start(s, lo, hi, line_start_at(s, p)),
{
    let n = s.len() as int;
    law_indent_inserts_four_spaces_per_line(s, lo, hi);
    if p <= n {
        lemma_line_start_image(s, lo, hi, p);
    } else {
        lemma_line_start_image(s, lo, hi, n);
        lemma_line_start_at_clamp(indent_text(s, lo, hi), indent_shift(s, lo, hi, p));
        lemma_line_start_at_clamp(s, p);
    }
}

proof fn lemma_indent_shift_monotone(s: Seq<char>, lo: int, hi: int, p1: int, p2: int)
    requires
        0 <= p1 <= p2,
    ensures
        indent_shift(s, lo, hi, p1) <= indent_shift(s, lo, hi, p2),
{
    lemma_selected_count_monotone(s, lo, hi, min_nat(p1, s.len() as int) + 1, min_nat(p2, s.len() as int) + 1);
}

/// The four spaces in front of an indented line count as its leading spaces.
proof fn lemma_pad_leading_spaces(s: Seq<char>, lo: int, hi: int, p: int)
    requires
        0 <= p <= s.len(),
        is_selected_line(s, lo, hi, p),
    ensures
        leading_spaces(indent_text(s, lo, hi), indented_line_start(s, lo, hi, p)) >= 4,
{
    let t = indent_text(s, lo, hi);
    let ns = indented_line_start(s, lo, hi, p);
    law_indent_inserts_four_spaces_per_line(s, lo, hi);
    lemma_selected_count_step(s, lo, hi, p);
    lemma_selected_count_monotone(s, lo, hi, p + 1, s.len() as int + 1);
    assert(t[ns + 0] == ' ');
    assert(t[ns + 1] == ' ');
    assert(t[ns + 2] == ' ');
    assert(t[ns + 3] == ' ');
    assert(leading_spaces(t, ns + 4) >= 0);
    assert(leading_spaces(t, ns + 3) >= 1);
    assert(leading_spaces(t, ns + 2) >= 2);
    assert(leading_spaces(t, ns + 1) >= 3);
}

/// A line of the indented text lies in the indented selection exactly when
/// the line it came from lies in the original selection.
proof fn lemma_selected_image(s: Seq<char>, lo: int, hi: int, k: int)
    requires
        0 <= k <= s.len(),
        is_line_start(s, k),
    ensures
        is_line_start(indent_text(s, lo, hi), indented_line_start(s, lo, hi, k)),
        is_selected_line(
            indent_text(s, lo, hi),
            indented_line_start(s, lo, hi, lo),
            indented_line_start(s, lo, hi, hi),
            indented_line_start(s, lo, hi, k),
        ) == is_selected_line(s, lo, hi, k),
{
    let t = indent_text(s, lo, hi);
    law_indent_inserts_four_spaces_per_line(s, lo, hi);
    if k > 0 {
        lemma_selected_count_step(s, lo, hi, k - 1);
        lemma_selected_count_monotone(s, lo, hi, k, s.len() as int + 1);
        assert(t[indented_offset(s, lo, hi, k - 1)] == s[k - 1]);
    }
    if lo < k {
        lemma_indented_line_start_strict(s, lo, hi, lo, k);
    }
    if k < lo {
        lemma_indented_line_start_strict(s, lo, hi, k, lo);
    }
    if k < hi {
        lemma_indented_line_start_strict(s, lo, hi, k, hi);
    }
    if hi < k {
        lemma_indented_line_start_strict(s, lo, hi, hi, k);
    }
}

spec fn outdent_removal_is_four(t: Seq<char>, lo: int, hi: int, k: int) -> bool {
    crate::ui::editor::commands::outdent_removal(t, lo, hi, k) == 4
}

/// Outdenting the indented text removes exactly the spaces that indentation
/// inserted: pad positions are removed, original chars are kept.
proof fn lemma_removed_in_indented(s: Seq<char>, lo: int, hi: int, m: int)
    requires
        0 <= m <= s.len(),
    ensures
        is_selected_line(s, lo, hi, m) ==> forall|j: int| 0 <= j < 4 ==> #[trigger] is_outdent_removed(
            indent_text(s, lo, hi),
            indented_line_start(s, lo, hi, lo),
            indented_line_start(s, lo, hi, hi),
            indented_line_start(s, lo, hi, m) + j,
        ),
        m < s.len() ==> !is_outdent_removed(
            indent_text(s, lo, hi),
            indented_line_start(s, lo, hi, lo),
            indented_line_start(s, lo, hi, hi),
            indented_offset(s, lo, hi, m),
        ),
{
    let t = indent_text(s, lo, hi);
    let lo2 = indented_line_start(s, lo, hi, lo);
    let hi2 = indented_line_start(s, lo, hi, hi);
    law_indent_inserts_four_spaces_per_line(s, lo, hi);
    lemma_selected_count_step(s, lo, hi, m);
    lemma_selected_count_monotone(s, lo, hi, m + 1, s.len() as int + 1);
    if is_selected_line(s, lo, hi, m) {
        let ns = indented_line_start(s, lo, hi, m);
        lemma_selected_image(s, lo, hi, m);
        lemma_pad_leading_spaces(s, lo, hi, m);
        assert forall|j: int| 0 <= j < 4 implies #[trigger] is_outdent_removed(t, lo2, hi2, ns + j) by {
            lemma_line_start_in_pad(s, lo, hi, m, j);
        }
        if m < s.len() {
            lemma_line_start_in_pad(s, lo, hi, m, 4);
            assert(indented_offset(s, lo, hi, m) == ns + 4);
            assert(line_start_at(t, ns + 4) == ns);
            assert(is_selected_line(t, lo2, hi2, ns));
            assert(outdent_removal_is_four(t, lo2, hi2, ns));
        }
    } else if m < s.len() {
        let l = line_start_at(s, m);
        lemma_line_start_image(s, lo, hi, m);
        lemma_line_start_at_bounds(s, m);
        lemma_selected_image(s, lo, hi, l);
        let ns_l = indented_line_start(s, lo, hi, l);
        let im = indented_offset(s, lo, hi, m);
        assert(line_start_at(t, im) == ns_l);
        lemma_selected_count_monotone(s, lo, hi, l, m + 1);
        if is_selected_line(s, lo, hi, l) {
            lemma_selected_count_step(s, lo, hi, l);
            lemma_selected_count_monotone(s, lo, hi, l + 1, m + 1);
            assert(im - ns_l >= 4);
            assert(crate::ui::editor::commands::outdent_removal(t, lo2, hi2, ns_l) <= 4);
        } else {
            assert(crate::ui::editor::commands::outdent_removal(t, lo2, hi2, ns_l) == 0);
            assert(im >= ns_l);
        }
    }
}

/// Outdenting the indented text, char by char, gives back the original.
proof fn lemma_outdent_prefix_of_indent(s: Seq<char>, lo: int, hi: int, m: int)
    requires
        0 <= m <= s.len(),
    ensures
        outdent_prefix(
            indent_text(s, lo, hi),
            indented_line_start(s, lo, hi, lo),
            indented_line_start(s, lo, hi, hi),
            indented_offset(s, lo, hi, m),
        ) == s.take(m),
        removed_count(
            indent_text(s, lo, hi),
            indented_line_start(s, lo, hi, lo),
            indented_line_start(s, lo, hi, hi),
            indented_offset(s, lo, hi, m),
        ) == 4 * selected_count(s, lo, hi, m + 1),
    decreases m,
{
    let t = indent_text(s, lo, hi);
    let lo2 = indented_line_start(s, lo, hi, lo);
    let hi2 = indented_line_start(s, lo, hi, hi);
    let ns = indented_line_start(s, lo, hi, m);
    law_indent_inserts_four_spaces_per_line(s, lo, hi);
    lemma_selected_count_step(s, lo, hi, m);
    if m > 0 {
        lemma_outdent_prefix_of_indent(s, lo, hi, m - 1);
        lemma_removed_in_indented(s, lo, hi, m - 1);
        lemma_selected_count_step(s, lo, hi, m - 1);
        lemma_selected_count_monotone(s, lo, hi, m, s.len() as int + 1);
        assert(s.take(m) == s.take(m - 1).push(s[m - 1]));
        assert(t[indented_offset(s, lo, hi, m - 1)] == s[m - 1]);
        assert(ns == indented_offset(s, lo, hi, m - 1) + 1);
    } else {
        assert(s.take(0) =~= Seq::<char>::empty());
    }
    // Now the prefix up to the line start `ns` gives s.take(m); the pad at
    // `ns` (if any) is removed.
    assert(outdent_prefix(t, lo2, hi2, ns) == s.take(m));
    assert(removed_count(t, lo2, hi2, ns) == 4 * selected_count(s, lo, hi, m));
    if is_selected_line(s, lo, hi, m) {
        lemma_removed_in_indented(s, lo, hi, m);
        assert(is_outdent_removed(t, lo2, hi2, ns + 0));
        assert(is_outdent_removed(t, lo2, hi2, ns + 1));
        assert(is_outdent_removed(t, lo2, hi2, ns + 2));
        assert(is_outdent_removed(t, lo2, hi2, ns + 3));
        assert(outdent_prefix(t, lo2, hi2, ns + 1) == s.take(m));
        assert(outdent_prefix(t, lo2, hi2, ns + 2) == s.take(m));
        assert(outdent_prefix(t, lo2, hi2, ns + 3) == s.take(m));
        assert(outdent_prefix(t, lo2, hi2, ns + 4) == s.take(m));
        assert(removed_count(t, lo2, hi2, ns + 1) == removed_count(t, lo2, hi2, ns) + 1);
        assert(removed_count(t, lo2, hi2, ns + 2) == removed_count(t, lo2, hi2, ns) + 2);
        assert(removed_count(t, lo2, hi2, ns + 3) == removed_count(t, lo2, hi2, ns) + 3);
        assert(removed_count(t, lo2, hi2, ns + 4) == removed_count(t, lo2, hi2, ns) + 4);
    }
}

/// Outdenting undoes indenting: indenting the selected lines and then
/// outdenting them gives back the original text, caret and selection.
pub proof fn law_outdent_undoes_indent(s: Seq<char>, state: EditorSurfaceState)
    requires
        command_fits(s, state, EditorCommand::IndentWithSpaces),
    ensures
        command_result(
            command_result(s, state, EditorCommand::IndentWithSpaces).0,
            command_result(s, state, EditorCommand::IndentWithSpaces).1,
            EditorCommand::OutdentWithSpaces,
        ) == (s, state),
{
    let n = s.len() as int;
    let (lo, hi) = selection_lines(s, state.selection);
    let t = indent_text(s, lo, hi);
    let st = indent_state(s, state);
    let a = state.selection.anchor as int;
    let f = state.selection.focus as int;
    let c = state.caret.offset as int;
    law_indent_inserts_four_spaces_per_line(s, lo, hi);
    // The indented selection covers the images of the same lines.
    if a <= f {
        lemma_indent_shift_monotone(s, lo, hi, a, f);
    } else {
        lemma_indent_shift_monotone(s, lo, hi, f, a);
    }
    lemma_indent_shift_line_start(s, lo, hi, state.selection.spec_start());
    lemma_indent_shift_line_start(s, lo, hi, state.selection.spec_end());
    let (lo2, hi2) = selection_lines(t, st.selection);
    assert(lo2 == indented_line_start(s, lo, hi, lo));
    assert(hi2 == indented_line_start(s, lo, hi, hi));
    // The text comes back.
    lemma_outdent_prefix_of_indent(s, lo, hi, n);
    assert(s.take(n) =~= s);
    assert(outdent_text(t, lo2, hi2) == s);
    // Each offset comes back.
    assert forall|p: int| 0 <= p implies outdent_shift(t, lo2, hi2, #[trigger] indent_shift(s, lo, hi, p)) == p by {
        if p <= n {
            lemma_outdent_prefix_of_indent(s, lo, hi, p);
            lemma_selected_count_monotone(s, lo, hi, p + 1, n + 1);
        } else {
            lemma_outdent_prefix_of_indent(s, lo, hi, n);
        }
    }
    assert(outdent_shift(t, lo2, hi2, indent_shift(s, lo, hi, c)) == c);
    assert(outdent_shift(t, lo2, hi2, indent_shift(s, lo, hi, a)) == a);
    assert(outdent_shift(t, lo2, hi2, indent_shift(s, lo, hi, f)) == f);
    assert(outdent_state(t, st) == state);
}

/// Leading spaces are spaces: every char counted by `leading_spaces` is one.
proof fn lemma_leading_spaces_are_spaces(s: Seq<char>, k: int, i: int)
    requires
        0 <= k <= i,
        i - k < leading_spaces(s, k),
    ensures
        s[i] == ' ',
    decreases i - k,
{
    if i > k {
        lemma_leading_spaces_are_spaces(s, k + 1, i);
    }
}

/// Outdenting removes only leading spaces: each removed char is a space
/// among the first four chars of a selected line.
pub proof fn law_outdent_removes_only_leading_spaces(s: Seq<char>, lo: int, hi: int, i: int)
    requires
        is_outdent_removed(s, lo, hi, i),
    ensures
        s[i] == ' ',
        i - line_start_at(s, i) < 4,
        is_selected_line(s, lo, hi, line_start_at(s, i)),
{
    lemma_line_start_at_bounds(s, i);
    lemma_leading_spaces_are_spaces(s, line_start_at(s, i), i);
}

/// The caret moves stay within the text: from an offset within the text,
/// moving left or right leaves the caret within the text, keeps the text,
/// and collapses the selection onto the caret.
pub proof fn law_caret_moves_stay_in_bounds(s: Seq<char>, state: EditorSurfaceState, command: EditorCommand)
    requires
        state.caret.offset <= s.len(),
        command == EditorCommand::MoveCaretLeft || command == EditorCommand::MoveCaretRight,
    ensures
        command_result(s, state, command).0 == s,
        command_result(s, state, command).1.caret.offset <= s.len(),
        command_result(s, state, command).1.selection.anchor == command_result(s, state, command).1.caret.offset,
        command_result(s, state, command).1.selection.focus == command_result(s, state, command).1.caret.offset,
{
}

/// Moving the caret left and then right returns it to where it was, for any
/// caret that has a char before it.
pub proof fn law_move_right_undoes_move_left(s: Seq<char>, state: EditorSurfaceState)
    requires
        0 < state.caret.offset <= s.len(),
    ensures
        command_result(
            s,
            command_result(s, state, EditorCommand::MoveCaretLeft).1,
            EditorCommand::MoveCaretRight,
        ).1.caret == state.caret,
{
}

proof fn lemma_outdent_prefix_len(s: Seq<char>, lo: int, hi: int, m: int)
    requires
        0 <= m <= s.len(),
    ensures
        outdent_prefix(s, lo, hi, m).len() == m - removed_count(s, lo, hi, m),
    decreases m,
{
    if m > 0 {
        lemma_outdent_prefix_len(s, lo, hi, m - 1);
    }
}

proof fn lemma_removed_count_gap(s: Seq<char>, lo: int, hi: int, p: int, m: int)
    requires
        0 <= p <= m,
    ensures
        removed_count(s, lo, hi, m) <= removed_count(s, lo, hi, p) + (m - p),
    decreases m - p,
{
    if p < m {
        lemma_removed_count_gap(s, lo, hi, p, m - 1);
    }
}

/// Every command keeps the caret and both ends of the selection within the
/// text that it yields, for a state that lies within the text it is given.
pub proof fn law_commands_keep_offsets_in_text(s: Seq<char>, state: EditorSurfaceState, command: EditorCommand)
    requires
        state.caret.offset <= s.len(),
        state.selection.anchor <= s.len(),
        state.selection.focus <= s.len(),
        command_fits(s, state, command),
    ensures
        command_result(s, state, command).1.caret.offset <= command_result(s, state, command).0.len(),
        command_result(s, state, command).1.selection.anchor <= command_result(s, state, command).0.len(),
        command_result(s, state, command).1.selection.focus <= command_result(s, state, command).0.len(),
{
    let n = s.len() as int;
    let (lo, hi) = selection_lines(s, state.selection);
    match command {
        EditorCommand::IndentWithSpaces => {
            law_indent_inserts_four_spaces_per_line(s, lo, hi);
            lemma_selected_count_monotone(s, lo, hi, state.caret.offset + 1, n + 1);
            lemma_selected_count_monotone(s, lo, hi, state.selection.anchor + 1, n + 1);
            lemma_selected_count_monotone(s, lo, hi, state.selection.focus + 1, n + 1);
        },
        EditorCommand::OutdentWithSpaces => {
            lemma_outdent_prefix_len(s, lo, hi, n);
            lemma_removed_count_le(s, lo, hi, state.caret.offset as int);
            lemma_removed_count_le(s, lo, hi, state.selection.anchor as int);
            lemma_removed_count_le(s, lo, hi, state.selection.focus as int);
            lemma_removed_count_gap(s, lo, hi, state.caret.offset as int, n);
            lemma_removed_count_gap(s, lo, hi, state.selection.anchor as int, n);
            lemma_removed_count_gap(s, lo, hi, state.selection.focus as int, n);
        },
        _ => {},
    }
}

/// ArrowLeft moves the caret one char back from any caret with a char
/// before it (at the end of the text too), collapses the selection there,
/// and changes neither the text nor anything else of the state.
pub proof fn law_move_left_steps_back_one_char(s: Seq<char>, state: EditorSurfaceState)
    requires
        0 < state.caret.offset,
    ensures
        command_result(s, state, EditorCommand::MoveCaretLeft).0 == s,
        command_result(s, state, EditorCommand::MoveCaretLeft).1.caret.offset == state.caret.offset - 1,
        command_result(s, state, EditorCommand::MoveCaretLeft).1.selection.anchor == state.caret.offset - 1,
        command_result(s, state, EditorCommand::MoveCaretLeft).1.selection.focus == state.caret.offset - 1,
        command_result(s, state, EditorCommand::MoveCaretLeft).1.scroll_window == state.scroll_window,
        command_result(s, state, EditorCommand::MoveCaretLeft).1.completion_anchor_offset == state.completion_anchor_offset,
        command_result(s, state, EditorCommand::MoveCaretLeft).1.signature_help_anchor_offset == state.signature_help_anchor_offset,
        command_result(s, state, EditorCommand::MoveCaretLeft).1.completion_selected_index == state.completion_selected_index,
{
}

/// ArrowLeft at the start of the text leaves the caret there.
pub proof fn law_move_left_stops_at_start(s: Seq<char>, state: EditorSurfaceState)
    requires
        state.caret.offset == 0,
    ensures
        command_result(s, state, EditorCommand::MoveCaretLeft).1.caret.offset == 0,
        command_result(s, state, EditorCommand::MoveCaretLeft).1.selection.anchor == 0,
        command_result(s, state, EditorCommand::MoveCaretLeft).1.selection.focus == 0,
{
}

/// ArrowRight moves the caret one char forward while a char follows it and
/// otherwise puts it at the end of the text; the selection collapses there
/// and the text is unchanged.
pub proof fn law_move_right_steps_forward_one_char(s: Seq<char>, state: EditorSurfaceState)
    requires
        s.len() <= usize::MAX,
    ensures
        command_result(s, state, EditorCommand::MoveCaretRight).0 == s,
        state.caret.offset < s.len() ==> command_result(s, state, EditorCommand::MoveCaretRight).1.caret.offset
            == state.caret.offset + 1,
        state.caret.offset >= s.len() ==> command_result(s, state, EditorCommand::MoveCaretRight).1.caret.offset
            == s.len(),
        command_result(s, state, EditorCommand::MoveCaretRight).1.selection.anchor
            == command_result(s, state, EditorCommand::MoveCaretRight).1.caret.offset,
        command_result(s, state, EditorCommand::MoveCaretRight).1.selection.focus
            == command_result(s, state, EditorCommand::MoveCaretRight).1.caret.offset,
        command_result(s, state, EditorCommand::MoveCaretRight).1.scroll_window == state.scroll_window,
{
}

/// The editor's key bindings: Tab indents and Shift+Tab outdents the
/// selected lines; ArrowLeft and ArrowRight without Shift move the caret;
/// no other key press is a command.
pub proof fn law_key_bindings(key: Seq<char>, shift_key: bool)
    ensures
        key == "Tab"@ ==> keydown_command(key, shift_key) == Some(
            if shift_key { EditorCommand::OutdentWithSpaces } else { EditorCommand::IndentWithSpaces },
        ),
        key == "ArrowLeft"@ && !shift_key ==> keydown_command(key, shift_key) == Some(EditorCommand::MoveCaretLeft),
        key == "ArrowRight"@ && !shift_key ==> keydown_command(key, shift_key) == Some(EditorCommand::MoveCaretRight),
        (key == "ArrowLeft"@ || key == "ArrowRight"@) && shift_key ==> keydown_command(key, shift_key) is None,
        key != "Tab"@ && key != "ArrowLeft"@ && key != "ArrowRight"@ ==> keydown_command(key, shift_key) is None,
{
    reveal_strlit("Tab");
    reveal_strlit("ArrowLeft");
    reveal_strlit("ArrowRight");
    assert("Tab"@.len() != "ArrowLeft"@.len() && "Tab"@.len() != "ArrowRight"@.len()
        && "ArrowLeft"@.len() != "ArrowRight"@.len());
}

} // verus!
