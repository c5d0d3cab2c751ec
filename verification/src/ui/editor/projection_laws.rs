//! Laws of the syntax projection: when the engine's snapshot tiles the
//! textarea text, the overlay shows exactly that text.
use vstd::prelude::*;

use crate::adapters::{EditorToken, EditorTrivia};
use crate::text::is_unicode_whitespace;
use crate::ui::editor::render_projection::{
    is_delimiter, is_function_char, is_identifier_char, is_number_char, is_separator,
    lemma_word_end_bounds, sat_add, snapshot_prefix_runs,
    snapshot_runs, text_runs_from, token_role, token_runs, trivia_runs, word_end, SyntaxTokenRole,
};

verus! {

/// The text of a list of runs, concatenated.
pub open spec fn runs_text(runs: Seq<(Seq<char>, int, int, SyntaxTokenRole)>) -> Seq<char>
    decreases runs.len(),
{
    if runs.len() == 0 {
        Seq::empty()
    } else {
        runs_text(runs.drop_last()) + runs.last().0
    }
}

/// The text of a list of trivia, concatenated.
pub open spec fn trivia_text(ts: Seq<EditorTrivia>) -> Seq<char>
    decreases ts.len(),
{
    if ts.len() == 0 {
        Seq::empty()
    } else {
        trivia_text(ts.drop_last()) + ts.last().text@
    }
}

/// Where the span of token `k - 1` ends (0 before the first token).
pub open spec fn previous_token_end(tokens: Seq<EditorToken>, k: int) -> int {
    if k <= 0 {
        0
    } else {
        tokens[k - 1].span.start + tokens[k - 1].span.len
    }
}

/// Token `tok`, whose predecessor ends at `e`, tiles `src`: its leading
/// trivia are the source text from `e`, its span starts at or after them,
/// its text is the source text under its span, and, if it is the last
/// token, its trailing trivia are the source text right after its span.
pub open spec fn token_tiles(tok: EditorToken, is_last: bool, src: Seq<char>, e: int) -> bool {
    let lt = trivia_text(tok.leading_trivia@);
    let a = e + lt.len();
    let start = tok.span.start as int;
    let end = start + tok.span.len;
    &&& a <= src.len()
    &&& src.subrange(e, a) == lt
    &&& a <= start
    &&& end <= src.len()
    &&& tok.text@ == src.subrange(start, end)
    &&& is_last ==> {
        let tt = trivia_text(tok.trailing_trivia@);
        &&& end + tt.len() <= src.len()
        &&& src.subrange(end, end + tt.len()) == tt
    }
}

/// Every token of the snapshot tiles the source text.
pub open spec fn snapshot_tiles(tokens: Seq<EditorToken>, src: Seq<char>) -> bool {
    forall|k: int| #![trigger tokens[k]]
        0 <= k < tokens.len() ==> token_tiles(tokens[k], k == tokens.len() - 1, src, previous_token_end(tokens, k))
}

proof fn lemma_runs_text_push(r: Seq<(Seq<char>, int, int, SyntaxTokenRole)>, x: (Seq<char>, int, int, SyntaxTokenRole))
    ensures
        runs_text(r.push(x)) == runs_text(r) + x.0,
{
    assert(r.push(x).drop_last() =~= r);
}

proof fn lemma_runs_text_concat(a: Seq<(Seq<char>, int, int, SyntaxTokenRole)>, b: Seq<(Seq<char>, int, int, SyntaxTokenRole)>)
    ensures
        runs_text(a + b) == runs_text(a) + runs_text(b),
    decreases b.len(),
{
    if b.len() == 0 {
        assert(a + b =~= a);
        assert(runs_text(a) + runs_text(b) =~= runs_text(a));
    } else {
        lemma_runs_text_concat(a, b.drop_last());
        assert((a + b).drop_last() =~= a + b.drop_last());
        assert((a + b).last() == b.last());
        assert(runs_text(a + b) =~= runs_text(a) + runs_text(b));
    }
}

proof fn lemma_trivia_runs_text(ts: Seq<EditorTrivia>, e: int)
    requires
        0 <= e,
        e + trivia_text(ts).len() <= usize::MAX,
    ensures
        runs_text(trivia_runs(ts, e).0) == trivia_text(ts),
        trivia_runs(ts, e).1 == e + trivia_text(ts).len(),
    decreases ts.len(),
{
    if ts.len() > 0 {
        lemma_trivia_runs_text(ts.drop_last(), e);
        let (r, e1) = trivia_runs(ts.drop_last(), e);
        let t = ts.last().text@;
        if t.len() == 0 {
            assert(trivia_text(ts) =~= trivia_text(ts.drop_last()));
        } else {
            lemma_runs_text_push(r, (t, e1, t.len() as int, SyntaxTokenRole::Trivia));
        }
    }
}

proof fn lemma_take_subrange(src: Seq<char>, a: int, b: int)
    requires
        0 <= a <= b <= src.len(),
    ensures
        src.take(a) + src.subrange(a, b) == src.take(b),
{
    assert(src.take(a) + src.subrange(a, b) =~= src.take(b));
}

/// The runs of the first `k` tokens spell out the source up to where the
/// `k`-th token's span (and, for the last token, its trailing trivia) ends.
#[verifier::rlimit(40)]
proof fn lemma_prefix_runs_text(tokens: Seq<EditorToken>, src: Seq<char>, k: int)
    requires
        0 <= k <= tokens.len(),
        src.len() <= usize::MAX,
        snapshot_tiles(tokens, src),
    ensures
        k < tokens.len() ==> snapshot_prefix_runs(tokens, src, k).1 == previous_token_end(tokens, k),
        k == tokens.len() && k > 0 ==> snapshot_prefix_runs(tokens, src, k).1
            == previous_token_end(tokens, k) + trivia_text(tokens[k - 1].trailing_trivia@).len(),
        k == 0 ==> snapshot_prefix_runs(tokens, src, k).1 == 0,
        0 <= snapshot_prefix_runs(tokens, src, k).1 <= src.len(),
        runs_text(snapshot_prefix_runs(tokens, src, k).0) == src.take(snapshot_prefix_runs(tokens, src, k).1),
    decreases k,
{
    if k == 0 {
        assert(src.take(0) =~= Seq::<char>::empty());
    } else {
        lemma_prefix_runs_text(tokens, src, k - 1);
        let (r, e) = snapshot_prefix_runs(tokens, src, k - 1);
        let tok = tokens[k - 1];
        let is_last = k - 1 == tokens.len() - 1;
        assert(e == previous_token_end(tokens, k - 1));
        assert(token_tiles(tok, is_last, src, e));
        let lt = trivia_text(tok.leading_trivia@);
        let start = tok.span.start as int;
        let end = start + tok.span.len;
        // Leading trivia.
        lemma_trivia_runs_text(tok.leading_trivia@, e);
        let (r1, e1) = trivia_runs(tok.leading_trivia@, e);
        assert(e1 == e + lt.len());
        lemma_take_subrange(src, e, e1);
        // Gap before the span.
        let (r2, e2) = if start > e1 && start <= src.len() {
            (r1.push((src.subrange(e1, start), e1, start - e1, SyntaxTokenRole::Text)), start)
        } else {
            (r1, e1)
        };
        if start > e1 {
            lemma_runs_text_push(r1, (src.subrange(e1, start), e1, start - e1, SyntaxTokenRole::Text));
            lemma_take_subrange(src, e1, start);
        }
        assert(e2 == start);
        assert(src.take(e) + runs_text(r2) == src.take(start));
        // The token itself.
        let x = (tok.text@, start, tok.span.len as int, crate::ui::editor::render_projection::token_role(tok.text@));
        let r3 = if tok.text@.len() > 0 && tok.span.len > 0 { r2.push(x) } else { r2 };
        assert(sat_add(start, tok.span.len as int) == end);
        assert(src.take(e) + runs_text(r3) == src.take(end)) by {
            lemma_take_subrange(src, start, end);
            assert(runs_text(r3) == runs_text(r2) + tok.text@) by {
                lemma_runs_text_push(r2, x);
                if !(tok.text@.len() > 0 && tok.span.len > 0) {
                    assert(runs_text(r2) + tok.text@ =~= runs_text(r2));
                }
            }
            assert(src.take(e) + runs_text(r3) =~= (src.take(e) + runs_text(r2)) + tok.text@);
        }
        let (tr, te) = token_runs(tok, is_last, src, e);
        if is_last {
            let tt = trivia_text(tok.trailing_trivia@);
            lemma_trivia_runs_text(tok.trailing_trivia@, end);
            lemma_runs_text_concat(r3, trivia_runs(tok.trailing_trivia@, end).0);
            lemma_take_subrange(src, end, end + tt.len());
            assert(tr == r3 + trivia_runs(tok.trailing_trivia@, end).0);
            assert(src.take(e) + runs_text(tr) =~= src.take(end + tt.len()));
        } else {
            assert(tr == r3);
        }
        lemma_runs_text_concat(r, tr);
        assert(runs_text(r + tr) =~= src.take(e) + runs_text(tr));
    }
}

/// What the overlay shows is what the textarea holds: when the engine's
/// snapshot tiles the source text, the runs' texts, concatenated, are the
/// source text exactly.
pub proof fn law_snapshot_runs_spell_source(tokens: Seq<EditorToken>, src: Seq<char>)
    requires
        src.len() <= usize::MAX,
        snapshot_tiles(tokens, src),
    ensures
        runs_text(snapshot_runs(tokens, src)) == src,
{
    let n = tokens.len() as int;
    lemma_prefix_runs_text(tokens, src, n);
    let (r, e) = snapshot_prefix_runs(tokens, src, n);
    if e < src.len() {
        lemma_runs_text_push(r, (src.subrange(e, src.len() as int), e, src.len() - e, SyntaxTokenRole::Text));
        lemma_take_subrange(src, e, src.len() as int);
    }
    assert(src.take(src.len() as int) =~= src);
}

/// The chars of `s[i..]` that are not whitespace.
pub open spec fn non_whitespace_from(s: Seq<char>, i: int) -> Seq<char>
    decreases s.len() - i,
{
    if i < 0 || i >= s.len() {
        Seq::empty()
    } else if is_unicode_whitespace(s[i]) {
        non_whitespace_from(s, i + 1)
    } else {
        seq![s[i]] + non_whitespace_from(s, i + 1)
    }
}

proof fn lemma_runs_text_prepend(x: (Seq<char>, int, int, SyntaxTokenRole), rest: Seq<(Seq<char>, int, int, SyntaxTokenRole)>)
    ensures
        runs_text(seq![x] + rest) == x.0 + runs_text(rest),
{
    lemma_runs_text_concat(seq![x], rest);
    let e = Seq::<(Seq<char>, int, int, SyntaxTokenRole)>::empty();
    assert(seq![x].drop_last() =~= e);
    assert(seq![x].last() == x);
    assert(runs_text(e) == Seq::<char>::empty());
    assert(runs_text(seq![x]) == runs_text(e) + x.0);
    assert(runs_text(seq![x]) =~= x.0);
}

proof fn lemma_word_non_whitespace(s: Seq<char>, i: int, j: int)
    requires
        0 <= i <= j <= s.len(),
        forall|k: int| i <= k < j ==> !is_separator(#[trigger] s[k]),
    ensures
        non_whitespace_from(s, i) == s.subrange(i, j) + non_whitespace_from(s, j),
    decreases j - i,
{
    if i == j {
        assert(s.subrange(i, j) + non_whitespace_from(s, j) =~= non_whitespace_from(s, j));
    } else {
        lemma_word_non_whitespace(s, i + 1, j);
        assert(!is_separator(s[i]));
        assert(s.subrange(i, j) =~= seq![s[i]] + s.subrange(i + 1, j));
        assert(seq![s[i]] + (s.subrange(i + 1, j) + non_whitespace_from(s, j))
            =~= s.subrange(i, j) + non_whitespace_from(s, j));
    }
}

/// The text runs spell out the text without its whitespace.
proof fn lemma_text_runs_cover(s: Seq<char>, i: int)
    requires
        0 <= i <= s.len(),
    ensures
        runs_text(text_runs_from(s, i)) == non_whitespace_from(s, i),
    decreases s.len() - i,
{
    if i < s.len() {
        if is_unicode_whitespace(s[i]) {
            lemma_text_runs_cover(s, i + 1);
        } else if is_delimiter(s[i]) {
            lemma_text_runs_cover(s, i + 1);
            lemma_runs_text_prepend((seq![s[i]], i, 1int, token_role(seq![s[i]])), text_runs_from(s, i + 1));
        } else {
            let j = word_end(s, i);
            lemma_word_end_bounds(s, i);
            lemma_text_runs_cover(s, j);
            lemma_runs_text_prepend((s.subrange(i, j), i, j - i, token_role(s.subrange(i, j))), text_runs_from(s, j));
            lemma_word_non_whitespace(s, i, j);
        }
    }
}

/// Splitting plain text into runs drops only whitespace: the runs' texts,
/// concatenated, are the text's non-whitespace chars in order, and each
/// run's text is the text under its span.
pub proof fn law_text_runs_keep_all_but_whitespace(s: Seq<char>)
    ensures
        runs_text(text_runs_from(s, 0)) == non_whitespace_from(s, 0),
        forall|k: int| 0 <= k < text_runs_from(s, 0).len() ==> {
            let run = #[trigger] text_runs_from(s, 0)[k];
            &&& 0 <= run.1
            &&& run.1 + run.2 <= s.len()
            &&& run.0 == s.subrange(run.1, run.1 + run.2)
        },
{
    lemma_text_runs_cover(s, 0);
    lemma_text_runs_are_slices(s, 0);
}

proof fn lemma_text_runs_are_slices(s: Seq<char>, i: int)
    requires
        0 <= i <= s.len(),
    ensures
        forall|k: int| 0 <= k < text_runs_from(s, i).len() ==> {
            let run = #[trigger] text_runs_from(s, i)[k];
            &&& i <= run.1
            &&& run.1 + run.2 <= s.len()
            &&& run.0 == s.subrange(run.1, run.1 + run.2)
        },
    decreases s.len() - i,
{
    if i < s.len() {
        if is_unicode_whitespace(s[i]) {
            lemma_text_runs_are_slices(s, i + 1);
            assert(text_runs_from(s, i) == text_runs_from(s, i + 1));
        } else if is_delimiter(s[i]) {
            lemma_text_runs_are_slices(s, i + 1);
            assert(s.subrange(i, i + 1) =~= seq![s[i]]);
            let rest = text_runs_from(s, i + 1);
            let all = text_runs_from(s, i);
            assert forall|k: int| 0 <= k < all.len() implies {
                let run = #[trigger] all[k];
                &&& i <= run.1
                &&& run.1 + run.2 <= s.len()
                &&& run.0 == s.subrange(run.1, run.1 + run.2)
            } by {
                if k > 0 {
                    assert(all[k] == rest[k - 1]);
                }
            }
        } else {
            lemma_word_end_bounds(s, i);
            let j = word_end(s, i);
            lemma_text_runs_are_slices(s, j);
            let rest = text_runs_from(s, j);
            let all = text_runs_from(s, i);
            assert forall|k: int| 0 <= k < all.len() implies {
                let run = #[trigger] all[k];
                &&& i <= run.1
                &&& run.1 + run.2 <= s.len()
                &&& run.0 == s.subrange(run.1, run.1 + run.2)
            } by {
                if k > 0 {
                    assert(all[k] == rest[k - 1]);
                }
            }
        }
    }
}

/// How a token is coloured, by the chars it is made of: `=` alone is an
/// operator; `(`, `)` or `,` alone is a delimiter; a token of ASCII digits
/// and dots is a number; one of ASCII capitals and underscores a function;
/// any other token of ASCII letters, digits, underscores and dots an
/// identifier; everything else, the empty token included, text.
pub proof fn law_token_role_by_chars(t: Seq<char>)
    ensures
        t == seq!['='] ==> token_role(t) == SyntaxTokenRole::Operator,
        (t == seq!['('] || t == seq![')'] || t == seq![',']) ==> token_role(t) == SyntaxTokenRole::Delimiter,
        t.len() > 0 && (forall|i: int| 0 <= i < t.len() ==> ('0' <= #[trigger] t[i] <= '9' || t[i] == '.'))
            ==> token_role(t) == SyntaxTokenRole::Number,
        t.len() > 0 && (forall|i: int| 0 <= i < t.len() ==> ('A' <= #[trigger] t[i] <= 'Z' || t[i] == '_'))
            ==> token_role(t) == SyntaxTokenRole::Function,
        t.len() > 0
            && (forall|i: int| 0 <= i < t.len() ==> {
                let c = #[trigger] t[i];
                '0' <= c <= '9' || 'A' <= c <= 'Z' || 'a' <= c <= 'z' || c == '_' || c == '.'
            })
            && (exists|i: int| 0 <= i < t.len() && ('a' <= #[trigger] t[i] <= 'z'))
            ==> token_role(t) == SyntaxTokenRole::Identifier,
        t.len() == 0 ==> token_role(t) == SyntaxTokenRole::Text,
        t.len() > 1 && (exists|i: int| 0 <= i < t.len() && {
            let c = #[trigger] t[i];
            !('0' <= c <= '9' || 'A' <= c <= 'Z' || 'a' <= c <= 'z' || c == '_' || c == '.')
        }) ==> token_role(t) == SyntaxTokenRole::Text,
{
    if t.len() > 0 {
        if forall|i: int| 0 <= i < t.len() ==> ('0' <= #[trigger] t[i] <= '9' || t[i] == '.') {
            assert(t[0] != '=' && t[0] != '(' && t[0] != ')' && t[0] != ',');
            assert(t != seq!['='] && t != seq!['('] && t != seq![')'] && t != seq![',']) by {
                if t.len() == 1 {
                    assert(seq!['='][0] == '=');
                    assert(seq!['('][0] == '(');
                    assert(seq![')'][0] == ')');
                    assert(seq![','][0] == ',');
                }
            }
        }
        if forall|i: int| 0 <= i < t.len() ==> ('A' <= #[trigger] t[i] <= 'Z' || t[i] == '_') {
            assert(t[0] != '=' && t[0] != '(' && t[0] != ')' && t[0] != ',');
            assert(!is_number_char(t[0]));
            assert(t != seq!['='] && t != seq!['('] && t != seq![')'] && t != seq![',']) by {
                if t.len() == 1 {
                    assert(seq!['='][0] == '=');
                    assert(seq!['('][0] == '(');
                    assert(seq![')'][0] == ')');
                    assert(seq![','][0] == ',');
                }
            }
        }
        if exists|i: int| 0 <= i < t.len() && ('a' <= #[trigger] t[i] <= 'z') {
            let i = choose|i: int| 0 <= i < t.len() && ('a' <= #[trigger] t[i] <= 'z');
            assert(!is_number_char(t[i]) && !is_function_char(t[i]));
            assert(t != seq!['='] && t != seq!['('] && t != seq![')'] && t != seq![',']) by {
                if t.len() == 1 {
                    assert(seq!['='][0] == '=');
                    assert(seq!['('][0] == '(');
                    assert(seq![')'][0] == ')');
                    assert(seq![','][0] == ',');
                }
            }
        }
        if exists|i: int| 0 <= i < t.len() && {
            let c = #[trigger] t[i];
            !('0' <= c <= '9' || 'A' <= c <= 'Z' || 'a' <= c <= 'z' || c == '_' || c == '.')
        } {
            let i = choose|i: int| 0 <= i < t.len() && {
                let c = #[trigger] t[i];
                !('0' <= c <= '9' || 'A' <= c <= 'Z' || 'a' <= c <= 'z' || c == '_' || c == '.')
            };
            assert(!is_number_char(t[i]) && !is_function_char(t[i]) && !is_identifier_char(t[i]));
            if t.len() > 1 {
                assert(t != seq!['='] && t != seq!['('] && t != seq![')'] && t != seq![',']) by {
                    assert(seq!['='].len() == 1);
                    assert(seq!['('].len() == 1);
                    assert(seq![')'].len() == 1);
                    assert(seq![','].len() == 1);
                }
            }
        }
    }
}

/// The chars that plain-text splitting puts in runs of their own.
pub open spec fn splits_alone(c: char) -> bool {
    c == '=' || c == '(' || c == ')' || c == ','
}

/// The chars that end a word: whitespace and the chars that stand alone.
pub open spec fn breaks_word(c: char) -> bool {
    is_unicode_whitespace(c) || splits_alone(c)
}

/// The colour of a char that stands alone: `=` is an operator, the others
/// delimiters.
pub open spec fn alone_role(c: char) -> SyntaxTokenRole {
    if c == '=' { SyntaxTokenRole::Operator } else { SyntaxTokenRole::Delimiter }
}

/// `s[start..start + len]` is a whole word: at least one char, none of
/// which ends a word, with a word break or the text's edge on each side.
pub open spec fn is_whole_word(s: Seq<char>, start: int, len: int) -> bool {
    &&& len >= 1
    &&& 0 <= start
    &&& start + len <= s.len()
    &&& forall|m: int| start <= m < start + len ==> !breaks_word(#[trigger] s[m])
    &&& start == 0 || breaks_word(s[start - 1])
    &&& start + len == s.len() || breaks_word(s[start + len])
}

proof fn lemma_alone_role(c: char)
    requires
        splits_alone(c),
    ensures
        token_role(seq![c]) == alone_role(c),
{
    law_token_role_by_chars(seq![c]);
}

proof fn lemma_punctuation_runs(s: Seq<char>, i: int)
    requires
        0 <= i <= s.len(),
    ensures
        forall|p: int| i <= p < s.len() && splits_alone(s[p]) ==> exists|k: int|
            0 <= k < text_runs_from(s, i).len()
                && #[trigger] text_runs_from(s, i)[k] == (seq![s[p]], p, 1int, alone_role(s[p])),
    decreases s.len() - i,
{
    if i < s.len() {
        let all = text_runs_from(s, i);
        if is_unicode_whitespace(s[i]) {
            lemma_punctuation_runs(s, i + 1);
            assert forall|p: int| i <= p < s.len() && splits_alone(s[p]) implies exists|k: int|
                0 <= k < all.len() && #[trigger] all[k] == (seq![s[p]], p, 1int, alone_role(s[p])) by {
                assert(p != i);
            }
        } else if is_delimiter(s[i]) {
            lemma_punctuation_runs(s, i + 1);
            let rest = text_runs_from(s, i + 1);
            lemma_alone_role(s[i]);
            assert forall|p: int| i <= p < s.len() && splits_alone(s[p]) implies exists|k: int|
                0 <= k < all.len() && #[trigger] all[k] == (seq![s[p]], p, 1int, alone_role(s[p])) by {
                if p == i {
                    assert(all[0] == (seq![s[p]], p, 1int, alone_role(s[p])));
                } else {
                    let k = choose|k: int| 0 <= k < rest.len() && #[trigger] rest[k] == (seq![s[p]], p, 1int, alone_role(s[p]));
                    assert(all[k + 1] == rest[k]);
                }
            }
        } else {
            let j = word_end(s, i);
            lemma_word_end_bounds(s, i);
            lemma_punctuation_runs(s, j);
            let rest = text_runs_from(s, j);
            assert forall|p: int| i <= p < s.len() && splits_alone(s[p]) implies exists|k: int|
                0 <= k < all.len() && #[trigger] all[k] == (seq![s[p]], p, 1int, alone_role(s[p])) by {
                if p < j {
                    assert(!is_separator(s[p]));
                } else {
                    let k = choose|k: int| 0 <= k < rest.len() && #[trigger] rest[k] == (seq![s[p]], p, 1int, alone_role(s[p]));
                    assert(all[k + 1] == rest[k]);
                }
            }
        }
    }
}

proof fn lemma_run_shapes(s: Seq<char>, i: int)
    requires
        0 <= i <= s.len(),
        i == 0 || i == s.len() || breaks_word(s[i - 1]) || breaks_word(s[i]),
    ensures
        forall|k: int| 0 <= k < text_runs_from(s, i).len() ==> {
            let run = #[trigger] text_runs_from(s, i)[k];
            &&& i <= run.1
            &&& run.3 == token_role(run.0)
            &&& {
                ||| (run.2 == 1 && run.1 < s.len() && splits_alone(s[run.1]) && run.0 == seq![s[run.1]])
                ||| (is_whole_word(s, run.1, run.2) && run.0 == s.subrange(run.1, run.1 + run.2))
            }
        },
    decreases s.len() - i,
{
    if i < s.len() {
        let all = text_runs_from(s, i);
        if is_unicode_whitespace(s[i]) {
            lemma_run_shapes(s, i + 1);
            assert(all == text_runs_from(s, i + 1));
        } else if is_delimiter(s[i]) {
            lemma_run_shapes(s, i + 1);
            let rest = text_runs_from(s, i + 1);
            assert forall|k: int| 0 <= k < all.len() implies {
                let run = #[trigger] all[k];
                &&& i <= run.1
                &&& run.3 == token_role(run.0)
                &&& {
                    ||| (run.2 == 1 && run.1 < s.len() && splits_alone(s[run.1]) && run.0 == seq![s[run.1]])
                    ||| (is_whole_word(s, run.1, run.2) && run.0 == s.subrange(run.1, run.1 + run.2))
                }
            } by {
                if k > 0 {
                    assert(all[k] == rest[k - 1]);
                }
            }
        } else {
            let j = word_end(s, i);
            lemma_word_end_bounds(s, i);
            lemma_run_shapes(s, j);
            let rest = text_runs_from(s, j);
            assert(is_whole_word(s, i, j - i)) by {
                assert forall|m: int| i <= m < j implies !breaks_word(#[trigger] s[m]) by {
                    assert(!is_separator(s[m]));
                }
            }
            assert forall|k: int| 0 <= k < all.len() implies {
                let run = #[trigger] all[k];
                &&& i <= run.1
                &&& run.3 == token_role(run.0)
                &&& {
                    ||| (run.2 == 1 && run.1 < s.len() && splits_alone(s[run.1]) && run.0 == seq![s[run.1]])
                    ||| (is_whole_word(s, run.1, run.2) && run.0 == s.subrange(run.1, run.1 + run.2))
                }
            } by {
                if k > 0 {
                    assert(all[k] == rest[k - 1]);
                }
            }
        }
    }
}

/// Splitting plain text puts every `=`, `(`, `)` and `,` in a run of its
/// own at its offset (`=` as an operator, the others as delimiters), and
/// every other run is a whole word: the full stretch of chars between word
/// breaks, coloured by its chars.
pub proof fn law_text_runs_split_at_punctuation(s: Seq<char>)
    ensures
        forall|p: int| 0 <= p < s.len() && splits_alone(s[p]) ==> exists|k: int|
            0 <= k < text_runs_from(s, 0).len()
                && #[trigger] text_runs_from(s, 0)[k] == (seq![s[p]], p, 1int, alone_role(s[p])),
        forall|k: int| 0 <= k < text_runs_from(s, 0).len() ==> {
            let run = #[trigger] text_runs_from(s, 0)[k];
            &&& run.3 == token_role(run.0)
            &&& {
                ||| (run.2 == 1 && run.1 < s.len() && splits_alone(s[run.1]) && run.0 == seq![s[run.1]])
                ||| (is_whole_word(s, run.1, run.2) && run.0 == s.subrange(run.1, run.1 + run.2))
            }
        },
{
    lemma_punctuation_runs(s, 0);
    lemma_run_shapes(s, 0);
}

/// The run a token shows as: its text at its span, coloured by its text.
pub open spec fn token_run(tok: EditorToken) -> (Seq<char>, int, int, SyntaxTokenRole) {
    (tok.text@, tok.span.start as int, tok.span.len as int, token_role(tok.text@))
}

proof fn lemma_token_runs_hold_token(tok: EditorToken, is_last: bool, src: Seq<char>, e: int)
    requires
        tok.text@.len() > 0,
        tok.span.len > 0,
    ensures
        exists|j: int| 0 <= j < token_runs(tok, is_last, src, e).0.len()
            && #[trigger] token_runs(tok, is_last, src, e).0[j] == token_run(tok),
{
    let (r1, e1) = trivia_runs(tok.leading_trivia@, e);
    let start = tok.span.start as int;
    let (r2, e2) = if start > e1 && start <= src.len() {
        (r1.push((src.subrange(e1, start), e1, start - e1, SyntaxTokenRole::Text)), start)
    } else {
        (r1, e1)
    };
    let r3 = r2.push(token_run(tok));
    let tr = token_runs(tok, is_last, src, e).0;
    if is_last {
        let r4 = trivia_runs(tok.trailing_trivia@, sat_add(start, tok.span.len as int)).0;
        assert(tr == r3 + r4);
        assert(tr[r2.len() as int] == token_run(tok));
    } else {
        assert(tr == r3);
        assert(tr[r2.len() as int] == token_run(tok));
    }
}

proof fn lemma_prefix_runs_hold_tokens(tokens: Seq<EditorToken>, src: Seq<char>, m: int)
    requires
        0 <= m <= tokens.len(),
    ensures
        forall|k: int| 0 <= k < m && tokens[k].text@.len() > 0 && tokens[k].span.len > 0 ==> exists|j: int|
            0 <= j < snapshot_prefix_runs(tokens, src, m).0.len()
                && #[trigger] snapshot_prefix_runs(tokens, src, m).0[j] == token_run(#[trigger] tokens[k]),
    decreases m,
{
    if m > 0 {
        lemma_prefix_runs_hold_tokens(tokens, src, m - 1);
        let (r, e) = snapshot_prefix_runs(tokens, src, m - 1);
        let tr = token_runs(tokens[m - 1], m - 1 == tokens.len() - 1, src, e).0;
        let all = snapshot_prefix_runs(tokens, src, m).0;
        assert(all == r + tr);
        assert forall|k: int| 0 <= k < m && tokens[k].text@.len() > 0 && tokens[k].span.len > 0 implies exists|j: int|
            0 <= j < all.len() && #[trigger] all[j] == token_run(tokens[k]) by {
            if k < m - 1 {
                let j = choose|j: int| 0 <= j < r.len() && #[trigger] r[j] == token_run(tokens[k]);
                assert(all[j] == r[j]);
            } else {
                lemma_token_runs_hold_token(tokens[m - 1], m - 1 == tokens.len() - 1, src, e);
                let j = choose|j: int| 0 <= j < tr.len() && #[trigger] tr[j] == token_run(tokens[m - 1]);
                assert(all[r.len() + j] == tr[j]);
            }
        }
    }
}

/// Every token with text shows as a run of its own: its text at its span,
/// coloured by its text.
pub proof fn law_snapshot_runs_show_each_token(tokens: Seq<EditorToken>, src: Seq<char>)
    ensures
        forall|k: int| 0 <= k < tokens.len() && tokens[k].text@.len() > 0 && tokens[k].span.len > 0 ==> exists|j: int|
            0 <= j < snapshot_runs(tokens, src).len()
                && #[trigger] snapshot_runs(tokens, src)[j] == token_run(#[trigger] tokens[k]),
{
    let n = tokens.len() as int;
    lemma_prefix_runs_hold_tokens(tokens, src, n);
    let (r, e) = snapshot_prefix_runs(tokens, src, n);
    let all = snapshot_runs(tokens, src);
    assert forall|k: int| 0 <= k < n && tokens[k].text@.len() > 0 && tokens[k].span.len > 0 implies exists|j: int|
        0 <= j < all.len() && #[trigger] all[j] == token_run(tokens[k]) by {
        let j = choose|j: int| 0 <= j < r.len() && #[trigger] r[j] == token_run(tokens[k]);
        assert(all[j] == r[j]);
    }
}

} // verus!
