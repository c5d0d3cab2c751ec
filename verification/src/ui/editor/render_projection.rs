//! The syntax-coloured runs that the editor overlay renders over the
//! textarea.
use vstd::prelude::*;

use crate::adapters::{EditorSyntaxSnapshot, EditorToken, EditorTrivia};
use crate::text::{chars_of, is_unicode_whitespace, is_whitespace_char, string_from_chars};

verus! {

#[derive(Debug, Clone, Copy, PartialEq, Eq, Structural)]
pub enum SyntaxTokenRole {
    Operator,
    Function,
    Number,
    Delimiter,
    Identifier,
    Text,
    /// Trivia between tokens (whitespace, comments). Rendered with no
    /// special colour but emitted as its own run so the overlay's text
    /// equals the textarea's value char for char.
    Trivia,
}

#[derive(Debug, PartialEq, Eq)]
pub struct SyntaxRun {
    pub text: String,
    pub span_start: usize,
    pub span_len: usize,
    pub role: SyntaxTokenRole,
}

impl Clone for SyntaxRun {
    fn clone(&self) -> (r: Self)
        ensures
            r == *self,
    {
        SyntaxRun {
            text: self.text.clone(),
            span_start: self.span_start,
            span_len: self.span_len,
            role: self.role,
        }
    }
}

/// A run as plain values: its chars, span start, span length and role.
pub open spec fn run_view(r: SyntaxRun) -> (Seq<char>, int, int, SyntaxTokenRole) {
    (r.text@, r.span_start as int, r.span_len as int, r.role)
}

pub open spec fn runs_view(v: Seq<SyntaxRun>) -> Seq<(Seq<char>, int, int, SyntaxTokenRole)> {
    v.map_values(|r: SyntaxRun| run_view(r))
}

// ---------------------------------------------------------------------------
// Token roles
// ---------------------------------------------------------------------------

pub open spec fn is_ascii_digit(c: char) -> bool {
    '0' <= c <= '9'
}

pub open spec fn is_ascii_uppercase(c: char) -> bool {
    'A' <= c <= 'Z'
}

pub open spec fn is_ascii_alphanumeric(c: char) -> bool {
    ('0' <= c <= '9') || ('A' <= c <= 'Z') || ('a' <= c <= 'z')
}

pub open spec fn is_number_char(c: char) -> bool {
    is_ascii_digit(c) || c == '.'
}

pub open spec fn is_function_char(c: char) -> bool {
    is_ascii_uppercase(c) || c == '_'
}

pub open spec fn is_identifier_char(c: char) -> bool {
    is_ascii_alphanumeric(c) || c == '_' || c == '.'
}

/// The role of a token with text `t`.
pub open spec fn token_role(t: Seq<char>) -> SyntaxTokenRole {
    if t == seq!['='] {
        SyntaxTokenRole::Operator
    } else if t == seq!['('] || t == seq![')'] || t == seq![','] {
        SyntaxTokenRole::Delimiter
    } else if t.len() > 0 && (forall|i: int| 0 <= i < t.len() ==> is_number_char(#[trigger] t[i])) {
        SyntaxTokenRole::Number
    } else if t.len() > 0 && (forall|i: int| 0 <= i < t.len() ==> is_function_char(#[trigger] t[i])) {
        SyntaxTokenRole::Function
    } else if t.len() > 0 && (forall|i: int| 0 <= i < t.len() ==> is_identifier_char(#[trigger] t[i])) {
        SyntaxTokenRole::Identifier
    } else {
        SyntaxTokenRole::Text
    }
}

fn classify_token_chars(t: &Vec<char>) -> (r: SyntaxTokenRole)
    ensures
        r == token_role(t@),
{
    let n = t.len();
    if n == 1 && t[0] == '=' {
        assert(t@ =~= seq!['=']);
        return SyntaxTokenRole::Operator;
    }
    if n == 1 && (t[0] == '(' || t[0] == ')' || t[0] == ',') {
        assert(t@ =~= seq![t@[0]]);
        return SyntaxTokenRole::Delimiter;
    }
    assert(t@ != seq!['=']);
    assert(t@ != seq!['('] && t@ != seq![')'] && t@ != seq![',']) by {
        if t@.len() == 1 {
            assert(t@[0] == seq!['('][0] ==> t@ =~= seq!['(']);
        }
    }
    let mut all_number = true;
    let mut all_function = true;
    let mut all_identifier = true;
    let mut i: usize = 0;
    while i < n
        invariant
            n == t@.len(),
            i <= n,
            all_number == (forall|j: int| 0 <= j < i ==> is_number_char(#[trigger] t@[j])),
            all_function == (forall|j: int| 0 <= j < i ==> is_function_char(#[trigger] t@[j])),
            all_identifier == (forall|j: int| 0 <= j < i ==> is_identifier_char(#[trigger] t@[j])),
        decreases n - i,
    {
        let c = t[i];
        let number_char = ('0' <= c && c <= '9') || c == '.';
        let function_char = ('A' <= c && c <= 'Z') || c == '_';
        let identifier_char = ('0' <= c && c <= '9') || ('A' <= c && c <= 'Z') || ('a' <= c && c <= 'z')
            || c == '_' || c == '.';
        proof {
            if !number_char {
                assert(!is_number_char(t@[i as int]));
            }
            if !function_char {
                assert(!is_function_char(t@[i as int]));
            }
            if !identifier_char {
                assert(!is_identifier_char(t@[i as int]));
            }
        }
        all_number = all_number && number_char;
        all_function = all_function && function_char;
        all_identifier = all_identifier && identifier_char;
        i += 1;
    }
    if n > 0 && all_number {
        SyntaxTokenRole::Number
    } else if n > 0 && all_function {
        SyntaxTokenRole::Function
    } else if n > 0 && all_identifier {
        SyntaxTokenRole::Identifier
    } else {
        SyntaxTokenRole::Text
    }
}

/// The colouring role of a token.
pub fn classify_token_role(text: &str) -> (r: SyntaxTokenRole)
    ensures
        r == token_role(text@),
{
    let chars = chars_of(text);
    classify_token_chars(&chars)
}

// ---------------------------------------------------------------------------
// Runs from an engine snapshot
// ---------------------------------------------------------------------------

pub open spec fn sat_add(a: int, b: int) -> int {
    if a + b > usize::MAX { usize::MAX as int } else { a + b }
}

/// The runs for a list of trivia starting at offset `e`, and the offset
/// after them; empty trivia yield no run.
pub open spec fn trivia_runs(ts: Seq<EditorTrivia>, e: int) -> (Seq<(Seq<char>, int, int, SyntaxTokenRole)>, int)
    decreases ts.len(),
{
    if ts.len() == 0 {
        (Seq::empty(), e)
    } else {
        let (r, e1) = trivia_runs(ts.drop_last(), e);
        let t = ts.last().text@;
        if t.len() == 0 {
            (r, e1)
        } else {
            (r.push((t, e1, t.len() as int, SyntaxTokenRole::Trivia)), sat_add(e1, t.len() as int))
        }
    }
}

/// The runs of one token at expected offset `e`: its leading trivia, a
/// `Text` run from the source for any gap before its span, the token
/// itself unless its text or span is empty (the run list carries no
/// zero-width segments), and for the last token its trailing trivia.
pub open spec fn token_runs(tok: EditorToken, is_last: bool, src: Seq<char>, e: int)
    -> (Seq<(Seq<char>, int, int, SyntaxTokenRole)>, int)
{
    let (r1, e1) = trivia_runs(tok.leading_trivia@, e);
    let start = tok.span.start as int;
    let (r2, e2) = if start > e1 && start <= src.len() {
        (r1.push((src.subrange(e1, start), e1, start - e1, SyntaxTokenRole::Text)), start)
    } else {
        (r1, e1)
    };
    let r3 = if tok.text@.len() > 0 && tok.span.len > 0 {
        r2.push((tok.text@, start, tok.span.len as int, token_role(tok.text@)))
    } else {
        r2
    };
    let e3 = sat_add(start, tok.span.len as int);
    if is_last {
        let (r4, e4) = trivia_runs(tok.trailing_trivia@, e3);
        (r3 + r4, e4)
    } else {
        (r3, e3)
    }
}

/// The runs of the first `k` tokens and the offset after them.
pub open spec fn snapshot_prefix_runs(tokens: Seq<EditorToken>, src: Seq<char>, k: int)
    -> (Seq<(Seq<char>, int, int, SyntaxTokenRole)>, int)
    decreases k,
{
    if k <= 0 {
        (Seq::empty(), 0)
    } else {
        let (r, e) = snapshot_prefix_runs(tokens, src, k - 1);
        let (tr, te) = token_runs(tokens[k - 1], k - 1 == tokens.len() - 1, src, e);
        (r + tr, te)
    }
}

/// The runs of a whole snapshot over `src`, with a `Text` run for any
/// source text left after the last token.
pub open spec fn snapshot_runs(tokens: Seq<EditorToken>, src: Seq<char>) -> Seq<(Seq<char>, int, int, SyntaxTokenRole)> {
    let (r, e) = snapshot_prefix_runs(tokens, src, tokens.len() as int);
    if e < src.len() {
        r.push((src.subrange(e, src.len() as int), e, src.len() - e, SyntaxTokenRole::Text))
    } else {
        r
    }
}

/// No run of `v` is zero-width.
pub open spec fn runs_nonzero(v: Seq<SyntaxRun>) -> bool {
    forall|i: int| 0 <= i < v.len() ==> v[i].span_len >= 1 && v[i].text@.len() >= 1
}

proof fn lemma_runs_view_push(v: Seq<SyntaxRun>, x: SyntaxRun)
    ensures
        runs_view(v.push(x)) == runs_view(v).push(run_view(x)),
{
    assert(runs_view(v.push(x)) =~= runs_view(v).push(run_view(x)));
}

/// Emits a trivia run at `expected_offset` and advances the offset by the
/// trivia's char count; empty trivia emit nothing.
fn push_trivia_run(runs: &mut Vec<SyntaxRun>, expected_offset: &mut usize, text: &String)
    requires
        runs_nonzero(old(runs)@),
    ensures
        runs_nonzero(final(runs)@),
        text@.len() == 0 ==> final(runs)@ == old(runs)@ && *final(expected_offset) == *old(expected_offset),
        text@.len() > 0 ==> runs_view(final(runs)@) == runs_view(old(runs)@).push(
            (text@, *old(expected_offset) as int, text@.len() as int, SyntaxTokenRole::Trivia),
        ) && *final(expected_offset) == sat_add(*old(expected_offset) as int, text@.len() as int),
{
    let len = text.as_str().unicode_len();
    if len == 0 {
        return;
    }
    proof {
        lemma_runs_view_push(runs@, SyntaxRun {
            text: *text,
            span_start: *expected_offset,
            span_len: len,
            role: SyntaxTokenRole::Trivia,
        });
    }
    runs.push(SyntaxRun {
        text: text.clone(),
        span_start: *expected_offset,
        span_len: len,
        role: SyntaxTokenRole::Trivia,
    });
    *expected_offset = expected_offset.saturating_add(len);
}

/// Emits a `Text` run for the source chars `source[*expected_offset..end]`
/// and advances the offset to `end`; an empty range emits nothing.
fn push_text_run(runs: &mut Vec<SyntaxRun>, expected_offset: &mut usize, source: &Vec<char>, end: usize)
    requires
        *old(expected_offset) <= end <= source@.len(),
        runs_nonzero(old(runs)@),
    ensures
        runs_nonzero(final(runs)@),
        end == *old(expected_offset) ==> final(runs)@ == old(runs)@,
        end > *old(expected_offset) ==> runs_view(final(runs)@) == runs_view(old(runs)@).push(
            (
                source@.subrange(*old(expected_offset) as int, end as int),
                *old(expected_offset) as int,
                end - *old(expected_offset),
                SyntaxTokenRole::Text,
            ),
        ),
        *final(expected_offset) == end,
{
    if end == *expected_offset {
        return;
    }
    let text = string_from_chars(source, *expected_offset, end);
    let run = SyntaxRun { text, span_start: *expected_offset, span_len: end - *expected_offset, role: SyntaxTokenRole::Text };
    proof {
        lemma_runs_view_push(runs@, run);
    }
    runs.push(run);
    *expected_offset = end;
}

/// Emits the runs of a list of trivia.
fn push_trivia_runs(runs: &mut Vec<SyntaxRun>, expected_offset: &mut usize, trivia: &Vec<EditorTrivia>)
    requires
        runs_nonzero(old(runs)@),
    ensures
        runs_nonzero(final(runs)@),
        runs_view(final(runs)@) == runs_view(old(runs)@) + trivia_runs(trivia@, *old(expected_offset) as int).0,
        *final(expected_offset) == trivia_runs(trivia@, *old(expected_offset) as int).1,
{
    let ghost base = runs_view(runs@);
    let ghost e0 = *expected_offset as int;
    let mut k: usize = 0;
    while k < trivia.len()
        invariant
            k <= trivia@.len(),
            runs_view(runs@) == base + trivia_runs(trivia@.take(k as int), e0).0,
            *expected_offset == trivia_runs(trivia@.take(k as int), e0).1,
            runs_nonzero(runs@),
        decreases trivia@.len() - k,
    {
        assert(trivia@.take(k + 1).drop_last() =~= trivia@.take(k as int));
        push_trivia_run(runs, expected_offset, &trivia[k].text);
        assert(runs_view(runs@) =~= base + trivia_runs(trivia@.take(k + 1), e0).0);
        k += 1;
    }
    assert(trivia@.take(trivia@.len() as int) =~= trivia@);
}

/// Builds syntax runs from an editor snapshot so that the overlay's text
/// matches the textarea char for char: every token's leading trivia, the
/// last token's trailing trivia, and `Text` runs from `source_text` for any
/// gap before a token's span or after the last token. Tokens with empty
/// text or span are skipped, so no run is zero-width.
pub fn syntax_runs_from_snapshot(snapshot: &EditorSyntaxSnapshot, source_text: &str) -> (r: Vec<SyntaxRun>)
    ensures
        runs_view(r@) == snapshot_runs(snapshot.tokens@, source_text@),
        runs_nonzero(r@),
{
    let source_chars = chars_of(source_text);
    let source_len = source_chars.len();
    let ghost tokens = snapshot.tokens@;
    let ghost src = source_chars@;
    let mut runs: Vec<SyntaxRun> = Vec::new();
    let mut expected_offset: usize = 0;
    let n = snapshot.tokens.len();
    let last_index = n.saturating_sub(1);
    let mut token_index: usize = 0;
    assert(runs_view(runs@) =~= Seq::empty());
    while token_index < n
        invariant
            tokens == snapshot.tokens@,
            src == source_chars@,
            src == source_text@,
            source_len == src.len(),
            n == tokens.len(),
            last_index == if n == 0 { 0 } else { n - 1 },
            token_index <= n,
            runs_view(runs@) == snapshot_prefix_runs(tokens, src, token_index as int).0,
            expected_offset == snapshot_prefix_runs(tokens, src, token_index as int).1,
            runs_nonzero(runs@),
        decreases n - token_index,
    {
        let token = &snapshot.tokens[token_index];
        let ghost before = runs_view(runs@);
        let ghost e0 = expected_offset as int;
        push_trivia_runs(&mut runs, &mut expected_offset, &token.leading_trivia);
        if token.span.start > expected_offset && token.span.start <= source_len {
            push_text_run(&mut runs, &mut expected_offset, &source_chars, token.span.start);
        }
        if token.span.len > 0 && token.text.as_str().unicode_len() > 0 {
            let run = SyntaxRun {
                text: token.text.clone(),
                span_start: token.span.start,
                span_len: token.span.len,
                role: classify_token_role(token.text.as_str()),
            };
            proof {
                lemma_runs_view_push(runs@, run);
            }
            runs.push(run);
        }
        expected_offset = token.span.start.saturating_add(token.span.len);
        if token_index == last_index {
            push_trivia_runs(&mut runs, &mut expected_offset, &token.trailing_trivia);
        }
        assert(runs_view(runs@) =~= before + token_runs(tokens[token_index as int], token_index as int == n - 1, src, e0).0);
        token_index += 1;
    }
    if expected_offset < source_len {
        push_text_run(&mut runs, &mut expected_offset, &source_chars, source_len);
    }
    runs
}

// ---------------------------------------------------------------------------
// Runs split from plain text
// ---------------------------------------------------------------------------

pub open spec fn is_delimiter(c: char) -> bool {
    c == '=' || c == '(' || c == ')' || c == ','
}

/// Whitespace and delimiters end a word.
pub open spec fn is_separator(c: char) -> bool {
    is_unicode_whitespace(c) || is_delimiter(c)
}

/// The end of the word that starts at `i`: the first separator at or after
/// `i`, or the end of the text.
pub open spec fn word_end(s: Seq<char>, i: int) -> int
    decreases s.len() - i,
{
    if 0 <= i < s.len() && !is_separator(s[i]) {
        word_end(s, i + 1)
    } else {
        i
    }
}

pub proof fn lemma_word_end_bounds(s: Seq<char>, i: int)
    requires
        0 <= i <= s.len(),
    ensures
        i <= word_end(s, i) <= s.len(),
        i < s.len() && !is_separator(s[i]) ==> i < word_end(s, i),
        forall|k: int| i <= k < word_end(s, i) ==> !is_separator(#[trigger] s[k]),
        word_end(s, i) < s.len() ==> is_separator(s[word_end(s, i)]),
    decreases s.len() - i,
{
    if i < s.len() && !is_separator(s[i]) {
        lemma_word_end_bounds(s, i + 1);
    }
}

/// The runs of `s[i..]`: whitespace is skipped, each delimiter is a run of
/// its own, and each maximal stretch of other chars is one run.
pub open spec fn text_runs_from(s: Seq<char>, i: int) -> Seq<(Seq<char>, int, int, SyntaxTokenRole)>
    decreases s.len() - i,
{
    if i < 0 || i >= s.len() {
        Seq::empty()
    } else if is_unicode_whitespace(s[i]) {
        text_runs_from(s, i + 1)
    } else if is_delimiter(s[i]) {
        seq![(seq![s[i]], i, 1int, token_role(seq![s[i]]))] + text_runs_from(s, i + 1)
    } else {
        let j = word_end(s, i);
        proof {
            lemma_word_end_bounds(s, i);
        }
        seq![(s.subrange(i, j), i, j - i, token_role(s.subrange(i, j)))] + text_runs_from(s, j)
    }
}

/// Emits the pending token `chars[start..end]` as a run, if it is not empty.
fn flush_token(runs: &mut Vec<SyntaxRun>, chars: &Vec<char>, start: usize, end: usize)
    requires
        start <= end <= chars@.len(),
    ensures
        start == end ==> final(runs)@ == old(runs)@,
        start < end ==> runs_view(final(runs)@) == runs_view(old(runs)@).push(
            (
                chars@.subrange(start as int, end as int),
                start as int,
                end - start,
                token_role(chars@.subrange(start as int, end as int)),
            ),
        ),
{
    if start == end {
        return;
    }
    let text = string_from_chars(chars, start, end);
    let role = classify_token_role(text.as_str());
    let run = SyntaxRun { text, span_start: start, span_len: end - start, role };
    proof {
        lemma_runs_view_push(runs@, run);
    }
    runs.push(run);
}

/// Splits formula-like text into runs without an engine snapshot:
/// whitespace separates, `=`, `(`, `)` and `,` are runs of their own, and
/// every other stretch of chars is one run.
pub fn syntax_runs_from_text(text: &str) -> (r: Vec<SyntaxRun>)
    ensures
        runs_view(r@) == text_runs_from(text@, 0),
{
    let chars = chars_of(text);
    let n = chars.len();
    let ghost s = chars@;
    let mut runs: Vec<SyntaxRun> = Vec::new();
    let mut i: usize = 0;
    assert(runs_view(runs@) =~= Seq::empty());
    assert(runs_view(runs@) + text_runs_from(s, 0) =~= text_runs_from(s, 0));
    while i < n
        invariant
            s == chars@,
            s == text@,
            n == s.len(),
            i <= n,
            runs_view(runs@) + text_runs_from(s, i as int) == text_runs_from(s, 0),
        decreases n - i,
    {
        let ghost before = runs_view(runs@);
        let ch = chars[i];
        if is_whitespace_char(ch) {
            i += 1;
        } else if ch == '=' || ch == '(' || ch == ')' || ch == ',' {
            flush_token(&mut runs, &chars, i, i + 1);
            assert(chars@.subrange(i as int, i + 1) =~= seq![ch]);
            assert(runs_view(runs@) + text_runs_from(s, i + 1) =~= before + text_runs_from(s, i as int));
            i += 1;
        } else {
            proof {
                lemma_word_end_bounds(s, i as int);
            }
            let mut j = i + 1;
            while j < n && !(is_whitespace_char(chars[j]) || chars[j] == '=' || chars[j] == '('
                || chars[j] == ')' || chars[j] == ',')
                invariant
                    s == chars@,
                    n == s.len(),
                    i < j <= n,
                    word_end(s, i as int) == word_end(s, j as int),
                decreases n - j,
            {
                j += 1;
            }
            flush_token(&mut runs, &chars, i, j);
            assert(runs_view(runs@) + text_runs_from(s, j as int) =~= before + text_runs_from(s, i as int));
            i = j;
        }
    }
    assert(runs_view(runs@) =~= runs_view(runs@) + text_runs_from(s, n as int));
    runs
}

} // verus!
