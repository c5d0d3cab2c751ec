//! Text decisions of the Explore shell: splitting a function signature
//! into its prefix, arguments and suffix.
use vstd::prelude::*;

use crate::text::{chars_of, string_from_chars, trim_bounds, trimmed};

verus! {

/// The first index at or after `i` that holds `c`.
pub open spec fn find_from(s: Seq<char>, c: char, i: int) -> Option<int>
    decreases s.len() - i,
{
    if i < 0 || i >= s.len() {
        None
    } else if s[i] == c {
        Some(i)
    } else {
        find_from(s, c, i + 1)
    }
}

/// The last index below `j` that holds `c`.
pub open spec fn rfind_below(s: Seq<char>, c: char, j: int) -> Option<int>
    decreases j,
{
    if j <= 0 || j > s.len() {
        None
    } else if s[j - 1] == c {
        Some(j - 1)
    } else {
        rfind_below(s, c, j - 1)
    }
}

/// The first comma at or after `i`, or the end of `s`.
pub open spec fn comma_from(s: Seq<char>, i: int) -> int
    decreases s.len() - i,
{
    if 0 <= i < s.len() && s[i] != ',' {
        comma_from(s, i + 1)
    } else {
        i
    }
}

pub proof fn lemma_comma_from_bounds(s: Seq<char>, i: int)
    requires
        0 <= i <= s.len(),
    ensures
        i <= comma_from(s, i) <= s.len(),
        comma_from(s, i) < s.len() ==> s[comma_from(s, i)] == ',',
    decreases s.len() - i,
{
    if i < s.len() && s[i] != ',' {
        lemma_comma_from_bounds(s, i + 1);
    }
}

/// The comma-separated parts of `s[i..]`, trimmed, without empty ones.
pub open spec fn argument_parts(s: Seq<char>, i: int) -> Seq<Seq<char>>
    decreases s.len() - i,
{
    if i < 0 || i > s.len() {
        Seq::empty()
    } else {
        let j = comma_from(s, i);
        proof {
            lemma_comma_from_bounds(s, i);
        }
        let part = trimmed(s.subrange(i, j));
        let first = if part.len() > 0 { seq![part] } else { Seq::empty() };
        if j < s.len() {
            first + argument_parts(s, j + 1)
        } else {
            first
        }
    }
}

/// A signature such as `SUM(number1, number2, ...)` split into the text up
/// to the first `(`, the trimmed non-empty arguments, and the text from the
/// last `)`; a signature without such a pair is all prefix.
pub open spec fn signature_parts(s: Seq<char>) -> (Seq<char>, Seq<Seq<char>>, Seq<char>) {
    match (find_from(s, '(', 0), rfind_below(s, ')', s.len() as int)) {
        (Some(o), Some(c)) => if c > o {
            (s.subrange(0, o + 1), argument_parts(s.subrange(o + 1, c), 0), s.subrange(c, s.len() as int))
        } else {
            (s, Seq::empty(), Seq::empty())
        },
        _ => (s, Seq::empty(), Seq::empty()),
    }
}

pub open spec fn strings_view(v: Seq<String>) -> Seq<Seq<char>> {
    v.map_values(|x: String| x@)
}

fn copy_range(v: &Vec<char>, a: usize, b: usize) -> (r: Vec<char>)
    requires
        a <= b <= v@.len(),
    ensures
        r@ == v@.subrange(a as int, b as int),
{
    let mut r: Vec<char> = Vec::new();
    let mut i = a;
    while i < b
        invariant
            a <= i <= b <= v@.len(),
            r@ == v@.subrange(a as int, i as int),
        decreases b - i,
    {
        r.push(v[i]);
        assert(r@ =~= v@.subrange(a as int, i + 1));
        i += 1;
    }
    r
}

fn argument_list(s: &Vec<char>) -> (r: Vec<String>)
    ensures
        strings_view(r@) == argument_parts(s@, 0),
{
    let n = s.len();
    let mut out: Vec<String> = Vec::new();
    let mut i: usize = 0;
    assert(strings_view(out@) + argument_parts(s@, 0) =~= argument_parts(s@, 0));
    loop
        invariant
            n == s@.len(),
            i <= n,
            strings_view(out@) + argument_parts(s@, i as int) == argument_parts(s@, 0),
        decreases n - i,
    {
        let ghost before = strings_view(out@);
        let mut j = i;
        while j < n && s[j] != ','
            invariant
                n == s@.len(),
                i <= j <= n,
                comma_from(s@, i as int) == comma_from(s@, j as int),
            decreases n - j,
        {
            j += 1;
        }
        proof {
            lemma_comma_from_bounds(s@, j as int);
        }
        let part = copy_range(s, i, j);
        let (c, d) = trim_bounds(&part);
        if c < d {
            let text = string_from_chars(&part, c, d);
            out.push(text);
            assert(strings_view(out@) =~= before.push(text@));
        }
        if j < n {
            assert(strings_view(out@) + argument_parts(s@, j + 1) =~= before + argument_parts(s@, i as int));
            i = j + 1;
        } else {
            assert(strings_view(out@) =~= before + argument_parts(s@, i as int));
            assert(strings_view(out@) + argument_parts(s@, n as int + 1) =~= strings_view(out@));
            return out;
        }
    }
}

/// Splits a display signature into prefix, arguments and suffix.
pub fn split_signature(display_signature: &str) -> (r: (String, Vec<String>, String))
    ensures
        (r.0@, strings_view(r.1@), r.2@) == signature_parts(display_signature@),
{
    let s = chars_of(display_signature);
    let n = s.len();
    let mut open: usize = 0;
    while open < n && s[open] != '('
        invariant
            n == s@.len(),
            open <= n,
            find_from(s@, '(', 0) == find_from(s@, '(', open as int),
        decreases n - open,
    {
        open += 1;
    }
    let mut close: usize = n;
    while close > 0 && s[close - 1] != ')'
        invariant
            n == s@.len(),
            close <= n,
            rfind_below(s@, ')', n as int) == rfind_below(s@, ')', close as int),
        decreases close,
    {
        close -= 1;
    }
    if open == n || close == 0 || close - 1 <= open {
        assert(s@.subrange(0, n as int) =~= s@);
        return (string_from_chars(&s, 0, n), Vec::new(), String::new());
    }
    let close_index = close - 1;
    let prefix = string_from_chars(&s, 0, open + 1);
    let inner = copy_range(&s, open + 1, close_index);
    let arguments = argument_list(&inner);
    let suffix = string_from_chars(&s, close_index, n);
    (prefix, arguments, suffix)
}

} // verus!
