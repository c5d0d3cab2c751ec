//! Char-level helpers shared by the editor and the panels. Offsets in this
//! crate count `char`s, never bytes.
use vstd::prelude::*;

verus! {

/// Appends one char to a `String` (std `String::push`).
/// Trusted: the result's chars are the old chars followed by `c`, as the
/// std documentation of `String::push` says.
#[verifier::external_body]
pub(crate) fn push_char(s: &mut String, c: char)
    ensures
        final(s)@ == old(s)@.push(c),
{
    s.push(c);
}

/// The chars of `s`, in order.
pub fn chars_of(s: &str) -> (v: Vec<char>)
    ensures
        v@ == s@,
{
    let mut v: Vec<char> = Vec::new();
    for c in it: s.chars()
        invariant
            v@ == it.seq().take(it.index() as int),
            it.seq() == s@,
    {
        v.push(c);
    }
    v
}

/// A `String` made of the chars `v[from..to]`.
pub fn string_from_chars(v: &Vec<char>, from: usize, to: usize) -> (s: String)
    requires
        from <= to <= v@.len(),
    ensures
        s@ == v@.subrange(from as int, to as int),
{
    let mut s = String::new();
    let mut i = from;
    while i < to
        invariant
            from <= i <= to <= v@.len(),
            s@ == v@.subrange(from as int, i as int),
        decreases to - i,
    {
        push_char(&mut s, v[i]);
        assert(v@.subrange(from as int, i + 1) =~= v@.subrange(from as int, i as int).push(v@[i as int]));
        i += 1;
    }
    s
}

/// Whether two strings hold the same chars.
pub fn str_equals(a: &str, b: &str) -> (r: bool)
    ensures
        r == (a@ == b@),
{
    let av = chars_of(a);
    let bv = chars_of(b);
    if av.len() != bv.len() {
        return false;
    }
    let mut i: usize = 0;
    while i < av.len()
        invariant
            av@ == a@,
            bv@ == b@,
            av@.len() == bv@.len(),
            i <= av@.len(),
            forall|j: int| 0 <= j < i ==> av@[j] == bv@[j],
        decreases av@.len() - i,
    {
        if av[i] != bv[i] {
            return false;
        }
        i += 1;
    }
    assert(av@ =~= bv@);
    true
}

/// The Unicode `White_Space` property, which std's `char::is_whitespace`
/// tests.
pub open spec fn is_unicode_whitespace(c: char) -> bool {
    let u = c as u32;
    ||| 0x09 <= u <= 0x0D
    ||| u == 0x20
    ||| u == 0x85
    ||| u == 0xA0
    ||| u == 0x1680
    ||| 0x2000 <= u <= 0x200A
    ||| u == 0x2028
    ||| u == 0x2029
    ||| u == 0x202F
    ||| u == 0x205F
    ||| u == 0x3000
}

/// Executable form of [`is_unicode_whitespace`].
pub fn is_whitespace_char(c: char) -> (r: bool)
    ensures
        r == is_unicode_whitespace(c),
{
    let u = c as u32;
    (0x09 <= u && u <= 0x0D) || u == 0x20 || u == 0x85 || u == 0xA0 || u == 0x1680
        || (0x2000 <= u && u <= 0x200A) || u == 0x2028 || u == 0x2029 || u == 0x202F
        || u == 0x205F || u == 0x3000
}

/// std's `char::to_ascii_lowercase`.
pub open spec fn ascii_lower(c: char) -> char {
    if 'A' <= c <= 'Z' { ((c as u32) + 32) as char } else { c }
}

/// std's `str::to_ascii_lowercase`, char by char.
pub open spec fn ascii_lowercase(s: Seq<char>) -> Seq<char> {
    s.map_values(|c: char| ascii_lower(c))
}

pub open spec fn starts_with(s: Seq<char>, p: Seq<char>) -> bool {
    p.len() <= s.len() && s.subrange(0, p.len() as int) == p
}

/// Whether the ASCII-lowercased `v[a..b]` starts with `pat`.
pub fn lowered_starts_with(v: &Vec<char>, a: usize, b: usize, pat: &str) -> (r: bool)
    requires
        a <= b <= v@.len(),
    ensures
        r == starts_with(ascii_lowercase(v@.subrange(a as int, b as int)), pat@),
{
    let p = chars_of(pat);
    let ghost low = ascii_lowercase(v@.subrange(a as int, b as int));
    if p.len() > b - a {
        return false;
    }
    let mut k: usize = 0;
    while k < p.len()
        invariant
            a <= b <= v@.len(),
            p@ == pat@,
            p@.len() <= b - a,
            low == ascii_lowercase(v@.subrange(a as int, b as int)),
            k <= p@.len(),
            forall|j: int| 0 <= j < k ==> low[j] == p@[j],
        decreases p@.len() - k,
    {
        let c = v[a + k];
        let same = if 'A' <= c && c <= 'Z' { (c as u32) + 32 == p[k] as u32 } else { c == p[k] };
        assert(low[k as int] == ascii_lower(c));
        proof {
            if same && 'A' <= c <= 'Z' {
                let q = p@[k as int];
                vstd::utf8::char_u32_cast(q, q as u32);
                assert(((c as u32) + 32) as char == q);
            }
        }
        if !same {
            assert(low.subrange(0, p@.len() as int)[k as int] != p@[k as int]);
            return false;
        }
        k += 1;
    }
    assert(low.subrange(0, p@.len() as int) =~= p@);
    true
}

/// The index of the first non-whitespace char at or after `i`.
pub open spec fn skip_whitespace_front(s: Seq<char>, i: int) -> int
    decreases s.len() - i,
{
    if 0 <= i < s.len() && is_unicode_whitespace(s[i]) {
        skip_whitespace_front(s, i + 1)
    } else {
        i
    }
}

/// The end of `s[lo..j]` with trailing whitespace dropped.
pub open spec fn skip_whitespace_back(s: Seq<char>, j: int, lo: int) -> int
    decreases j - lo,
{
    if lo < j && j <= s.len() && is_unicode_whitespace(s[j - 1]) {
        skip_whitespace_back(s, j - 1, lo)
    } else {
        j
    }
}

/// std's `str::trim`: `s` without leading and trailing whitespace.
pub open spec fn trimmed(s: Seq<char>) -> Seq<char> {
    let a = skip_whitespace_front(s, 0);
    s.subrange(a, skip_whitespace_back(s, s.len() as int, a))
}

/// The bounds of `v` with leading and trailing whitespace dropped.
pub fn trim_bounds(v: &Vec<char>) -> (r: (usize, usize))
    ensures
        r.0 == skip_whitespace_front(v@, 0),
        r.1 == skip_whitespace_back(v@, v@.len() as int, r.0 as int),
        r.0 <= r.1 <= v@.len(),
        v@.subrange(r.0 as int, r.1 as int) == trimmed(v@),
{
    let n = v.len();
    let mut a: usize = 0;
    while a < n && is_whitespace_char(v[a])
        invariant
            n == v@.len(),
            a <= n,
            skip_whitespace_front(v@, 0) == skip_whitespace_front(v@, a as int),
        decreases n - a,
    {
        a += 1;
    }
    let mut b: usize = n;
    while b > a && is_whitespace_char(v[b - 1])
        invariant
            n == v@.len(),
            a <= b <= n,
            skip_whitespace_back(v@, n as int, a as int) == skip_whitespace_back(v@, b as int, a as int),
        decreases b - a,
    {
        b -= 1;
    }
    (a, b)
}

/// The number of UTF-16 code units that encode `s`.
pub open spec fn utf16_len(s: Seq<char>) -> nat
    decreases s.len(),
{
    if s.len() == 0 {
        0
    } else {
        utf16_len(s.drop_last()) + if (s.last() as u32) >= 0x10000 { 2nat } else { 1nat }
    }
}

/// The UTF-16 length of `v[a..b]`.
pub fn utf16_len_of(v: &Vec<char>, a: usize, b: usize) -> (r: usize)
    requires
        a <= b <= v@.len(),
        2 * (b - a) <= usize::MAX,
    ensures
        r == utf16_len(v@.subrange(a as int, b as int)),
{
    let mut count: usize = 0;
    let mut i = a;
    while i < b
        invariant
            a <= i <= b <= v@.len(),
            2 * (b - a) <= usize::MAX,
            count == utf16_len(v@.subrange(a as int, i as int)),
            count <= 2 * (i - a),
        decreases b - i,
    {
        assert(v@.subrange(a as int, i + 1).drop_last() =~= v@.subrange(a as int, i as int));
        if (v[i] as u32) >= 0x10000 {
            count += 2;
        } else {
            count += 1;
        }
        i += 1;
    }
    count
}

/// The decimal digits of `n`.
pub open spec fn decimal_digits(n: nat) -> Seq<char>
    decreases n,
{
    if n < 10 {
        seq![((n as u32) + 48) as char]
    } else {
        decimal_digits(n / 10).push((((n % 10) as u32) + 48) as char)
    }
}

/// Appends the decimal digits of `n`.
pub fn push_decimal(s: &mut String, n: usize)
    ensures
        final(s)@ == old(s)@ + decimal_digits(n as nat),
    decreases n,
{
    if n >= 10 {
        push_decimal(s, n / 10);
    }
    let d = (n % 10) as u32;
    let c = if d == 0 { '0' } else if d == 1 { '1' } else if d == 2 { '2' } else if d == 3 { '3' }
        else if d == 4 { '4' } else if d == 5 { '5' } else if d == 6 { '6' } else if d == 7 { '7' }
        else if d == 8 { '8' } else { '9' };
    assert(c == ((d + 48) as char));
    push_char(s, c);
    assert(final(s)@ =~= old(s)@ + decimal_digits(n as nat));
}

/// The first `limit` chars of `s` followed by an ellipsis, or `s` itself
/// when it has at most `keep_whole` chars.
pub open spec fn shortened(s: Seq<char>, keep_whole: int, limit: int) -> Seq<char> {
    if s.len() <= keep_whole { s } else { s.take(limit).push('…') }
}

/// `v[a..b]`, shortened as [`shortened`] says.
pub fn shorten_chars(v: &Vec<char>, a: usize, b: usize, keep_whole: usize, limit: usize) -> (r: String)
    requires
        a <= b <= v@.len(),
        limit <= keep_whole,
    ensures
        r@ == shortened(v@.subrange(a as int, b as int), keep_whole as int, limit as int),
{
    if b - a <= keep_whole {
        string_from_chars(v, a, b)
    } else {
        let mut s = string_from_chars(v, a, a + limit);
        push_char(&mut s, '…');
        assert(v@.subrange(a as int, b as int).take(limit as int) =~= v@.subrange(a as int, a + limit));
        s
    }
}

/// Whether `s` is one of the strings of `options`.
pub open spec fn is_one_of(s: Seq<char>, options: Seq<Seq<char>>) -> bool {
    exists|i: int| 0 <= i < options.len() && options[i] == s
}

/// Whether `s` is empty once leading and trailing whitespace is dropped.
pub fn is_blank(s: &str) -> (r: bool)
    ensures
        r == (trimmed(s@).len() == 0),
{
    let chars = chars_of(s);
    let (a, b) = trim_bounds(&chars);
    a == b
}

/// The ASCII-lowercased `v[a..b]` equals `pat`.
pub fn lowered_equals(v: &Vec<char>, a: usize, b: usize, pat: &str) -> (r: bool)
    requires
        a <= b <= v@.len(),
    ensures
        r == (ascii_lowercase(v@.subrange(a as int, b as int)) == pat@),
{
    let prefix = lowered_starts_with(v, a, b, pat);
    let same_len = b - a == pat.unicode_len();
    let ghost low = ascii_lowercase(v@.subrange(a as int, b as int));
    proof {
        assert(low.len() == b - a);
        if prefix && same_len {
            assert(low.subrange(0, pat@.len() as int) =~= low);
        }
        if low == pat@ {
            assert(low.subrange(0, pat@.len() as int) =~= low);
        }
    }
    prefix && same_len
}

} // verus!
