//! Text decisions of the home shell: short keys, column labels, key
//! classes, textarea splicing, truncation, slugs and glyphs.
use vstd::prelude::*;

use crate::adapters::{FormulaTextSpan, FormulaWalkNodeState};
use crate::services::{CompletionAcceptance, ConditionalFormattingRuleView};
use crate::state::{
    FormulaAverageRuleOptions, FormulaColorScaleRuleOptions, FormulaColorScaleStop,
    FormulaConditionalFormattingRank, FormulaConditionalFormattingRule,
    FormulaConditionalFormattingThreshold, FormulaConditionalFormattingTypedRule,
    FormulaDataBarRuleOptions, FormulaIconSetRuleOptions, FormulaRankRuleOptions,
};
use crate::ui::editor::commands::{EditorInputEvent, EditorInputKind};
use crate::text::{
    ascii_lowercase, chars_of, lowered_equals, is_one_of, push_char, shorten_chars, shortened, starts_with, str_equals,
    string_from_chars,
};
use crate::ui::editor::render_projection::SyntaxTokenRole;
use crate::ui::editor::state::min_nat;

verus! {

/// The key with a leading `green:` dropped.
pub open spec fn green_key_body(key: Seq<char>) -> Seq<char> {
    if starts_with(key, "green:"@) { key.subrange(6, key.len() as int) } else { key }
}

/// Trims a long `green:abcdef0123...` key down to a status-foot-friendly
/// `abcdef…` form: keys of at most seven chars (after the prefix) stay.
pub fn short_green_tree_key(key: &str) -> (r: String)
    ensures
        r@ == shortened(green_key_body(key@), 7, 6),
{
    let chars = chars_of(key);
    let prefix = chars_of("green:");
    proof {
        reveal_strlit("green:");
    }
    let mut start: usize = 0;
    if chars.len() >= 6 {
        let mut k: usize = 0;
        let mut same = true;
        while k < 6
            invariant
                chars@ == key@,
                prefix@ == "green:"@,
                prefix@.len() == 6,
                chars@.len() >= 6,
                k <= 6,
                same == (forall|j: int| 0 <= j < k ==> chars@[j] == prefix@[j]),
            decreases 6 - k,
        {
            if chars[k] != prefix[k] {
                same = false;
            }
            k += 1;
        }
        proof {
            if same {
                assert(chars@.subrange(0, 6) =~= "green:"@);
            } else {
                assert(chars@.subrange(0, 6) != "green:"@) by {
                    let j = choose|j: int| 0 <= j < 6 && chars@[j] != prefix@[j];
                    assert(chars@.subrange(0, 6)[j] != prefix@[j]);
                }
            }
        }
        if same {
            start = 6;
        }
    }
    assert(chars@.subrange(start as int, chars@.len() as int) == green_key_body(key@)) by {
        if start == 0 {
            assert(chars@.subrange(0, chars@.len() as int) =~= chars@);
        }
    }
    shorten_chars(&chars, start, chars.len(), 7, 6)
}

/// The Excel column label of a 0-based column index: 0 is `A`, 25 is `Z`,
/// 26 is `AA`.
pub open spec fn a1_column_label(n: nat) -> Seq<char>
    decreases n,
{
    if n < 26 {
        seq![((n + 65) as u32) as char]
    } else {
        a1_column_label((n / 26 - 1) as nat).push((((n % 26) + 65) as u32) as char)
    }
}

proof fn lemma_a1_label_shape(n: nat)
    ensures
        a1_column_label(n).len() >= 1,
        (n < 26) == (a1_column_label(n).len() == 1),
    decreases n,
{
    if n >= 26 {
        lemma_a1_label_shape((n / 26 - 1) as nat);
    }
}

/// Each column has a label of its own: two indices with the same A1 label
/// are the same index.
pub proof fn law_a1_label_names_one_column(a: nat, b: nat)
    requires
        a1_column_label(a) == a1_column_label(b),
    ensures
        a == b,
    decreases a,
{
    lemma_a1_label_shape(a);
    lemma_a1_label_shape(b);
    let la = a1_column_label(a);
    let lb = a1_column_label(b);
    if a < 26 {
        assert(b < 26);
        assert(la[0] == (((a + 65) as u32) as char));
        assert(lb[0] == (((b + 65) as u32) as char));
        assert(la[0] as u32 == lb[0] as u32);
        assert((((a + 65) as u32) as char) as u32 == a + 65);
        assert((((b + 65) as u32) as char) as u32 == b + 65);
    } else {
        let pa = (a / 26 - 1) as nat;
        let pb = (b / 26 - 1) as nat;
        assert(la.drop_last() =~= a1_column_label(pa));
        assert(lb.drop_last() =~= a1_column_label(pb));
        law_a1_label_names_one_column(pa, pb);
        assert(la.last() == ((((a % 26) + 65) as u32) as char));
        assert(lb.last() == ((((b % 26) + 65) as u32) as char));
        assert(la.last() as u32 == lb.last() as u32);
        assert(((((a % 26) + 65) as u32) as char) as u32 == (a % 26) + 65);
        assert(((((b % 26) + 65) as u32) as char) as u32 == (b % 26) + 65);
        assert(a == b) by (nonlinear_arith)
            requires
                a / 26 == b / 26,
                a % 26 == b % 26,
        ;
    }
}

fn push_a1_label(s: &mut String, n: usize)
    ensures
        final(s)@ == old(s)@ + a1_column_label(n as nat),
    decreases n,
{
    if n >= 26 {
        push_a1_label(s, n / 26 - 1);
    }
    let rem = (n % 26) as u8;
    push_char(s, (65 + rem) as char);
    assert(final(s)@ =~= old(s)@ + a1_column_label(n as nat));
}

/// Converts a 0-based column index into an Excel-style A1 column label.
pub fn column_index_to_a1_label(index: usize) -> (r: String)
    ensures
        r@ == a1_column_label(index as nat),
{
    let mut s = String::new();
    push_a1_label(&mut s, index);
    assert(s@ =~= a1_column_label(index as nat));
    s
}

pub open spec fn caret_navigation_keys() -> Seq<Seq<char>> {
    seq!["ArrowLeft"@, "ArrowRight"@, "ArrowUp"@, "ArrowDown"@, "Home"@, "End"@, "PageUp"@, "PageDown"@]
}

/// True when a key press only moves the caret without changing the text.
pub fn is_caret_navigation_key(key: &str) -> (r: bool)
    ensures
        r == is_one_of(key@, caret_navigation_keys()),
{
    let r = str_equals(key, "ArrowLeft") || str_equals(key, "ArrowRight") || str_equals(key, "ArrowUp")
        || str_equals(key, "ArrowDown") || str_equals(key, "Home") || str_equals(key, "End")
        || str_equals(key, "PageUp") || str_equals(key, "PageDown");
    proof {
        let keys = caret_navigation_keys();
        if r {
            if key@ == "ArrowLeft"@ { assert(keys[0] == key@); }
            if key@ == "ArrowRight"@ { assert(keys[1] == key@); }
            if key@ == "ArrowUp"@ { assert(keys[2] == key@); }
            if key@ == "ArrowDown"@ { assert(keys[3] == key@); }
            if key@ == "Home"@ { assert(keys[4] == key@); }
            if key@ == "End"@ { assert(keys[5] == key@); }
            if key@ == "PageUp"@ { assert(keys[6] == key@); }
            if key@ == "PageDown"@ { assert(keys[7] == key@); }
        }
    }
    r
}

/// The chars that a splice replaces: the span cut back to the text, or the
/// empty range at the end when there is no span.
pub open spec fn splice_range(n: int, span: Option<FormulaTextSpan>) -> (int, int) {
    match span {
        Some(span) => {
            let start = min_nat(span.start as int, n);
            (start, min_nat(start + span.len, n))
        },
        None => (n, n),
    }
}

/// `raw` with `splice_range` replaced by `insert`.
pub open spec fn spliced(raw: Seq<char>, span: Option<FormulaTextSpan>, insert: Seq<char>) -> Seq<char> {
    let (start, end) = splice_range(raw.len() as int, span);
    raw.subrange(0, start) + insert + raw.subrange(end, raw.len() as int)
}

/// Splices `insert_text` into `raw_text` at `replacement_span`, on char
/// boundaries; without a span the text is appended.
pub fn splice_textarea_value(
    raw_text: &str,
    replacement_span: Option<FormulaTextSpan>,
    insert_text: &str,
) -> (r: String)
    ensures
        r@ == spliced(raw_text@, replacement_span, insert_text@),
{
    let chars = chars_of(raw_text);
    let n = chars.len();
    let (start, end) = match replacement_span {
        Some(span) => {
            let start = if span.start <= n { span.start } else { n };
            let end = if span.len <= n - start { start + span.len } else { n };
            (start, end)
        },
        None => (n, n),
    };
    let mut out = string_from_chars(&chars, 0, start);
    out.append(insert_text);
    let trailing = string_from_chars(&chars, end, n);
    out.append(trailing.as_str());
    out
}

/// Maps an empty colour to black, which a colour input needs.
pub fn normalize_color_for_input(raw: &str) -> (r: String)
    ensures
        r@ == if raw@.len() == 0 { "#000000"@ } else { raw@ },
{
    if raw.unicode_len() == 0 {
        "#000000".to_owned()
    } else {
        raw.to_owned()
    }
}

/// The most chars a drill value shows before it is cut.
pub const DRILL_VALUE_LIMIT: usize = 32;

/// Cuts a drill value to 32 chars and an ellipsis.
pub fn truncate_for_drill(value: String) -> (r: String)
    ensures
        r@ == shortened(value@, DRILL_VALUE_LIMIT as int, DRILL_VALUE_LIMIT as int),
{
    let chars = chars_of(value.as_str());
    shorten_chars(&chars, 0, chars.len(), DRILL_VALUE_LIMIT, DRILL_VALUE_LIMIT)
}

pub open spec fn drill_state_slug(state: FormulaWalkNodeState) -> Seq<char> {
    match state {
        FormulaWalkNodeState::Evaluated => "evaluated"@,
        FormulaWalkNodeState::Bound => "bound"@,
        FormulaWalkNodeState::Opaque => "opaque"@,
        FormulaWalkNodeState::Blocked => "blocked"@,
    }
}

pub fn formula_drill_state_slug(state: FormulaWalkNodeState) -> (r: &'static str)
    ensures
        r@ == drill_state_slug(state),
{
    match state {
        FormulaWalkNodeState::Evaluated => "evaluated",
        FormulaWalkNodeState::Bound => "bound",
        FormulaWalkNodeState::Opaque => "opaque",
        FormulaWalkNodeState::Blocked => "blocked",
    }
}

pub fn formula_drill_state_label(state: FormulaWalkNodeState) -> (r: &'static str)
    ensures
        r@ == drill_state_slug(state),
{
    match state {
        FormulaWalkNodeState::Evaluated => "evaluated",
        FormulaWalkNodeState::Bound => "bound",
        FormulaWalkNodeState::Opaque => "opaque",
        FormulaWalkNodeState::Blocked => "blocked",
    }
}

pub open spec fn role_slug_spec(role: SyntaxTokenRole) -> Seq<char> {
    match role {
        SyntaxTokenRole::Operator => "operator"@,
        SyntaxTokenRole::Function => "function"@,
        SyntaxTokenRole::Number => "number"@,
        SyntaxTokenRole::Delimiter => "delimiter"@,
        SyntaxTokenRole::Identifier => "identifier"@,
        SyntaxTokenRole::Text => "text"@,
        SyntaxTokenRole::Trivia => "trivia"@,
    }
}

/// The CSS class of a syntax role.
pub fn role_class(role: SyntaxTokenRole) -> (r: &'static str)
    ensures
        r@ == (match role {
            SyntaxTokenRole::Operator => "syn-op"@,
            SyntaxTokenRole::Function => "syn-fn"@,
            SyntaxTokenRole::Number => "syn-num"@,
            SyntaxTokenRole::Delimiter => "syn-delim"@,
            SyntaxTokenRole::Identifier => "syn-id"@,
            SyntaxTokenRole::Text => "syn-text"@,
            SyntaxTokenRole::Trivia => "syn-trivia"@,
        }),
{
    match role {
        SyntaxTokenRole::Operator => "syn-op",
        SyntaxTokenRole::Function => "syn-fn",
        SyntaxTokenRole::Number => "syn-num",
        SyntaxTokenRole::Delimiter => "syn-delim",
        SyntaxTokenRole::Identifier => "syn-id",
        SyntaxTokenRole::Text => "syn-text",
        SyntaxTokenRole::Trivia => "syn-trivia",
    }
}

/// The `data-token-role` slug of a syntax role.
pub fn role_slug(role: SyntaxTokenRole) -> (r: &'static str)
    ensures
        r@ == role_slug_spec(role),
{
    match role {
        SyntaxTokenRole::Operator => "operator",
        SyntaxTokenRole::Function => "function",
        SyntaxTokenRole::Number => "number",
        SyntaxTokenRole::Delimiter => "delimiter",
        SyntaxTokenRole::Identifier => "identifier",
        SyntaxTokenRole::Text => "text",
        SyntaxTokenRole::Trivia => "trivia",
    }
}

pub open spec fn bracket_texts() -> Seq<Seq<char>> {
    seq!["("@, ")"@, "["@, "]"@, "{"@, "}"@]
}

pub open spec fn open_bracket_texts() -> Seq<Seq<char>> {
    seq!["("@, "["@, "{"@]
}

pub fn is_bracket_token(text: &str) -> (r: bool)
    ensures
        r == is_one_of(text@, bracket_texts()),
{
    let r = str_equals(text, "(") || str_equals(text, ")") || str_equals(text, "[") || str_equals(text, "]")
        || str_equals(text, "{") || str_equals(text, "}");
    proof {
        let b = bracket_texts();
        if r {
            if text@ == "("@ { assert(b[0] == text@); }
            if text@ == ")"@ { assert(b[1] == text@); }
            if text@ == "["@ { assert(b[2] == text@); }
            if text@ == "]"@ { assert(b[3] == text@); }
            if text@ == "{"@ { assert(b[4] == text@); }
            if text@ == "}"@ { assert(b[5] == text@); }
        }
    }
    r
}

pub fn is_open_bracket_text(text: &str) -> (r: bool)
    ensures
        r == is_one_of(text@, open_bracket_texts()),
{
    let r = str_equals(text, "(") || str_equals(text, "[") || str_equals(text, "{");
    proof {
        let b = open_bracket_texts();
        if r {
            if text@ == "("@ { assert(b[0] == text@); }
            if text@ == "["@ { assert(b[1] == text@); }
            if text@ == "{"@ { assert(b[2] == text@); }
        }
    }
    r
}

/// The glyphs of an icon-set kind, lowest icon first; unknown kinds have a
/// single bullet.
pub open spec fn icon_glyphs(kind: Seq<char>) -> Seq<Seq<char>> {
    if kind == "3Arrows"@ || kind == "3ArrowsGray"@ {
        seq!["↓"@, "→"@, "↑"@]
    } else if kind == "3TrafficLights1"@ || kind == "3TrafficLights2"@ {
        seq!["🔴"@, "🟡"@, "🟢"@]
    } else if kind == "3Signs"@ {
        seq!["⛔"@, "⚠"@, "✅"@]
    } else if kind == "3Symbols"@ || kind == "3Symbols2"@ {
        seq!["✗"@, "!"@, "✓"@]
    } else if kind == "3Flags"@ {
        seq!["🚩"@, "🟨"@, "🟩"@]
    } else if kind == "4Arrows"@ || kind == "4ArrowsGray"@ {
        seq!["↓"@, "↘"@, "↗"@, "↑"@]
    } else if kind == "4Rating"@ {
        seq!["▁"@, "▃"@, "▅"@, "▇"@]
    } else if kind == "4RedToBlack"@ {
        seq!["⬛"@, "🟥"@, "🟧"@, "🟩"@]
    } else if kind == "4TrafficLights"@ {
        seq!["🔴"@, "🟠"@, "🟡"@, "🟢"@]
    } else if kind == "5Arrows"@ || kind == "5ArrowsGray"@ {
        seq!["↓"@, "↘"@, "→"@, "↗"@, "↑"@]
    } else if kind == "5Rating"@ {
        seq!["▁"@, "▂"@, "▄"@, "▆"@, "█"@]
    } else if kind == "5Quarters"@ {
        seq!["○"@, "◔"@, "◐"@, "◕"@, "●"@]
    } else {
        seq!["•"@]
    }
}

fn icon_glyph_set(set_kind: &str) -> (r: Vec<&'static str>)
    ensures
        r@.map_values(|g: &str| g@) == icon_glyphs(set_kind@),
{
    let v: Vec<&'static str> = if str_equals(set_kind, "3Arrows") || str_equals(set_kind, "3ArrowsGray") {
        vec!["↓", "→", "↑"]
    } else if str_equals(set_kind, "3TrafficLights1") || str_equals(set_kind, "3TrafficLights2") {
        vec!["🔴", "🟡", "🟢"]
    } else if str_equals(set_kind, "3Signs") {
        vec!["⛔", "⚠", "✅"]
    } else if str_equals(set_kind, "3Symbols") || str_equals(set_kind, "3Symbols2") {
        vec!["✗", "!", "✓"]
    } else if str_equals(set_kind, "3Flags") {
        vec!["🚩", "🟨", "🟩"]
    } else if str_equals(set_kind, "4Arrows") || str_equals(set_kind, "4ArrowsGray") {
        vec!["↓", "↘", "↗", "↑"]
    } else if str_equals(set_kind, "4Rating") {
        vec!["▁", "▃", "▅", "▇"]
    } else if str_equals(set_kind, "4RedToBlack") {
        vec!["⬛", "🟥", "🟧", "🟩"]
    } else if str_equals(set_kind, "4TrafficLights") {
        vec!["🔴", "🟠", "🟡", "🟢"]
    } else if str_equals(set_kind, "5Arrows") || str_equals(set_kind, "5ArrowsGray") {
        vec!["↓", "↘", "→", "↗", "↑"]
    } else if str_equals(set_kind, "5Rating") {
        vec!["▁", "▂", "▄", "▆", "█"]
    } else if str_equals(set_kind, "5Quarters") {
        vec!["○", "◔", "◐", "◕", "●"]
    } else {
        vec!["•"]
    };
    assert(v@.map_values(|g: &str| g@) =~= icon_glyphs(set_kind@));
    v
}

/// The glyph for icon `icon_index` of an icon set, with the set's kind: the
/// closest Unicode glyph per kind, a bullet past the set's end.
pub fn icon_glyph_for(set_kind: &str, icon_index: usize) -> (r: (String, String))
    ensures
        r.0@ == set_kind@,
        r.1@ == if icon_index < icon_glyphs(set_kind@).len() { icon_glyphs(set_kind@)[icon_index as int] } else { "•"@ },
{
    let glyphs = icon_glyph_set(set_kind);
    let glyph = if icon_index < glyphs.len() { glyphs[icon_index] } else { "•" };
    proof {
        if icon_index < glyphs@.len() {
            assert(glyphs@.map_values(|g: &str| g@)[icon_index as int] == glyphs@[icon_index as int]@);
        }
    }
    (set_kind.to_owned(), glyph.to_owned())
}


/// The kind picker's value for a threshold.
pub fn threshold_kind_label(threshold: &FormulaConditionalFormattingThreshold) -> (r: &'static str)
    ensures
        r@ == (match *threshold {
            FormulaConditionalFormattingThreshold::Min => "min"@,
            FormulaConditionalFormattingThreshold::Mid => "mid"@,
            FormulaConditionalFormattingThreshold::Max => "max"@,
            FormulaConditionalFormattingThreshold::Percent(_) => "percent"@,
            FormulaConditionalFormattingThreshold::Percentile(_) => "percentile"@,
            FormulaConditionalFormattingThreshold::Number(_) => "num"@,
        }),
{
    match threshold {
        FormulaConditionalFormattingThreshold::Min => "min",
        FormulaConditionalFormattingThreshold::Mid => "mid",
        FormulaConditionalFormattingThreshold::Max => "max",
        FormulaConditionalFormattingThreshold::Percent(_) => "percent",
        FormulaConditionalFormattingThreshold::Percentile(_) => "percentile",
        FormulaConditionalFormattingThreshold::Number(_) => "num",
    }
}

/// The number a threshold carries, if it carries one.
pub fn threshold_numeric_value(threshold: &FormulaConditionalFormattingThreshold) -> (r: Option<u64>)
    ensures
        r == (match *threshold {
            FormulaConditionalFormattingThreshold::Percent(v) => Some(v),
            FormulaConditionalFormattingThreshold::Percentile(v) => Some(v),
            FormulaConditionalFormattingThreshold::Number(v) => Some(v),
            _ => None::<u64>,
        }),
{
    match threshold {
        FormulaConditionalFormattingThreshold::Percent(value) => Some(*value),
        FormulaConditionalFormattingThreshold::Percentile(value) => Some(*value),
        FormulaConditionalFormattingThreshold::Number(value) => Some(*value),
        FormulaConditionalFormattingThreshold::Min => None,
        FormulaConditionalFormattingThreshold::Mid => None,
        FormulaConditionalFormattingThreshold::Max => None,
    }
}

/// The threshold that a kind picker's value and a number make; any kind
/// that the picker does not name makes a plain number.
pub open spec fn threshold_of(kind: Seq<char>, value: u64) -> FormulaConditionalFormattingThreshold {
    if kind == "min"@ {
        FormulaConditionalFormattingThreshold::Min
    } else if kind == "mid"@ {
        FormulaConditionalFormattingThreshold::Mid
    } else if kind == "max"@ {
        FormulaConditionalFormattingThreshold::Max
    } else if kind == "percent"@ {
        FormulaConditionalFormattingThreshold::Percent(value)
    } else if kind == "percentile"@ {
        FormulaConditionalFormattingThreshold::Percentile(value)
    } else {
        FormulaConditionalFormattingThreshold::Number(value)
    }
}

/// Builds a threshold from the kind picker's value and a number.
pub fn threshold_from_kind_and_value(kind: &str, value: u64) -> (r: FormulaConditionalFormattingThreshold)
    ensures
        r == threshold_of(kind@, value),
{
    if str_equals(kind, "min") {
        FormulaConditionalFormattingThreshold::Min
    } else if str_equals(kind, "mid") {
        FormulaConditionalFormattingThreshold::Mid
    } else if str_equals(kind, "max") {
        FormulaConditionalFormattingThreshold::Max
    } else if str_equals(kind, "percent") {
        FormulaConditionalFormattingThreshold::Percent(value)
    } else if str_equals(kind, "percentile") {
        FormulaConditionalFormattingThreshold::Percentile(value)
    } else {
        FormulaConditionalFormattingThreshold::Number(value)
    }
}

/// A threshold rebuilt from its kind label and its number is the threshold
/// itself (a threshold without a number is rebuilt from any number).
pub proof fn law_threshold_round_trips(threshold: FormulaConditionalFormattingThreshold, any: u64)
    ensures
        threshold_of(
            match threshold {
                FormulaConditionalFormattingThreshold::Min => "min"@,
                FormulaConditionalFormattingThreshold::Mid => "mid"@,
                FormulaConditionalFormattingThreshold::Max => "max"@,
                FormulaConditionalFormattingThreshold::Percent(_) => "percent"@,
                FormulaConditionalFormattingThreshold::Percentile(_) => "percentile"@,
                FormulaConditionalFormattingThreshold::Number(_) => "num"@,
            },
            match threshold {
                FormulaConditionalFormattingThreshold::Percent(v) => v,
                FormulaConditionalFormattingThreshold::Percentile(v) => v,
                FormulaConditionalFormattingThreshold::Number(v) => v,
                _ => any,
            },
        ) == threshold,
{
    reveal_strlit("min");
    reveal_strlit("mid");
    reveal_strlit("max");
    reveal_strlit("percent");
    reveal_strlit("percentile");
    reveal_strlit("num");
    assert("mid"@[2] != "min"@[2]);
    assert("max"@[1] != "min"@[1] && "max"@[1] != "mid"@[1]);
    assert("percent"@.len() != 3 && "percentile"@.len() != 3 && "percentile"@.len() != "percent"@.len());
    assert("num"@[0] != "min"@[0] && "num"@[0] != "mid"@[0] && "num"@[0] != "max"@[0]);
    assert("num"@.len() != "percent"@.len() && "num"@.len() != "percentile"@.len());
}

/// The kind of value a result display holds.
#[derive(Debug, Clone, Copy, PartialEq, Eq, Structural)]
pub enum ResultKind {
    Number,
    Text,
    Logical,
    RichValue,
    Other,
}

/// The `data-display-kind` attribute of a result kind.
pub fn display_kind_attr(kind: ResultKind) -> (r: &'static str)
    ensures
        r@ == (match kind {
            ResultKind::Number => "number"@,
            ResultKind::Text => "text"@,
            ResultKind::Logical => "logical"@,
            ResultKind::RichValue => "rich-value"@,
            ResultKind::Other => "other"@,
        }),
{
    match kind {
        ResultKind::Number => "number",
        ResultKind::Text => "text",
        ResultKind::Logical => "logical",
        ResultKind::RichValue => "rich-value",
        ResultKind::Other => "other",
    }
}

// ---------------------------------------------------------------------------
// Keyboard policy
// ---------------------------------------------------------------------------

/// What the home shell does with a key press. Every action but
/// `PassThrough` also suppresses the browser's default for the key.
#[derive(Debug, Clone, Copy, PartialEq, Eq, Structural)]
pub enum HomeShellKeyAction {
    /// Leave the key to the browser and the textarea.
    PassThrough,
    /// Switch the workspace view mode.
    ToggleViewMode,
    /// Open or close the formula drill-down.
    ToggleFormulaDrill,
    /// Move the completion popup's selection down one entry.
    MoveCompletionSelectionDown,
    /// Move the completion popup's selection up one entry.
    MoveCompletionSelectionUp,
    /// Accept the selected completion.
    AcceptSelectedCompletion,
    /// Close the completion popup.
    DismissCompletionPopup,
    /// Close the scenario breadcrumb menu.
    CloseScenarioBreadcrumb,
    /// Recalculate the active formula.
    Recalculate,
    /// Claim the command-palette chord (the palette itself is not wired yet).
    ClaimCommandPalette,
}

/// The `D` key, in either case.
pub open spec fn is_d_key(key: Seq<char>) -> bool {
    key == "d"@ || key == "D"@
}

/// The textarea's keyboard policy. Ctrl+Alt+D and Ctrl+Shift+D switch the
/// view mode and plain Ctrl+D toggles the drill-down, whether or not the
/// completion popup is open. With the popup open, ArrowDown and ArrowUp move
/// its selection, Tab and Enter accept, and Escape dismisses it; every other
/// key, and every key while the popup is closed, is left to the textarea.
pub open spec fn home_shell_key_action_spec(key: Seq<char>, ctrl: bool, alt: bool, shift: bool, popup_open: bool)
    -> HomeShellKeyAction
{
    if ctrl && (alt || shift) && is_d_key(key) {
        HomeShellKeyAction::ToggleViewMode
    } else if ctrl && !shift && !alt && is_d_key(key) {
        HomeShellKeyAction::ToggleFormulaDrill
    } else if !popup_open {
        HomeShellKeyAction::PassThrough
    } else if key == "ArrowDown"@ {
        HomeShellKeyAction::MoveCompletionSelectionDown
    } else if key == "ArrowUp"@ {
        HomeShellKeyAction::MoveCompletionSelectionUp
    } else if key == "Tab"@ || key == "Enter"@ {
        HomeShellKeyAction::AcceptSelectedCompletion
    } else if key == "Escape"@ {
        HomeShellKeyAction::DismissCompletionPopup
    } else {
        HomeShellKeyAction::PassThrough
    }
}

/// The textarea's keyboard policy, key by key. While the completion popup
/// is open, Tab and Enter accept the selected completion, ArrowDown and
/// ArrowUp move the selection, and Escape dismisses the popup, whatever the
/// modifiers; while it is closed, every key without Ctrl goes to the
/// textarea. Ctrl+D toggles the drill-down and Ctrl+Alt+D or Ctrl+Shift+D
/// the view mode, open popup or not.
pub proof fn law_home_shell_keys(key: Seq<char>, ctrl: bool, alt: bool, shift: bool, popup_open: bool)
    ensures
        popup_open && (key == "Tab"@ || key == "Enter"@)
            ==> home_shell_key_action_spec(key, ctrl, alt, shift, popup_open) == HomeShellKeyAction::AcceptSelectedCompletion,
        popup_open && key == "ArrowDown"@
            ==> home_shell_key_action_spec(key, ctrl, alt, shift, popup_open) == HomeShellKeyAction::MoveCompletionSelectionDown,
        popup_open && key == "ArrowUp"@
            ==> home_shell_key_action_spec(key, ctrl, alt, shift, popup_open) == HomeShellKeyAction::MoveCompletionSelectionUp,
        popup_open && key == "Escape"@
            ==> home_shell_key_action_spec(key, ctrl, alt, shift, popup_open) == HomeShellKeyAction::DismissCompletionPopup,
        !popup_open && !ctrl ==> home_shell_key_action_spec(key, ctrl, alt, shift, popup_open) == HomeShellKeyAction::PassThrough,
        ctrl && !alt && !shift && (key == "d"@ || key == "D"@)
            ==> home_shell_key_action_spec(key, ctrl, alt, shift, popup_open) == HomeShellKeyAction::ToggleFormulaDrill,
        ctrl && (alt || shift) && (key == "d"@ || key == "D"@)
            ==> home_shell_key_action_spec(key, ctrl, alt, shift, popup_open) == HomeShellKeyAction::ToggleViewMode,
        popup_open && !(key == "Tab"@ || key == "Enter"@ || key == "ArrowDown"@ || key == "ArrowUp"@ || key == "Escape"@
            || key == "d"@ || key == "D"@)
            ==> home_shell_key_action_spec(key, ctrl, alt, shift, popup_open) == HomeShellKeyAction::PassThrough,
{
    reveal_strlit("d");
    reveal_strlit("D");
    reveal_strlit("Tab");
    reveal_strlit("Enter");
    reveal_strlit("ArrowDown");
    reveal_strlit("ArrowUp");
    reveal_strlit("Escape");
    assert("Tab"@.len() != 1 && "Enter"@.len() != 1 && "ArrowDown"@.len() != 1 && "ArrowUp"@.len() != 1
        && "Escape"@.len() != 1);
    assert("Enter"@ != "Tab"@);
    assert("ArrowDown"@ != "Tab"@ && "ArrowDown"@ != "Enter"@);
    assert("ArrowUp"@ != "Tab"@ && "ArrowUp"@ != "Enter"@ && "ArrowUp"@[5] != "ArrowDown"@[5]);
    assert("Escape"@ != "Tab"@ && "Escape"@[1] != "Enter"@[1] && "Escape"@[0] != "ArrowDown"@[0]
        && "Escape"@[0] != "ArrowUp"@[0]);
}

/// The shell's keyboard policy: Escape closes an open scenario breadcrumb;
/// F9 with no modifier recalculates; Ctrl+K and Ctrl+Shift+P, without Alt,
/// claim the palette chord; a key without Ctrl other than Escape and F9,
/// and F9 with Alt or Shift, is left alone.
pub proof fn law_shell_keys(key: Seq<char>, ctrl: bool, alt: bool, shift: bool, breadcrumb_open: bool)
    ensures
        key == "Escape"@ && breadcrumb_open
            ==> shell_key_action_spec(key, ctrl, alt, shift, breadcrumb_open) == HomeShellKeyAction::CloseScenarioBreadcrumb,
        key == "F9"@ && !ctrl && !alt && !shift
            ==> shell_key_action_spec(key, ctrl, alt, shift, breadcrumb_open) == HomeShellKeyAction::Recalculate,
        ctrl && !alt && (key == "k"@ || key == "K"@ || (shift && (key == "p"@ || key == "P"@)))
            ==> shell_key_action_spec(key, ctrl, alt, shift, breadcrumb_open) == HomeShellKeyAction::ClaimCommandPalette,
        !ctrl && key != "Escape"@ && key != "F9"@
            ==> shell_key_action_spec(key, ctrl, alt, shift, breadcrumb_open) == HomeShellKeyAction::PassThrough,
        key == "F9"@ && !ctrl && (alt || shift)
            ==> shell_key_action_spec(key, ctrl, alt, shift, breadcrumb_open) == HomeShellKeyAction::PassThrough,
{
    reveal_strlit("Escape");
    reveal_strlit("F9");
    reveal_strlit("k");
    reveal_strlit("K");
    reveal_strlit("p");
    reveal_strlit("P");
    assert("Escape"@.len() != 1 && "F9"@.len() != 1 && "Escape"@ != "F9"@);
}

/// The action for a key pressed in the formula textarea.
pub fn home_shell_key_action(key: &str, ctrl: bool, alt: bool, shift: bool, popup_open: bool)
    -> (r: HomeShellKeyAction)
    ensures
        r == home_shell_key_action_spec(key@, ctrl, alt, shift, popup_open),
{
    let d_key = str_equals(key, "d") || str_equals(key, "D");
    if ctrl && (alt || shift) && d_key {
        HomeShellKeyAction::ToggleViewMode
    } else if ctrl && !shift && !alt && d_key {
        HomeShellKeyAction::ToggleFormulaDrill
    } else if !popup_open {
        HomeShellKeyAction::PassThrough
    } else if str_equals(key, "ArrowDown") {
        HomeShellKeyAction::MoveCompletionSelectionDown
    } else if str_equals(key, "ArrowUp") {
        HomeShellKeyAction::MoveCompletionSelectionUp
    } else if str_equals(key, "Tab") || str_equals(key, "Enter") {
        HomeShellKeyAction::AcceptSelectedCompletion
    } else if str_equals(key, "Escape") {
        HomeShellKeyAction::DismissCompletionPopup
    } else {
        HomeShellKeyAction::PassThrough
    }
}

/// The shell-wide keyboard policy, for keys pressed anywhere in the shell.
/// Escape closes the scenario breadcrumb when it is open; F9 without
/// modifiers recalculates; Ctrl+K, and Ctrl+Shift+P, without Alt, claim the
/// command-palette chord.
pub open spec fn shell_key_action_spec(key: Seq<char>, ctrl: bool, alt: bool, shift: bool, breadcrumb_open: bool)
    -> HomeShellKeyAction
{
    if key == "Escape"@ && breadcrumb_open {
        HomeShellKeyAction::CloseScenarioBreadcrumb
    } else if !ctrl && !shift && !alt && key == "F9"@ {
        HomeShellKeyAction::Recalculate
    } else if ctrl && !alt && (key == "k"@ || key == "K"@ || (shift && (key == "p"@ || key == "P"@))) {
        HomeShellKeyAction::ClaimCommandPalette
    } else {
        HomeShellKeyAction::PassThrough
    }
}

/// The action for a key pressed anywhere in the home shell.
pub fn shell_key_action(key: &str, ctrl: bool, alt: bool, shift: bool, breadcrumb_open: bool)
    -> (r: HomeShellKeyAction)
    ensures
        r == shell_key_action_spec(key@, ctrl, alt, shift, breadcrumb_open),
{
    if str_equals(key, "Escape") && breadcrumb_open {
        HomeShellKeyAction::CloseScenarioBreadcrumb
    } else if !ctrl && !shift && !alt && str_equals(key, "F9") {
        HomeShellKeyAction::Recalculate
    } else if ctrl && !alt && (str_equals(key, "k") || str_equals(key, "K")
        || (shift && (str_equals(key, "p") || str_equals(key, "P"))))
    {
        HomeShellKeyAction::ClaimCommandPalette
    } else {
        HomeShellKeyAction::PassThrough
    }
}

/// The input event that accepting a completion produces: the raw text with
/// the proposal spliced in, the caret collapsed at the acceptance's new
/// offset, and the inserted text recorded.
pub fn completion_acceptance_event(raw_text: &str, acceptance: &CompletionAcceptance) -> (r: EditorInputEvent)
    ensures
        r.text@ == spliced(raw_text@, acceptance.replacement_span, acceptance.insert_text@),
        r.selection_start == Some(acceptance.new_caret_offset),
        r.selection_end == Some(acceptance.new_caret_offset),
        r.input_kind == EditorInputKind::InsertText,
        r.inserted_text matches Some(t) && t@ == acceptance.insert_text@,
{
    let text = splice_textarea_value(raw_text, acceptance.replacement_span, acceptance.insert_text.as_str());
    EditorInputEvent {
        text,
        selection_start: Some(acceptance.new_caret_offset),
        selection_end: Some(acceptance.new_caret_offset),
        input_kind: EditorInputKind::InsertText,
        inserted_text: Some(acceptance.insert_text.clone()),
    }
}

/// The input event for a caret-only move: the textarea's unchanged text and
/// its selection ends as the DOM reports them (absent when it reports none).
pub fn caret_sync_event(text: String, selection_start: Option<u32>, selection_end: Option<u32>) -> (r: EditorInputEvent)
    ensures
        r.text == text,
        r.selection_start == (match selection_start { Some(o) => Some(o as usize), None => None::<usize> }),
        r.selection_end == (match selection_end { Some(o) => Some(o as usize), None => None::<usize> }),
        r.input_kind == EditorInputKind::CaretSync,
        r.inserted_text is None,
{
    EditorInputEvent {
        text,
        selection_start: match selection_start { Some(o) => Some(o as usize), None => None },
        selection_end: match selection_end { Some(o) => Some(o as usize), None => None },
        input_kind: EditorInputKind::CaretSync,
        inserted_text: None,
    }
}

// ---------------------------------------------------------------------------
// Conditional-formatting rules
// ---------------------------------------------------------------------------

/// 50.0 as an IEEE-754 bit pattern: the middle stop of a new colour scale.
pub const FIFTY_PERCENTILE_BITS: u64 = 0x4049_0000_0000_0000u64;

pub open spec fn opt_view(o: Option<String>) -> Option<Seq<char>> {
    match o {
        Some(s) => Some(s@),
        None => None,
    }
}

/// The kinds whose rule input lives in the typed rule, not in `thresholds`.
pub open spec fn kind_clears_thresholds(k: Seq<char>) -> bool {
    k == "colorscale"@ || k == "databar"@ || k == "iconset"@ || k == "aboveaverage"@ || k == "belowaverage"@
        || k == "top"@ || k == "bottom"@
}

/// The fill colour a new rule of kind `k` starts with, if any.
pub open spec fn kind_fill_seed(k: Seq<char>) -> Option<Seq<char>> {
    if k == "databar"@ {
        Some("#638EC6"@)
    } else if k == "aboveaverage"@ || k == "belowaverage"@ || k == "top"@ || k == "bottom"@
        || k == "uniquevalues"@ || k == "duplicatevalues"@
    {
        Some("#FFE9B3"@)
    } else {
        None
    }
}

/// The kinds that start with typed options.
pub open spec fn kind_seeds_typed(k: Seq<char>) -> bool {
    kind_clears_thresholds(k)
}

/// `t` holds only the options that a new rule of kind `k` starts with: a
/// red-yellow-green colour scale over min, the 50th percentile and max; a
/// blue data bar; the `3Arrows` icon set; default average options; or a
/// top/bottom count of ten.
pub open spec fn is_seed_typed_rule(k: Seq<char>, t: FormulaConditionalFormattingTypedRule) -> bool {
    if k == "colorscale"@ {
        &&& t.color_scale matches Some(cs)
        &&& cs.stops@.len() == 3
        &&& cs.stops@[0].position == FormulaConditionalFormattingThreshold::Min
        &&& cs.stops@[0].color@ == "#F8696B"@
        &&& cs.stops@[1].position == FormulaConditionalFormattingThreshold::Percentile(FIFTY_PERCENTILE_BITS)
        &&& cs.stops@[1].color@ == "#FFEB84"@
        &&& cs.stops@[2].position == FormulaConditionalFormattingThreshold::Max
        &&& cs.stops@[2].color@ == "#63BE7B"@
        &&& t.data_bar is None && t.icon_set is None && t.average is None && t.rank is None
    } else if k == "databar"@ {
        &&& t.data_bar matches Some(d)
        &&& opt_view(d.bar_color) == Some("#638EC6"@)
        &&& d.direction is None && !d.show_bar_only
        &&& t.color_scale is None && t.icon_set is None && t.average is None && t.rank is None
    } else if k == "iconset"@ {
        &&& t.icon_set matches Some(i)
        &&& i.set_kind@ == "3Arrows"@
        &&& i.thresholds@.len() == 0
        &&& t.color_scale is None && t.data_bar is None && t.average is None && t.rank is None
    } else if k == "aboveaverage"@ || k == "belowaverage"@ {
        &&& t.average == Some(FormulaAverageRuleOptions { include_equal: false, stddev_multiplier: None })
        &&& t.color_scale is None && t.data_bar is None && t.icon_set is None && t.rank is None
    } else {
        &&& t.rank == Some(FormulaRankRuleOptions { rank: FormulaConditionalFormattingRank::Count(10) })
        &&& t.color_scale is None && t.data_bar is None && t.icon_set is None && t.average is None
    }
}

/// `new` is `old` with the defaults of its kind (read case-insensitively)
/// seeded: stale thresholds dropped for the kinds that keep their input in
/// the typed rule, a missing fill colour and a missing typed rule filled in;
/// unknown kinds are left alone.
pub open spec fn seeded_rule(old: FormulaConditionalFormattingRule, new: FormulaConditionalFormattingRule) -> bool {
    let k = ascii_lowercase(old.rule_kind@);
    &&& new.rule_kind == old.rule_kind
    &&& new.operator == old.operator
    &&& new.font_color == old.font_color
    &&& new.thresholds@ == if kind_clears_thresholds(k) { Seq::empty() } else { old.thresholds@ }
    &&& opt_view(new.fill_color) == if old.fill_color is None && kind_fill_seed(k) is Some {
        kind_fill_seed(k)
    } else {
        opt_view(old.fill_color)
    }
    &&& if old.typed_rule is None && kind_seeds_typed(k) {
        new.typed_rule matches Some(t) && is_seed_typed_rule(k, t)
    } else {
        new.typed_rule == old.typed_rule
    }
}

fn empty_typed_rule() -> (r: FormulaConditionalFormattingTypedRule)
    ensures
        r.color_scale is None && r.data_bar is None && r.icon_set is None && r.average is None && r.rank is None,
{
    FormulaConditionalFormattingTypedRule { color_scale: None, data_bar: None, icon_set: None, average: None, rank: None }
}

fn seed_typed_rule(chars: &Vec<char>) -> (r: FormulaConditionalFormattingTypedRule)
    requires
        kind_seeds_typed(ascii_lowercase(chars@.subrange(0, chars@.len() as int))),
    ensures
        is_seed_typed_rule(ascii_lowercase(chars@.subrange(0, chars@.len() as int)), r),
{
    let n = chars.len();
    let mut t = empty_typed_rule();
    if lowered_equals(chars, 0, n, "colorscale") {
        let mut stops: Vec<FormulaColorScaleStop> = Vec::new();
        stops.push(FormulaColorScaleStop { position: FormulaConditionalFormattingThreshold::Min, color: "#F8696B".to_owned() });
        stops.push(FormulaColorScaleStop {
            position: FormulaConditionalFormattingThreshold::Percentile(FIFTY_PERCENTILE_BITS),
            color: "#FFEB84".to_owned(),
        });
        stops.push(FormulaColorScaleStop { position: FormulaConditionalFormattingThreshold::Max, color: "#63BE7B".to_owned() });
        t.color_scale = Some(FormulaColorScaleRuleOptions { stops });
    } else if lowered_equals(chars, 0, n, "databar") {
        t.data_bar = Some(FormulaDataBarRuleOptions {
            bar_color: Some("#638EC6".to_owned()),
            direction: None,
            show_bar_only: false,
        });
    } else if lowered_equals(chars, 0, n, "iconset") {
        t.icon_set = Some(FormulaIconSetRuleOptions { set_kind: "3Arrows".to_owned(), thresholds: Vec::new() });
    } else if lowered_equals(chars, 0, n, "aboveaverage") || lowered_equals(chars, 0, n, "belowaverage") {
        t.average = Some(FormulaAverageRuleOptions { include_equal: false, stddev_multiplier: None });
    } else {
        t.rank = Some(FormulaRankRuleOptions { rank: FormulaConditionalFormattingRank::Count(10) });
    }
    t
}

/// Seeds the defaults of a visualisation rule's kind: colour scales, data
/// bars, icon sets, above/below-average and top/bottom rules drop their
/// `thresholds` and get default typed options when they have none; data
/// bars, average, top/bottom, unique- and duplicate-value rules get a
/// default fill colour when they have none.
pub fn seed_visualization_rule_defaults(rule: &mut FormulaConditionalFormattingRule)
    ensures
        seeded_rule(*old(rule), *final(rule)),
{
    let chars = chars_of(rule.rule_kind.as_str());
    let n = chars.len();
    let ghost k = ascii_lowercase(old(rule).rule_kind@);
    assert(chars@.subrange(0, n as int) =~= chars@);
    let color_scale = lowered_equals(&chars, 0, n, "colorscale");
    let data_bar = lowered_equals(&chars, 0, n, "databar");
    let icon_set = lowered_equals(&chars, 0, n, "iconset");
    let average = lowered_equals(&chars, 0, n, "aboveaverage") || lowered_equals(&chars, 0, n, "belowaverage");
    let rank = lowered_equals(&chars, 0, n, "top") || lowered_equals(&chars, 0, n, "bottom");
    let unique = lowered_equals(&chars, 0, n, "uniquevalues") || lowered_equals(&chars, 0, n, "duplicatevalues");
    let clears = color_scale || data_bar || icon_set || average || rank;
    assert(clears == kind_clears_thresholds(k));
    if clears {
        rule.thresholds.clear();
    }
    if rule.fill_color.is_none() {
        if data_bar {
            rule.fill_color = Some("#638EC6".to_owned());
        } else if average || rank || unique {
            rule.fill_color = Some("#FFE9B3".to_owned());
        }
    }
    if clears && rule.typed_rule.is_none() {
        rule.typed_rule = Some(seed_typed_rule(&chars));
    }
}

/// The stops of a typed rule's colour scale; none without one.
pub open spec fn color_scale_stops(t: Option<FormulaConditionalFormattingTypedRule>) -> Seq<FormulaColorScaleStop> {
    match t {
        Some(x) => match x.color_scale {
            Some(cs) => cs.stops@,
            None => Seq::empty(),
        },
        None => Seq::empty(),
    }
}

/// Replaces stop `stop_index` of the rule's colour scale with `stop`, first
/// giving the rule empty typed options and an empty colour scale where it
/// has none; an index past the stops changes no stop.
pub fn update_color_scale_stop(
    rule: &mut FormulaConditionalFormattingRule,
    stop_index: usize,
    stop: FormulaColorScaleStop,
)
    ensures
        final(rule).rule_kind == old(rule).rule_kind,
        final(rule).operator == old(rule).operator,
        final(rule).thresholds@ == old(rule).thresholds@,
        final(rule).font_color == old(rule).font_color,
        final(rule).fill_color == old(rule).fill_color,
        final(rule).typed_rule matches Some(t) && t.color_scale is Some,
        color_scale_stops(final(rule).typed_rule) == if stop_index < color_scale_stops(old(rule).typed_rule).len() {
            color_scale_stops(old(rule).typed_rule).update(stop_index as int, stop)
        } else {
            color_scale_stops(old(rule).typed_rule)
        },
        final(rule).typed_rule matches Some(t) && match old(rule).typed_rule {
            Some(o) => t.data_bar == o.data_bar && t.icon_set == o.icon_set && t.average == o.average
                && t.rank == o.rank,
            None => t.data_bar is None && t.icon_set is None && t.average is None && t.rank is None,
        },
{
    let mut typed = match rule.typed_rule.take() {
        Some(t) => t,
        None => empty_typed_rule(),
    };
    let mut options = match typed.color_scale.take() {
        Some(c) => c,
        None => FormulaColorScaleRuleOptions { stops: Vec::new() },
    };
    if stop_index < options.stops.len() {
        options.stops.set(stop_index, stop);
    }
    typed.color_scale = Some(options);
    rule.typed_rule = Some(typed);
}

/// Removes stop `stop_index` from the rule's colour scale, when the rule has
/// one and the index names a stop; otherwise the rule is unchanged.
pub fn remove_color_scale_stop(rule: &mut FormulaConditionalFormattingRule, stop_index: usize)
    ensures
        final(rule).rule_kind == old(rule).rule_kind,
        final(rule).operator == old(rule).operator,
        final(rule).thresholds@ == old(rule).thresholds@,
        final(rule).font_color == old(rule).font_color,
        final(rule).fill_color == old(rule).fill_color,
        (final(rule).typed_rule is Some) == (old(rule).typed_rule is Some),
        final(rule).typed_rule matches Some(t) ==> old(rule).typed_rule matches Some(o) && {
            &&& t.data_bar == o.data_bar && t.icon_set == o.icon_set && t.average == o.average && t.rank == o.rank
            &&& (t.color_scale is Some) == (o.color_scale is Some)
        },
        color_scale_stops(final(rule).typed_rule) == if stop_index < color_scale_stops(old(rule).typed_rule).len() {
            color_scale_stops(old(rule).typed_rule).remove(stop_index as int)
        } else {
            color_scale_stops(old(rule).typed_rule)
        },
{
    match rule.typed_rule.take() {
        Some(mut typed) => {
            match typed.color_scale.take() {
                Some(mut options) => {
                    if stop_index < options.stops.len() {
                        options.stops.remove(stop_index);
                    }
                    typed.color_scale = Some(options);
                },
                None => {},
            }
            rule.typed_rule = Some(typed);
        },
        None => {},
    }
}

/// The host's state shape of a rule that the formatting panel shows.
pub fn host_cf_rule_from_view(rule: &ConditionalFormattingRuleView) -> (r: FormulaConditionalFormattingRule)
    ensures
        r.rule_kind == rule.rule_kind,
        r.operator == rule.operator,
        r.thresholds@ == rule.thresholds@,
        r.font_color == rule.font_color,
        r.fill_color == rule.fill_color,
        match (r.typed_rule, rule.typed_rule) {
            (Some(a), Some(b)) => a.is_copy_of(b),
            (None, None) => true,
            _ => false,
        },
{
    let thresholds = rule.thresholds.clone();
    assert(thresholds@ =~= rule.thresholds@);
    FormulaConditionalFormattingRule {
        rule_kind: rule.rule_kind.clone(),
        operator: rule.operator.clone(),
        thresholds,
        font_color: rule.font_color.clone(),
        fill_color: rule.fill_color.clone(),
        typed_rule: match &rule.typed_rule {
            Some(t) => Some(t.copy()),
            None => None,
        },
    }
}

} // verus!
