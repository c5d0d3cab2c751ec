//! Text decisions of the shell frame: verdict slugs and the percent
//! encoding of data-URI payloads.
use vstd::prelude::*;

use crate::text::push_char;

verus! {

/// The slug of a pass/fail/unobserved verdict.
pub fn verdict_slug(verdict: Option<bool>) -> (r: &'static str)
    ensures
        r@ == (match verdict {
            Some(true) => "pass"@,
            Some(false) => "fail"@,
            None => "unobserved"@,
        }),
{
    match verdict {
        Some(true) => "pass",
        Some(false) => "fail",
        None => "unobserved",
    }
}

/// Bytes that a data URI carries as they are: ASCII letters, digits and
/// `-`, `_`, `.`, `~`.
pub open spec fn is_unreserved(b: u8) -> bool {
    (0x30 <= b <= 0x39) || (0x41 <= b <= 0x5A) || (0x61 <= b <= 0x7A) || b == 0x2D || b == 0x5F || b == 0x2E
        || b == 0x7E
}

/// The uppercase hexadecimal digit for `d < 16`.
pub open spec fn hex_digit(d: int) -> char {
    if d < 10 { ((d + 48) as u32) as char } else { ((d + 55) as u32) as char }
}

/// The encoding of one byte: itself, or `%` and two uppercase hex digits.
pub open spec fn encode_byte(b: u8) -> Seq<char> {
    if is_unreserved(b) {
        seq![(b as u32) as char]
    } else {
        seq!['%', hex_digit(b as int / 16), hex_digit(b as int % 16)]
    }
}

/// The percent encoding of the bytes `bytes`.
pub open spec fn percent_encoded(bytes: Seq<u8>) -> Seq<char>
    decreases bytes.len(),
{
    if bytes.len() == 0 {
        Seq::empty()
    } else {
        percent_encoded(bytes.drop_last()) + encode_byte(bytes.last())
    }
}

fn hex_digit_char(d: u8) -> (c: char)
    requires
        d < 16,
    ensures
        c == hex_digit(d as int),
{
    if d < 10 { (d + 48) as char } else { (d + 55) as char }
}

/// Percent-encodes the UTF-8 bytes of `payload` for a data URI.
pub fn encode_data_uri_payload(payload: &str) -> (r: String)
    ensures
        r@ == percent_encoded(vstd::utf8::encode_utf8(payload@)),
{
    let bytes = payload.as_bytes();
    let mut encoded = String::new();
    let mut i: usize = 0;
    while i < bytes.len()
        invariant
            bytes@ == vstd::utf8::encode_utf8(payload@),
            i <= bytes@.len(),
            encoded@ == percent_encoded(bytes@.take(i as int)),
        decreases bytes@.len() - i,
    {
        let byte = bytes[i];
        assert(bytes@.take(i + 1).drop_last() =~= bytes@.take(i as int));
        let unreserved = (0x30 <= byte && byte <= 0x39) || (0x41 <= byte && byte <= 0x5A)
            || (0x61 <= byte && byte <= 0x7A) || byte == 0x2D || byte == 0x5F || byte == 0x2E || byte == 0x7E;
        if unreserved {
            push_char(&mut encoded, byte as char);
        } else {
            push_char(&mut encoded, '%');
            push_char(&mut encoded, hex_digit_char(byte / 16));
            push_char(&mut encoded, hex_digit_char(byte % 16));
        }
        assert(encoded@ =~= percent_encoded(bytes@.take(i + 1)));
        i += 1;
    }
    assert(bytes@.take(bytes@.len() as int) =~= bytes@);
    encoded
}

/// The value of an uppercase hexadecimal digit.
pub open spec fn hex_value(c: char) -> int {
    if '0' <= c && c <= '9' { c as int - 48 } else { c as int - 55 }
}

/// The bytes that a percent-decoder reads from `s`: `%` and two hex digits
/// are one byte, any other char stands for itself.
pub open spec fn percent_decoded(s: Seq<char>) -> Seq<u8>
    decreases s.len(),
{
    if s.len() == 0 {
        Seq::empty()
    } else if s[0] == '%' && s.len() >= 3 {
        seq![(hex_value(s[1]) * 16 + hex_value(s[2])) as u8] + percent_decoded(s.skip(3))
    } else {
        seq![(s[0] as u32) as u8] + percent_decoded(s.skip(1))
    }
}

proof fn lemma_encoded_front(bytes: Seq<u8>)
    requires
        bytes.len() > 0,
    ensures
        percent_encoded(bytes) == encode_byte(bytes[0]) + percent_encoded(bytes.skip(1)),
    decreases bytes.len(),
{
    if bytes.len() == 1 {
        assert(bytes.drop_last() =~= Seq::<u8>::empty());
        assert(bytes.skip(1) =~= Seq::<u8>::empty());
        assert(percent_encoded(bytes) =~= encode_byte(bytes[0]) + percent_encoded(bytes.skip(1)));
    } else {
        let d = bytes.drop_last();
        lemma_encoded_front(d);
        assert(d.skip(1) =~= bytes.skip(1).drop_last());
        assert(bytes.skip(1).last() == bytes.last());
        assert(percent_encoded(bytes) =~= encode_byte(bytes[0]) + percent_encoded(bytes.skip(1)));
    }
}

proof fn lemma_hex_round_trip(d: int)
    requires
        0 <= d < 16,
    ensures
        hex_value(hex_digit(d)) == d,
{
    if d < 10 {
        assert((((d + 48) as u32) as char) as int == d + 48);
    } else {
        assert((((d + 55) as u32) as char) as int == d + 55);
    }
}

proof fn lemma_decode_byte(b: u8, rest: Seq<char>)
    ensures
        percent_decoded(encode_byte(b) + rest) == seq![b] + percent_decoded(rest),
{
    let e = encode_byte(b) + rest;
    if is_unreserved(b) {
        assert(((b as u32) as char) as u32 == b as u32);
        assert(e[0] != '%');
        assert(e.skip(1) =~= rest);
    } else {
        lemma_hex_round_trip(b as int / 16);
        lemma_hex_round_trip(b as int % 16);
        assert(e[0] == '%');
        assert(e.skip(3) =~= rest);
        assert((b as int / 16) * 16 + b as int % 16 == b as int);
    }
}

/// A data URI gives back its payload: percent-decoding the encoding of a
/// payload yields the payload's UTF-8 bytes.
pub proof fn law_data_uri_payload_decodes_back(payload: Seq<char>)
    ensures
        percent_decoded(percent_encoded(vstd::utf8::encode_utf8(payload))) == vstd::utf8::encode_utf8(payload),
{
    lemma_decode_encoded(vstd::utf8::encode_utf8(payload));
}

proof fn lemma_decode_encoded(bytes: Seq<u8>)
    ensures
        percent_decoded(percent_encoded(bytes)) == bytes,
    decreases bytes.len(),
{
    if bytes.len() > 0 {
        lemma_encoded_front(bytes);
        lemma_decode_byte(bytes[0], percent_encoded(bytes.skip(1)));
        lemma_decode_encoded(bytes.skip(1));
        assert(seq![bytes[0]] + bytes.skip(1) =~= bytes);
    } else {
        assert(percent_encoded(bytes) =~= Seq::<char>::empty());
    }
}

/// The `data-state` of a formula-space row in the rail: `recent` for a
/// closed space that can be reopened, else `active` or `idle`.
pub fn rail_row_state(can_reopen: bool, is_active: bool) -> (r: &'static str)
    ensures
        r@ == if can_reopen { "recent"@ } else if is_active { "active"@ } else { "idle"@ },
{
    if can_reopen {
        "recent"
    } else if is_active {
        "active"
    } else {
        "idle"
    }
}

/// What clicking a formula-space row does.
#[derive(Debug, Clone, Copy, PartialEq, Eq, Structural)]
pub enum RailRowAction {
    /// Reopen the closed formula space.
    Reopen,
    /// Select the open formula space.
    Select,
}

/// Clicking a row reopens a space that can be reopened and selects any other.
pub fn rail_row_action(can_reopen: bool) -> (r: RailRowAction)
    ensures
        r == if can_reopen { RailRowAction::Reopen } else { RailRowAction::Select },
{
    if can_reopen { RailRowAction::Reopen } else { RailRowAction::Select }
}

/// The `data-role` of a row's button.
pub fn rail_row_button_role(action: RailRowAction) -> (r: &'static str)
    ensures
        r@ == (match action {
            RailRowAction::Reopen => "formula-space-reopen"@,
            RailRowAction::Select => "formula-space-select"@,
        }),
{
    match action {
        RailRowAction::Reopen => "formula-space-reopen",
        RailRowAction::Select => "formula-space-select",
    }
}

/// A row's meta line: the truth source and the mode, joined by ` · `.
pub fn rail_row_meta_summary(truth_source_label: &str, mode_label: &str) -> (r: String)
    ensures
        r@ == truth_source_label@ + " · "@ + mode_label@,
{
    let mut s = truth_source_label.to_owned();
    s.append(" · ");
    s.append(mode_label);
    s
}

} // verus!
