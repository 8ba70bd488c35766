//! UTF-8 and UTF-16: reading bytes as text, and text as the code units
//! that Windows holds.

use vstd::prelude::*;
use vstd::utf8::{decode_utf8, is_scalar, valid_utf8};

verus! {

/// Reads bytes as UTF-8, through `std::str::from_utf8`: the text is returned
/// exactly when the bytes are valid UTF-8, and it is what they decode to.
#[verifier::external_body]
pub(crate) fn str_from_utf8<'a>(bytes: &'a [u8]) -> (r: Option<&'a str>)
    ensures
        r is Some <==> valid_utf8(bytes@),
        r is Some ==> r->Some_0@ == decode_utf8(bytes@),
{
    match std::str::from_utf8(bytes) {
        Ok(text) => Some(text),
        Err(_) => None,
    }
}

/// What `String::from_utf8_lossy` returns for the given bytes.
pub uninterp spec fn from_utf8_lossy_result(bytes: Seq<u8>) -> Seq<char>;

/// The text that bytes are read as when invalid UTF-8 is tolerated: valid
/// UTF-8 decodes as it stands; for other bytes it is what
/// `String::from_utf8_lossy` makes of them, with U+FFFD in place of each
/// invalid sequence.
pub open spec fn utf8_lossy(bytes: Seq<u8>) -> Seq<char> {
    if valid_utf8(bytes) {
        decode_utf8(bytes)
    } else {
        from_utf8_lossy_result(bytes)
    }
}

/// Reads bytes as UTF-8 with replacement, through `String::from_utf8_lossy`.
/// The result is named by `from_utf8_lossy_result`; for valid UTF-8 it is
/// what the bytes decode to.
#[verifier::external_body]
pub(crate) fn string_from_utf8_lossy(bytes: &[u8]) -> (text: String)
    ensures
        text@ == from_utf8_lossy_result(bytes@),
        text@ == utf8_lossy(bytes@),
{
    String::from_utf8_lossy(bytes).into_owned()
}

/// Text written as UTF-8 is read back unchanged.
pub proof fn lemma_utf8_lossy_reads_back(text: Seq<char>)
    ensures
        utf8_lossy(vstd::utf8::encode_utf8(text)) == text,
{
    vstd::utf8::encode_utf8_valid_utf8(text);
    vstd::utf8::encode_utf8_decode_utf8(text);
}

/// The character with the given code, through `char::from_u32`: there is one
/// exactly when the code is a Unicode scalar value.
#[verifier::external_body]
fn char_from_u32(code: u32) -> (r: Option<char>)
    ensures
        r is Some <==> is_scalar(code),
        r is Some ==> r->Some_0 as u32 == code,
{
    char::from_u32(code)
}

/// The character that substitutes for text which cannot be decoded.
pub open spec fn replacement_char() -> char {
    '\u{FFFD}'
}

/// The character with the given scalar value.
fn scalar_char(code: u32) -> (c: char)
    requires
        is_scalar(code),
    ensures
        c as u32 == code,
        c == code as char,
{
    match char_from_u32(code) {
        Some(c) => {
            proof {
                vstd::utf8::char_u32_cast(c, code);
            }
            c
        },
        None => '\u{FFFD}',
    }
}

/// Whether a UTF-16 code unit is the first half of a surrogate pair.
pub open spec fn is_high_surrogate(unit: u16) -> bool {
    0xD800 <= unit <= 0xDBFF
}

/// Whether a UTF-16 code unit is the second half of a surrogate pair.
pub open spec fn is_low_surrogate(unit: u16) -> bool {
    0xDC00 <= unit <= 0xDFFF
}

/// The UTF-16 code units of one character: the character's code when it is
/// below 0x10000, else a surrogate pair.
pub open spec fn utf16_units(c: char) -> Seq<u16> {
    let code = c as u32;
    if code < 0x10000 {
        seq![code as u16]
    } else {
        seq![
            (0xD800 + (code - 0x10000) / 0x400) as u16,
            (0xDC00 + (code - 0x10000) % 0x400) as u16,
        ]
    }
}

/// A text in UTF-16.
pub open spec fn encode_utf16(text: Seq<char>) -> Seq<u16>
    decreases text.len(),
{
    if text.len() == 0 {
        Seq::empty()
    } else {
        utf16_units(text[0]) + encode_utf16(text.skip(1))
    }
}

/// The code that a surrogate pair stands for.
pub open spec fn surrogate_pair_code(high: u16, low: u16) -> u32 {
    (0x10000 + (high - 0xD800) * 0x400 + (low - 0xDC00)) as u32
}

/// The text that UTF-16 code units decode to, with U+FFFD in place of each
/// surrogate that has no partner.
pub open spec fn decode_utf16_lossy(units: Seq<u16>) -> Seq<char>
    decreases units.len(),
{
    if units.len() == 0 {
        Seq::empty()
    } else if !is_high_surrogate(units[0]) && !is_low_surrogate(units[0]) {
        seq![units[0] as char] + decode_utf16_lossy(units.skip(1))
    } else if is_high_surrogate(units[0]) && units.len() >= 2 && is_low_surrogate(units[1]) {
        seq![surrogate_pair_code(units[0], units[1]) as char] + decode_utf16_lossy(units.skip(2))
    } else {
        seq![replacement_char()] + decode_utf16_lossy(units.skip(1))
    }
}

/// Appends the UTF-16 code units of the characters to `out`.
pub fn push_utf16(out: &mut Vec<u16>, chars: &Vec<char>)
    ensures
        final(out)@ == old(out)@ + encode_utf16(chars@),
{
    let mut i: usize = 0;
    assert(chars@.skip(0) =~= chars@);
    while i < chars.len()
        invariant
            0 <= i <= chars.len(),
            out@ + encode_utf16(chars@.skip(i as int)) == old(out)@ + encode_utf16(chars@),
        decreases chars.len() - i,
    {
        let ghost rest = chars@.skip(i as int);
        let c = chars[i];
        assert(rest.skip(1) =~= chars@.skip(i + 1));
        let code: u32 = c as u32;
        proof {
            vstd::utf8::char_is_scalar(c);
        }
        if code < 0x10000 {
            out.push(code as u16);
        } else {
            let offset: u32 = code - 0x10000;
            out.push((0xD800 + offset / 0x400) as u16);
            out.push((0xDC00 + offset % 0x400) as u16);
        }
        i += 1;
    }
}

/// Decodes UTF-16 code units, with U+FFFD in place of each surrogate that has
/// no partner.
pub fn utf16_to_chars(units: &Vec<u16>) -> (out: Vec<char>)
    ensures
        out@ == decode_utf16_lossy(units@),
{
    let mut out: Vec<char> = Vec::new();
    let mut i: usize = 0;
    assert(units@.skip(0) =~= units@);
    while i < units.len()
        invariant
            0 <= i <= units.len(),
            out@ + decode_utf16_lossy(units@.skip(i as int)) == decode_utf16_lossy(units@),
        decreases units.len() - i,
    {
        let ghost rest = units@.skip(i as int);
        let unit = units[i];
        if unit < 0xD800 || unit > 0xDFFF {
            out.push(scalar_char(unit as u32));
            assert(rest.skip(1) =~= units@.skip(i + 1));
            i += 1;
        } else if unit <= 0xDBFF && i + 1 < units.len() && 0xDC00 <= units[i + 1] && units[i + 1]
            <= 0xDFFF {
            let low = units[i + 1];
            let code: u32 = 0x10000 + ((unit - 0xD800) as u32) * 0x400 + ((low - 0xDC00) as u32);
            out.push(scalar_char(code));
            assert(rest.skip(2) =~= units@.skip(i + 2));
            i += 2;
        } else {
            out.push('\u{FFFD}');
            assert(rest.skip(1) =~= units@.skip(i + 1));
            i += 1;
        }
    }
    out
}

/// Decoding undoes the encoding of one character, whatever follows it.
proof fn lemma_decode_one(c: char, rest: Seq<u16>)
    ensures
        decode_utf16_lossy(utf16_units(c) + rest) == seq![c] + decode_utf16_lossy(rest),
{
    let units = utf16_units(c) + rest;
    let code = c as u32;
    vstd::utf8::char_is_scalar(c);
    if code < 0x10000 {
        assert(units.skip(1) =~= rest);
        vstd::utf8::char_u32_cast(c, code);
    } else {
        assert(units.skip(2) =~= rest);
        vstd::utf8::char_u32_cast(c, code);
    }
}

/// A text written as UTF-16 decodes to itself.
pub proof fn lemma_utf16_round_trip(text: Seq<char>)
    ensures
        decode_utf16_lossy(encode_utf16(text)) == text,
    decreases text.len(),
{
    if text.len() > 0 {
        lemma_utf16_round_trip(text.skip(1));
        lemma_decode_one(text[0], encode_utf16(text.skip(1)));
    }
}

} // verus!
