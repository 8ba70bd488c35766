//! Readable renderings of raw clipboard bytes: a hexadecimal view, a
//! preview, and a guess at the kind of content.

use crate::content::{optional_text, text_in_bytes, usable_text};
use crate::error::ClipboardError;
use crate::text::{contains, has_prefix, join, occurs_at, string_of};
use vstd::prelude::*;
use vstd::slice::*;
use vstd::string::*;
use vstd::utf8::{encode_utf8, valid_utf8};

verus! {

/// A readable rendering of the clipboard's raw bytes.
#[derive(Debug, PartialEq, Eq)]
pub struct ReadableClipboardContent {
    /// The first bytes in hexadecimal.
    pub hex_view: Option<String>,
    /// The bytes as text, where they are UTF-8 and not blank.
    pub text_view: Option<String>,
    /// A guess at the kind of content.
    pub mime_type: Option<String>,
    /// The number of bytes.
    pub size: u32,
    /// The first bytes as printable characters.
    pub preview: Option<String>,
}

/// What a readable rendering says in contracts.
pub struct ReadableModel {
    pub hex_view: Option<Seq<char>>,
    pub text_view: Option<Seq<char>>,
    pub mime_type: Option<Seq<char>>,
    pub size: u32,
    pub preview: Option<Seq<char>>,
}

impl View for ReadableClipboardContent {
    type V = ReadableModel;

    open spec fn view(&self) -> ReadableModel {
        ReadableModel {
            hex_view: optional_text(self.hex_view),
            text_view: optional_text(self.text_view),
            mime_type: optional_text(self.mime_type),
            size: self.size,
            preview: optional_text(self.preview),
        }
    }
}

/// The number of bytes that the hexadecimal view shows at most.
pub const HEX_VIEW_BYTES: usize = 100;

/// The number of bytes that the preview shows at most.
pub const PREVIEW_BYTES: usize = 20;

/// The number of leading bytes that are tested for being text.
pub const TEXT_PROBE_BYTES: usize = 1000;

/// The first `limit` items, or all where there are fewer.
pub open spec fn head<A>(data: Seq<A>, limit: int) -> Seq<A> {
    if data.len() <= limit {
        data
    } else {
        data.take(limit)
    }
}

/// The bytes that a JPEG image begins with.
pub open spec fn jpeg_magic() -> Seq<u8> {
    seq![0xFFu8, 0xD8u8, 0xFFu8]
}

/// A guess at the kind of content that bytes hold, by their first bytes, by
/// an HTML doctype in them, and by whether their beginning is UTF-8.
pub open spec fn mime_type_of(data: Seq<u8>) -> Option<Seq<char>> {
    if data.len() == 0 {
        None
    } else if has_prefix(data, encode_utf8("%PDF-"@)) {
        Some("application/pdf"@)
    } else if has_prefix(data, jpeg_magic()) {
        Some("image/jpeg"@)
    } else if has_prefix(data, encode_utf8("PNG\r\n"@)) {
        Some("image/png"@)
    } else if contains(data, encode_utf8("<!DOCTYPE html>"@)) {
        Some("text/html"@)
    } else if valid_utf8(head(data, TEXT_PROBE_BYTES as int)) {
        Some("text/plain"@)
    } else {
        Some("application/octet-stream"@)
    }
}

/// Decides whether `pattern` stands in `data` at position `at`.
fn bytes_match_at(data: &[u8], pattern: &[u8], at: usize) -> (r: bool)
    ensures
        r == occurs_at(data@, pattern@, at as int),
{
    if pattern.len() > data.len() || at > data.len() - pattern.len() {
        return false;
    }
    let mut k: usize = 0;
    while k < pattern.len()
        invariant
            0 <= k <= pattern.len(),
            at + pattern.len() <= data.len(),
            forall|j: int| 0 <= j < k ==> data@[at + j] == pattern@[j],
        decreases pattern.len() - k,
    {
        if data[at + k] != pattern[k] {
            return false;
        }
        k += 1;
    }
    assert(data@.subrange(at as int, at + pattern.len()) =~= pattern@);
    true
}

/// Decides whether `pattern` stands somewhere in `data`.
fn bytes_contain(data: &[u8], pattern: &[u8]) -> (r: bool)
    ensures
        r == contains(data@, pattern@),
{
    if pattern.len() > data.len() {
        return false;
    }
    let last: usize = data.len() - pattern.len();
    let mut at: usize = 0;
    loop
        invariant
            0 <= at <= last,
            last == data.len() - pattern.len(),
            forall|j: int| 0 <= j < at ==> !occurs_at(data@, pattern@, j),
        decreases last - at,
    {
        if bytes_match_at(data, pattern, at) {
            return true;
        }
        if at == last {
            return false;
        }
        at += 1;
    }
}

/// Guesses the kind of content that the bytes hold.
pub fn detect_mime_type(data: &[u8]) -> (r: Option<String>)
    ensures
        optional_text(r) == mime_type_of(data@),
{
    if data.len() == 0 {
        return None;
    }
    let jpeg: Vec<u8> = vec![0xFFu8, 0xD8u8, 0xFFu8];
    if bytes_match_at(data, "%PDF-".as_bytes(), 0) {
        return Some(String::from_str("application/pdf"));
    } else if bytes_match_at(data, jpeg.as_slice(), 0) {
        return Some(String::from_str("image/jpeg"));
    } else if bytes_match_at(data, "PNG\r\n".as_bytes(), 0) {
        return Some(String::from_str("image/png"));
    } else if bytes_contain(data, "<!DOCTYPE html>".as_bytes()) {
        return Some(String::from_str("text/html"));
    }
    let probe: &[u8] = if data.len() <= TEXT_PROBE_BYTES {
        data
    } else {
        slice_subrange(data, 0, TEXT_PROBE_BYTES)
    };
    if crate::encoding::str_from_utf8(probe).is_some() {
        return Some(String::from_str("text/plain"));
    }
    Some(String::from_str("application/octet-stream"))
}

/// How the preview shows one byte: printable ASCII as it is, any other
/// byte as a dot.
pub open spec fn preview_char(b: u8) -> char {
    if 32 <= b <= 126 {
        b as char
    } else {
        '.'
    }
}

/// The preview of bytes: none for no bytes, else the first bytes, each as
/// the preview shows it.
pub open spec fn preview_of(data: Seq<u8>) -> Option<Seq<char>> {
    if data.len() == 0 {
        None
    } else {
        Some(head(data, PREVIEW_BYTES as int).map_values(|b: u8| preview_char(b)))
    }
}

/// Builds the preview of the bytes.
pub fn generate_preview(data: &[u8]) -> (r: Option<String>)
    ensures
        optional_text(r) == preview_of(data@),
{
    if data.len() == 0 {
        return None;
    }
    let shown: usize = if data.len() <= PREVIEW_BYTES {
        data.len()
    } else {
        PREVIEW_BYTES
    };
    let mut out: Vec<char> = Vec::new();
    let mut i: usize = 0;
    while i < shown
        invariant
            0 <= i <= shown <= data.len(),
            out.len() == i,
            forall|j: int| 0 <= j < i ==> out@[j] == preview_char(data@[j]),
        decreases shown - i,
    {
        let b = data[i];
        if 32 <= b && b <= 126 {
            out.push(b as char);
        } else {
            out.push('.');
        }
        i += 1;
    }
    Some(string_of(&out))
}

/// The hexadecimal digit, in upper case, for a value below sixteen.
pub open spec fn hex_digit(d: int) -> char
    recommends
        0 <= d < 16,
{
    if d == 0 {
        '0'
    } else if d == 1 {
        '1'
    } else if d == 2 {
        '2'
    } else if d == 3 {
        '3'
    } else if d == 4 {
        '4'
    } else if d == 5 {
        '5'
    } else if d == 6 {
        '6'
    } else if d == 7 {
        '7'
    } else if d == 8 {
        '8'
    } else if d == 9 {
        '9'
    } else if d == 10 {
        'A'
    } else if d == 11 {
        'B'
    } else if d == 12 {
        'C'
    } else if d == 13 {
        'D'
    } else if d == 14 {
        'E'
    } else {
        'F'
    }
}

/// A byte as two hexadecimal digits.
pub open spec fn hex_pair(b: u8) -> Seq<char> {
    seq![hex_digit(b as int / 16), hex_digit(b as int % 16)]
}

/// The hexadecimal view of bytes: none for no bytes, else the first bytes,
/// two digits each, with a space between neighbours.
pub open spec fn hex_view_of(data: Seq<u8>) -> Option<Seq<char>> {
    if data.len() == 0 {
        None
    } else {
        Some(join(head(data, HEX_VIEW_BYTES as int).map_values(|b: u8| hex_pair(b)), " "@))
    }
}

fn hex_char(d: u8) -> (c: char)
    requires
        d < 16,
    ensures
        c == hex_digit(d as int),
{
    if d == 0 {
        '0'
    } else if d == 1 {
        '1'
    } else if d == 2 {
        '2'
    } else if d == 3 {
        '3'
    } else if d == 4 {
        '4'
    } else if d == 5 {
        '5'
    } else if d == 6 {
        '6'
    } else if d == 7 {
        '7'
    } else if d == 8 {
        '8'
    } else if d == 9 {
        '9'
    } else if d == 10 {
        'A'
    } else if d == 11 {
        'B'
    } else if d == 12 {
        'C'
    } else if d == 13 {
        'D'
    } else if d == 14 {
        'E'
    } else {
        'F'
    }
}

/// Builds the hexadecimal view of the bytes.
pub fn hex_view(data: &[u8]) -> (r: Option<String>)
    ensures
        optional_text(r) == hex_view_of(data@),
{
    if data.len() == 0 {
        return None;
    }
    let shown: usize = if data.len() <= HEX_VIEW_BYTES {
        data.len()
    } else {
        HEX_VIEW_BYTES
    };
    let ghost pairs = head(data@, HEX_VIEW_BYTES as int).map_values(|b: u8| hex_pair(b));
    proof {
        reveal_strlit(" ");
    }
    let mut out: Vec<char> = Vec::new();
    let mut i: usize = 0;
    while i < shown
        invariant
            0 <= i <= shown <= data.len(),
            shown == pairs.len(),
            " "@ == seq![' '],
            forall|j: int| 0 <= j < shown ==> pairs[j] == hex_pair(data@[j]),
            out@ == join(pairs.take(i as int), " "@),
        decreases shown - i,
    {
        let ghost after = pairs.take(i + 1);
        assert(after.drop_last() =~= pairs.take(i as int));
        let b = data[i];
        if i > 0 {
            out.push(' ');
        }
        out.push(hex_char(b / 16));
        out.push(hex_char(b % 16));
        i += 1;
    }
    assert(pairs.take(shown as int) =~= pairs);
    Some(string_of(&out))
}

/// The readable rendering of raw bytes. The size is the number of bytes as
/// far as 32 bits hold it.
pub open spec fn readable_of(data: Seq<u8>) -> ReadableModel {
    ReadableModel {
        hex_view: hex_view_of(data),
        text_view: text_in_bytes(data),
        mime_type: mime_type_of(data),
        size: data.len() as u32,
        preview: preview_of(data),
    }
}

/// Renders the outcome of a raw read in readable form; a failed read stays
/// the failure that it was.
pub fn read_clipboard_readable(raw: Result<Vec<u8>, ClipboardError>) -> (r: Result<
    ReadableClipboardContent,
    ClipboardError,
>)
    ensures
        match raw {
            Ok(data) => r is Ok && r->Ok_0@ == readable_of(data@),
            Err(e) => r is Err && r->Err_0@ == e@,
        },
{
    match raw {
        Ok(data) => {
            let size: u32 = #[verifier::truncate]
            (data.len() as u32);
            Ok(
                ReadableClipboardContent {
                    hex_view: hex_view(data.as_slice()),
                    text_view: usable_text(&data),
                    mime_type: detect_mime_type(data.as_slice()),
                    size,
                    preview: generate_preview(data.as_slice()),
                },
            )
        },
        Err(e) => Err(e),
    }
}

} // verus!
