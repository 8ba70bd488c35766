//! The memory layout of a dropped-files block, and UTF-16 text as the
//! Windows clipboard holds it.

use crate::encoding::{decode_utf16_lossy, encode_utf16, lemma_utf16_round_trip, push_utf16,
    utf16_to_chars, utf16_units};
use crate::text::{chars_of, string_of, texts};
use vstd::prelude::*;

verus! {

/// The size in bytes of the record that a dropped-files block begins with.
pub const DROPFILES_SIZE: u32 = 20;

/// A text in UTF-16 with the NUL that ends it.
pub open spec fn wide_null(text: Seq<char>) -> Seq<u16> {
    encode_utf16(text).push(0u16)
}

/// Converts a string to UTF-16 and ends it with a NUL.
pub fn to_wide_null(s: &str) -> (wide: Vec<u16>)
    ensures
        wide@ == wide_null(s@),
{
    let chars = chars_of(s);
    let mut wide: Vec<u16> = Vec::new();
    push_utf16(&mut wide, &chars);
    wide.push(0);
    wide
}

/// The paths in UTF-16, each with the NUL that ends it, one after another.
pub open spec fn wide_entries(paths: Seq<Seq<char>>) -> Seq<u16>
    decreases paths.len(),
{
    if paths.len() == 0 {
        Seq::empty()
    } else {
        wide_entries(paths.drop_last()) + wide_null(paths.last())
    }
}

/// The path list of a dropped-files block: the entries, and one more NUL
/// that stands for the empty path which ends the list.
pub open spec fn wide_list(paths: Seq<Seq<char>>) -> Seq<u16> {
    wide_entries(paths).push(0u16)
}

/// A 32-bit value as four bytes, lowest first.
pub open spec fn le_u32(value: u32) -> Seq<u8> {
    seq![
        (value % 0x100) as u8,
        (value / 0x100 % 0x100) as u8,
        (value / 0x1_0000 % 0x100) as u8,
        (value / 0x100_0000) as u8,
    ]
}

/// UTF-16 code units as bytes, the low byte of each unit first.
pub open spec fn le_u16s(units: Seq<u16>) -> Seq<u8>
    decreases units.len(),
{
    if units.len() == 0 {
        Seq::empty()
    } else {
        le_u16s(units.drop_last()).push((units.last() % 0x100) as u8).push(
            (units.last() / 0x100) as u8,
        )
    }
}

/// The record that a dropped-files block begins with: the offset of the
/// path list (the size of this record), a drop point of zero, the
/// non-client flag off, and the flag for UTF-16 on.
pub open spec fn drop_files_header() -> Seq<u8> {
    le_u32(DROPFILES_SIZE) + le_u32(0) + le_u32(0) + le_u32(0) + le_u32(1)
}

/// The dropped-files block for a list of paths: the header record and,
/// straight behind it, the path list.
pub open spec fn drop_files_bytes(paths: Seq<Seq<char>>) -> Seq<u8> {
    drop_files_header() + le_u16s(wide_list(paths))
}

fn push_le_u32(out: &mut Vec<u8>, value: u32)
    ensures
        final(out)@ == old(out)@ + le_u32(value),
{
    out.push((value % 0x100) as u8);
    out.push((value / 0x100 % 0x100) as u8);
    out.push((value / 0x1_0000 % 0x100) as u8);
    out.push((value / 0x100_0000) as u8);
}

fn push_le_u16s(out: &mut Vec<u8>, units: &Vec<u16>)
    ensures
        final(out)@ == old(out)@ + le_u16s(units@),
{
    let mut i: usize = 0;
    while i < units.len()
        invariant
            0 <= i <= units.len(),
            out@ == old(out)@ + le_u16s(units@.take(i as int)),
        decreases units.len() - i,
    {
        let ghost after = units@.take(i + 1);
        assert(after.drop_last() =~= units@.take(i as int));
        let unit = units[i];
        out.push((unit % 0x100) as u8);
        out.push((unit / 0x100) as u8);
        i += 1;
    }
    assert(units@.take(units.len() as int) =~= units@);
}

/// Builds the dropped-files block for a list of paths.
pub fn drop_files_block(paths: &Vec<String>) -> (block: Vec<u8>)
    ensures
        block@ == drop_files_bytes(texts(paths@)),
{
    let mut wide: Vec<u16> = Vec::new();
    let mut i: usize = 0;
    while i < paths.len()
        invariant
            0 <= i <= paths.len(),
            wide@ == wide_entries(texts(paths@).take(i as int)),
        decreases paths.len() - i,
    {
        let ghost after = texts(paths@).take(i + 1);
        assert(after.drop_last() =~= texts(paths@).take(i as int));
        let chars = chars_of(paths[i].as_str());
        push_utf16(&mut wide, &chars);
        wide.push(0);
        i += 1;
    }
    assert(texts(paths@).take(paths.len() as int) =~= texts(paths@));
    wide.push(0);
    let mut block: Vec<u8> = Vec::new();
    push_le_u32(&mut block, DROPFILES_SIZE);
    push_le_u32(&mut block, 0);
    push_le_u32(&mut block, 0);
    push_le_u32(&mut block, 0);
    push_le_u32(&mut block, 1);
    push_le_u16s(&mut block, &wide);
    block
}

/// The number of code units before the first NUL, or the number of all
/// where there is no NUL.
pub open spec fn nul_position(units: Seq<u16>) -> nat
    decreases units.len(),
{
    if units.len() == 0 || units[0] == 0 {
        0
    } else {
        1 + nul_position(units.skip(1))
    }
}

/// The code units before the first NUL.
pub open spec fn until_nul(units: Seq<u16>) -> Seq<u16> {
    units.take(nul_position(units) as int)
}

/// The first NUL stands where no unit before is a NUL and the unit there,
/// if any, is one.
pub proof fn lemma_nul_position(units: Seq<u16>, at: int)
    requires
        0 <= at <= units.len(),
        forall|j: int| 0 <= j < at ==> #[trigger] units[j] != 0,
        at == units.len() || units[at] == 0,
    ensures
        nul_position(units) == at,
    decreases at,
{
    if at > 0 {
        let rest = units.skip(1);
        lemma_nul_position(rest, at - 1);
    }
}

/// The text in a buffer of UTF-16 code units: what stands before the
/// first NUL, decoded with U+FFFD for each surrogate without a partner.
pub open spec fn wide_text_of(buffer: Seq<u16>) -> Seq<char> {
    decode_utf16_lossy(until_nul(buffer))
}

/// Reads the NUL-terminated UTF-16 text in a buffer.
pub fn wide_text(buffer: &Vec<u16>) -> (text: String)
    ensures
        text@ == wide_text_of(buffer@),
{
    let mut end: usize = 0;
    while end < buffer.len() && buffer[end] != 0
        invariant
            0 <= end <= buffer.len(),
            forall|j: int| 0 <= j < end ==> #[trigger] buffer@[j] != 0,
        decreases buffer.len() - end,
    {
        end += 1;
    }
    proof {
        lemma_nul_position(buffer@, end as int);
    }
    let mut units: Vec<u16> = Vec::new();
    let mut i: usize = 0;
    while i < end
        invariant
            0 <= i <= end <= buffer.len(),
            units@ == buffer@.take(i as int),
        decreases end - i,
    {
        units.push(buffer[i]);
        i += 1;
    }
    let chars = utf16_to_chars(&units);
    string_of(&chars)
}

/// The name that a fetched entry of a dropped-files list holds: the first
/// `length` code units of its buffer, decoded; an entry of length zero
/// holds none.
pub open spec fn entry_name(buffer: Seq<u16>, length: u32) -> Option<Seq<char>> {
    if length == 0 {
        None
    } else if length >= buffer.len() {
        Some(decode_utf16_lossy(buffer))
    } else {
        Some(decode_utf16_lossy(buffer.take(length as int)))
    }
}

/// Reads the name that a fetched entry holds.
pub fn read_entry(buffer: &Vec<u16>, length: u32) -> (name: Option<String>)
    ensures
        crate::content::optional_text(name) == entry_name(buffer@, length),
{
    if length == 0 {
        return None;
    }
    let end: usize = if (length as usize) >= buffer.len() {
        buffer.len()
    } else {
        length as usize
    };
    let mut units: Vec<u16> = Vec::new();
    let mut i: usize = 0;
    while i < end
        invariant
            0 <= i <= end <= buffer.len(),
            units@ == buffer@.take(i as int),
        decreases end - i,
    {
        units.push(buffer[i]);
        i += 1;
    }
    assert(buffer@.take(buffer.len() as int) =~= buffer@);
    let chars = utf16_to_chars(&units);
    Some(string_of(&chars))
}

/// No character but NUL has a zero among its code units.
proof fn lemma_units_nonzero(c: char)
    requires
        c != '\0',
    ensures
        forall|j: int| 0 <= j < utf16_units(c).len() ==> #[trigger] utf16_units(c)[j] != 0,
{
    vstd::utf8::char_is_scalar(c);
}

/// A text without NUL has no zero among its code units.
proof fn lemma_encoding_nonzero(text: Seq<char>)
    requires
        forall|i: int| 0 <= i < text.len() ==> #[trigger] text[i] != '\0',
    ensures
        forall|j: int| 0 <= j < encode_utf16(text).len() ==> #[trigger] encode_utf16(text)[j] != 0,
    decreases text.len(),
{
    if text.len() > 0 {
        let rest = text.skip(1);
        lemma_encoding_nonzero(rest);
        lemma_units_nonzero(text[0]);
        let first = utf16_units(text[0]);
        assert forall|j: int| 0 <= j < encode_utf16(text).len() implies #[trigger] encode_utf16(
            text,
        )[j] != 0 by {
            if j >= first.len() {
                assert(encode_utf16(text)[j] == encode_utf16(rest)[j - first.len()]);
            }
        }
    }
}

/// A text without NUL that is written as NUL-terminated UTF-16 is read
/// back as it was.
pub proof fn lemma_wide_text_round_trip(text: Seq<char>)
    requires
        forall|i: int| 0 <= i < text.len() ==> #[trigger] text[i] != '\0',
    ensures
        wide_text_of(wide_null(text)) == text,
{
    let units = encode_utf16(text);
    let wide = wide_null(text);
    lemma_encoding_nonzero(text);
    lemma_nul_position(wide, units.len() as int);
    assert(wide.take(units.len() as int) =~= units);
    lemma_utf16_round_trip(text);
}

/// The entry that the system hands out for a path that was written - its
/// code units and their number - holds that path's name again.
pub proof fn lemma_entry_round_trip(path: Seq<char>)
    requires
        path.len() > 0,
        encode_utf16(path).len() <= u32::MAX,
    ensures
        entry_name(wide_null(path), encode_utf16(path).len() as u32) == Some(path),
{
    let units = encode_utf16(path);
    assert(wide_null(path).take(units.len() as int) =~= units);
    lemma_utf16_round_trip(path);
}

/// The code units that bytes stand for, the low byte of each unit first.
pub open spec fn units_of_bytes(bytes: Seq<u8>) -> Seq<u16> {
    Seq::new(bytes.len() / 2, |i: int| (bytes[2 * i] + 0x100 * bytes[2 * i + 1]) as u16)
}

/// The entries of a list in which a NUL ends each entry and an empty
/// entry ends the list.
pub open spec fn listed_entries(units: Seq<u16>) -> Seq<Seq<u16>>
    decreases units.len(),
{
    let length = nul_position(units);
    if length == 0 || length >= units.len() {
        Seq::empty()
    } else {
        seq![units.take(length as int)] + listed_entries(units.skip(length as int + 1))
    }
}

/// The paths that a dropped-files block lists: the entries of the list
/// that stands at the offset which the block begins with, each decoded.
pub open spec fn dropped_paths(block: Seq<u8>) -> Seq<Seq<char>> {
    let offset = block[0] + 0x100 * block[1] + 0x1_0000 * block[2] + 0x100_0000 * block[3];
    listed_entries(units_of_bytes(block.skip(offset))).map_values(
        |entry: Seq<u16>| decode_utf16_lossy(entry),
    )
}

/// A path that a dropped-files list can carry: it is not empty and holds
/// no NUL.
pub open spec fn is_droppable(path: Seq<char>) -> bool {
    path.len() > 0 && forall|i: int| 0 <= i < path.len() ==> #[trigger] path[i] != '\0'
}

/// Code units written as bytes take twice their number of bytes, the low
/// byte of each unit before its high byte.
proof fn lemma_le_u16s_bytes(units: Seq<u16>)
    ensures
        le_u16s(units).len() == 2 * units.len(),
        forall|i: int|
            0 <= i < units.len() ==> le_u16s(units)[2 * i] == (#[trigger] units[i] % 0x100) as u8
                && le_u16s(units)[2 * i + 1] == (units[i] / 0x100) as u8,
    decreases units.len(),
{
    if units.len() > 0 {
        let before = units.drop_last();
        lemma_le_u16s_bytes(before);
        assert forall|i: int| 0 <= i < units.len() implies le_u16s(units)[2 * i] == (
        #[trigger] units[i] % 0x100) as u8 && le_u16s(units)[2 * i + 1] == (units[i] / 0x100) as u8
        by {
            if i < units.len() - 1 {
                assert(units[i] == before[i]);
            }
        }
    }
}

/// Code units written as bytes are read back as they were.
pub proof fn lemma_units_round_trip(units: Seq<u16>)
    ensures
        units_of_bytes(le_u16s(units)) == units,
{
    lemma_le_u16s_bytes(units);
}

/// The entries of a list of paths are those of its first path and, behind
/// them, those of the others.
proof fn lemma_wide_entries_front(paths: Seq<Seq<char>>)
    requires
        paths.len() > 0,
    ensures
        wide_entries(paths) == wide_null(paths[0]) + wide_entries(paths.skip(1)),
    decreases paths.len(),
{
    if paths.len() == 1 {
        assert(paths.drop_last() =~= Seq::<Seq<char>>::empty());
        assert(paths.skip(1) =~= Seq::<Seq<char>>::empty());
    } else {
        let before = paths.drop_last();
        lemma_wide_entries_front(before);
        assert(before.skip(1) =~= paths.skip(1).drop_last());
    }
}

/// A list that begins with a droppable path has that path's code units
/// as its first entry.
proof fn lemma_first_entry(path: Seq<char>, rest: Seq<u16>)
    requires
        is_droppable(path),
    ensures
        listed_entries(wide_null(path) + rest) == seq![encode_utf16(path)] + listed_entries(rest),
{
    let units = encode_utf16(path);
    let list = wide_null(path) + rest;
    lemma_encoding_nonzero(path);
    lemma_nul_position(list, units.len() as int);
    assert(list.take(units.len() as int) =~= units);
    assert(list.skip(units.len() as int + 1) =~= rest);
}

/// The list of droppable paths has their code units as its entries.
proof fn lemma_listed_entries(paths: Seq<Seq<char>>)
    requires
        forall|k: int| 0 <= k < paths.len() ==> is_droppable(#[trigger] paths[k]),
    ensures
        listed_entries(wide_list(paths)) == paths.map_values(|path: Seq<char>| encode_utf16(path)),
    decreases paths.len(),
{
    if paths.len() > 0 {
        let rest = paths.skip(1);
        lemma_listed_entries(rest);
        lemma_wide_entries_front(paths);
        lemma_first_entry(paths[0], wide_list(rest));
    }
}

/// The dropped-files block for droppable paths lists those paths again:
/// nothing is lost or run together on the way through the block.
pub proof fn lemma_block_round_trip(paths: Seq<Seq<char>>)
    requires
        forall|k: int| 0 <= k < paths.len() ==> is_droppable(#[trigger] paths[k]),
    ensures
        dropped_paths(drop_files_bytes(paths)) == paths,
{
    let block = drop_files_bytes(paths);
    let list = wide_list(paths);
    assert(block.skip(20) =~= le_u16s(list));
    lemma_units_round_trip(list);
    lemma_listed_entries(paths);
    let entries = paths.map_values(|path: Seq<char>| encode_utf16(path));
    assert forall|k: int| 0 <= k < paths.len() implies decode_utf16_lossy(#[trigger] entries[k])
        == paths[k] by {
        lemma_utf16_round_trip(paths[k]);
    }
}

} // verus!
