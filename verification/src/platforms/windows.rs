//! The Windows adapter: the clipboard formats for Unicode text and for
//! dropped files.

pub mod layout;
pub mod read;
pub mod write;

use vstd::prelude::*;

verus! {

/// The clipboard format of Unicode text.
pub const CF_UNICODETEXT: u32 = 13;

/// The clipboard format of a list of dropped files.
pub const CF_HDROP: u32 = 15;

/// One native call that a session asks to have made.
#[derive(Clone, Copy, Debug, PartialEq, Eq, Structural)]
pub enum NativeCall {
    /// Open the clipboard, with no owner window.
    OpenClipboard,
    /// Empty the clipboard.
    EmptyClipboard,
    /// Allocate that many bytes of movable global memory.
    Allocate(usize),
    /// Lock the allocated memory, copy the session's payload into it, unlock it.
    Fill,
    /// Hand the allocated memory to the clipboard under the given format.
    SetData(u32),
    /// Free the allocated memory.
    Free,
    /// Close the clipboard.
    CloseClipboard,
    /// Ask whether the clipboard holds the given format.
    IsFormatAvailable(u32),
    /// Get the handle of the clipboard's data in the given format.
    GetData(u32),
    /// Lock the data, copy its UTF-16 code units, unlock it.
    ReadWide,
    /// Lock the data, copy its bytes, unlock it.
    ReadBytes,
    /// Ask how many files the dropped-files data lists.
    CountFiles,
    /// Ask how many code units the name of the file with the given index
    /// has in the dropped-files data.
    FileLength(u32),
    /// Fetch the name of the file with the given index from the
    /// dropped-files data, into a buffer of that many code units.
    FetchFile(u32, u32),
    /// Nothing more: the session is over.
    Finish,
}

/// What the native layer answers to a call.
#[derive(Debug, PartialEq, Eq)]
pub enum NativeReply {
    /// The call succeeded; for a question, the answer is yes.
    Done,
    /// The call failed, or the answer is no; holds the system's error code.
    Failed(u32),
    /// The UTF-16 code units that were read.
    Wide(Vec<u16>),
    /// The bytes that were read.
    Bytes(Vec<u8>),
    /// The number that was asked for.
    Count(u32),
    /// A fetched file: the buffer it was written to, and its length in code units.
    Entry(Vec<u16>, u32),
}

/// What an answer says in contracts.
pub enum ReplyModel {
    Done,
    Failed(u32),
    Wide(Seq<u16>),
    Bytes(Seq<u8>),
    Count(u32),
    Entry(Seq<u16>, u32),
}

impl View for NativeReply {
    type V = ReplyModel;

    open spec fn view(&self) -> ReplyModel {
        match self {
            NativeReply::Done => ReplyModel::Done,
            NativeReply::Failed(code) => ReplyModel::Failed(*code),
            NativeReply::Wide(units) => ReplyModel::Wide(units@),
            NativeReply::Bytes(bytes) => ReplyModel::Bytes(bytes@),
            NativeReply::Count(count) => ReplyModel::Count(*count),
            NativeReply::Entry(buffer, length) => ReplyModel::Entry(buffer@, *length),
        }
    }
}

} // verus!
