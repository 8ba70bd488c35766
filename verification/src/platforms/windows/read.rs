//! Reading from the Windows clipboard, as a session that says which
//! native call comes next.

use crate::error::{absent, ClipboardError, ErrorKind, ErrorModel};
use crate::platforms::windows::layout::{entry_name, read_entry, wide_text, wide_text_of};
use crate::platforms::windows::write::{failure_code, native_error, native_failure};
use crate::platforms::windows::{NativeCall, NativeReply, ReplyModel, CF_HDROP, CF_UNICODETEXT};
use crate::text::texts;
use vstd::prelude::*;

verus! {

/// What a read is after.
#[derive(Clone, Copy, Debug, PartialEq, Eq, Structural)]
pub enum ReadKind {
    /// The clipboard's Unicode text.
    Text,
    /// The bytes of the clipboard's default format, Unicode text, as they stand.
    Raw,
    /// The clipboard's list of dropped files.
    FilePaths,
}

/// What a read found.
#[derive(Debug, PartialEq, Eq)]
pub enum ReadValue {
    /// The text on the clipboard.
    Text(String),
    /// The bytes on the clipboard.
    Raw(Vec<u8>),
    /// The files on the clipboard.
    FilePaths(Vec<String>),
}

/// How far a read has come.
#[derive(Debug, PartialEq, Eq)]
pub enum ReadStage {
    /// Nothing is held. Next: open the clipboard.
    Closed,
    /// The clipboard is open. Next: ask whether the format is there.
    Opened,
    /// The format is there, or is not asked for. Next: get the data.
    Available,
    /// The data is at hand. Next: read it, or count the files in it.
    Fetched,
    /// `index` of `count` files are fetched. Next: ask for the length of
    /// the file `index`.
    Listing { count: u32, index: u32, paths: Vec<String> },
    /// The file `index` needs a buffer of `size` code units. Next: fetch it.
    Fetching { count: u32, index: u32, size: u32, paths: Vec<String> },
    /// The value is read. Next: close the clipboard.
    Collected(ReadValue),
    /// The read failed. Next: close the clipboard.
    Abandoning(ClipboardError),
    /// The read is over, with this result.
    Finished(Result<ReadValue, ClipboardError>),
}

/// A read of the clipboard, step by step.
#[derive(Debug, PartialEq, Eq)]
pub struct ReadSession {
    /// What the read is after.
    pub kind: ReadKind,
    /// How far it has come.
    pub stage: ReadStage,
}

/// What a value that was read says in contracts.
pub enum ValueModel {
    Text(Seq<char>),
    Raw(Seq<u8>),
    FilePaths(Seq<Seq<char>>),
}

/// What a stage of a read says in contracts.
pub enum ReadStageModel {
    Closed,
    Opened,
    Available,
    Fetched,
    Listing { count: u32, index: u32, paths: Seq<Seq<char>> },
    Fetching { count: u32, index: u32, size: u32, paths: Seq<Seq<char>> },
    Collected(ValueModel),
    Abandoning(ErrorModel),
    Finished(Result<ValueModel, ErrorModel>),
}

/// What a read session says in contracts.
pub struct ReadModel {
    pub kind: ReadKind,
    pub stage: ReadStageModel,
}

impl View for ReadValue {
    type V = ValueModel;

    open spec fn view(&self) -> ValueModel {
        match self {
            ReadValue::Text(text) => ValueModel::Text(text@),
            ReadValue::Raw(bytes) => ValueModel::Raw(bytes@),
            ReadValue::FilePaths(paths) => ValueModel::FilePaths(texts(paths@)),
        }
    }
}

impl View for ReadStage {
    type V = ReadStageModel;

    open spec fn view(&self) -> ReadStageModel {
        match self {
            ReadStage::Closed => ReadStageModel::Closed,
            ReadStage::Opened => ReadStageModel::Opened,
            ReadStage::Available => ReadStageModel::Available,
            ReadStage::Fetched => ReadStageModel::Fetched,
            ReadStage::Listing { count, index, paths } => ReadStageModel::Listing {
                count: *count,
                index: *index,
                paths: texts(paths@),
            },
            ReadStage::Fetching { count, index, size, paths } => ReadStageModel::Fetching {
                count: *count,
                index: *index,
                size: *size,
                paths: texts(paths@),
            },
            ReadStage::Collected(value) => ReadStageModel::Collected(value@),
            ReadStage::Abandoning(e) => ReadStageModel::Abandoning(e@),
            ReadStage::Finished(Ok(value)) => ReadStageModel::Finished(Ok(value@)),
            ReadStage::Finished(Err(e)) => ReadStageModel::Finished(Err(e@)),
        }
    }
}

impl View for ReadSession {
    type V = ReadModel;

    open spec fn view(&self) -> ReadModel {
        ReadModel { kind: self.kind, stage: self.stage@ }
    }
}

/// The clipboard format that a read asks for.
pub open spec fn format_of(kind: ReadKind) -> u32 {
    match kind {
        ReadKind::Text => CF_UNICODETEXT,
        ReadKind::Raw => CF_UNICODETEXT,
        ReadKind::FilePaths => CF_HDROP,
    }
}

/// The call that the session asks for at its stage.
pub open spec fn pending_call(session: ReadModel) -> NativeCall {
    match session.stage {
        ReadStageModel::Closed => NativeCall::OpenClipboard,
        ReadStageModel::Opened => NativeCall::IsFormatAvailable(format_of(session.kind)),
        ReadStageModel::Available => NativeCall::GetData(format_of(session.kind)),
        ReadStageModel::Fetched => match session.kind {
            ReadKind::Text => NativeCall::ReadWide,
            ReadKind::Raw => NativeCall::ReadBytes,
            ReadKind::FilePaths => NativeCall::CountFiles,
        },
        ReadStageModel::Listing { count, index, paths } => NativeCall::FileLength(index),
        ReadStageModel::Fetching { count, index, size, paths } => NativeCall::FetchFile(
            index,
            size,
        ),
        ReadStageModel::Collected(_) => NativeCall::CloseClipboard,
        ReadStageModel::Abandoning(_) => NativeCall::CloseClipboard,
        ReadStageModel::Finished(_) => NativeCall::Finish,
    }
}

/// The failure for an answer that does not fit the call.
pub open spec fn unexpected_reply() -> ErrorModel {
    ErrorModel { kind: ErrorKind::PlatformIo, message: "Unexpected reply from the native layer"@ }
}

/// The stage that ends a listing: the paths, or an absence where there
/// are none.
pub open spec fn listed(paths: Seq<Seq<char>>) -> ReadStageModel {
    if paths.len() == 0 {
        ReadStageModel::Abandoning(absent("No valid file paths found in clipboard"@))
    } else {
        ReadStageModel::Collected(ValueModel::FilePaths(paths))
    }
}

/// The stage that follows the file `index`: the next file, or the end of
/// the listing behind the last one.
pub open spec fn next_file(count: u32, index: u32, paths: Seq<Seq<char>>) -> ReadStageModel {
    if index + 1 >= count {
        listed(paths)
    } else {
        ReadStageModel::Listing { count, index: (index + 1) as u32, paths }
    }
}

/// The size of the buffer for a name of the given length: room for the
/// name and the NUL behind it, as far as 32 bits allow.
pub open spec fn buffer_size(length: u32) -> u32 {
    if length == u32::MAX {
        u32::MAX
    } else {
        (length + 1) as u32
    }
}

/// The paths after the answer to a fetch: one more where the answer is an
/// entry that holds a name.
pub open spec fn with_entry(paths: Seq<Seq<char>>, reply: ReplyModel) -> Seq<Seq<char>> {
    match reply {
        ReplyModel::Entry(buffer, length) => match entry_name(buffer, length) {
            Some(name) => paths.push(name),
            None => paths,
        },
        _ => paths,
    }
}

/// The stage that follows when the data at hand has been read.
pub open spec fn after_fetch(kind: ReadKind, reply: ReplyModel) -> ReadStageModel {
    match kind {
        ReadKind::Text => match reply {
            ReplyModel::Wide(units) => ReadStageModel::Collected(
                ValueModel::Text(wide_text_of(units)),
            ),
            ReplyModel::Failed(code) => ReadStageModel::Abandoning(
                native_failure(ErrorKind::Resource, "Failed to lock memory"@, code),
            ),
            _ => ReadStageModel::Abandoning(unexpected_reply()),
        },
        ReadKind::Raw => match reply {
            ReplyModel::Bytes(bytes) => if bytes.len() == 0 {
                ReadStageModel::Abandoning(absent("No data available in clipboard"@))
            } else {
                ReadStageModel::Collected(ValueModel::Raw(bytes))
            },
            ReplyModel::Failed(code) => ReadStageModel::Abandoning(
                native_failure(ErrorKind::Resource, "Failed to lock memory"@, code),
            ),
            _ => ReadStageModel::Abandoning(unexpected_reply()),
        },
        ReadKind::FilePaths => match reply {
            ReplyModel::Count(count) => if count == 0 {
                listed(Seq::empty())
            } else {
                ReadStageModel::Listing { count, index: 0, paths: Seq::empty() }
            },
            ReplyModel::Failed(code) => ReadStageModel::Abandoning(
                native_failure(ErrorKind::PlatformIo, "Failed to count files"@, code),
            ),
            _ => ReadStageModel::Abandoning(unexpected_reply()),
        },
    }
}

/// The stage that follows when the pending call is answered.
///
/// The clipboard is opened; where the read asks for text or for files,
/// the format must be there, else the read ends in an absence; the data
/// is got and read; the clipboard is closed. A call that fails after the
/// clipboard was opened leads to its being closed before the failure is
/// reported. Files are counted first; then, for each of them, the
/// length of its name is asked for and the name is fetched into a buffer
/// of that length and one more. A file whose length cannot be had, and a
/// fetched entry without a name, are left out.
pub open spec fn next_stage(kind: ReadKind, stage: ReadStageModel, reply: ReplyModel)
    -> ReadStageModel {
    match stage {
        ReadStageModel::Closed => match failure_code(reply) {
            None => if kind == ReadKind::Raw {
                ReadStageModel::Available
            } else {
                ReadStageModel::Opened
            },
            Some(code) => ReadStageModel::Finished(
                Err(native_failure(ErrorKind::Resource, "Failed to open clipboard"@, code)),
            ),
        },
        ReadStageModel::Opened => match failure_code(reply) {
            None => ReadStageModel::Available,
            Some(_) => ReadStageModel::Abandoning(
                absent(
                    if kind == ReadKind::FilePaths {
                        "No file paths available in clipboard"@
                    } else {
                        "No text available in clipboard"@
                    },
                ),
            ),
        },
        ReadStageModel::Available => match failure_code(reply) {
            None => ReadStageModel::Fetched,
            Some(code) => ReadStageModel::Abandoning(
                native_failure(
                    if kind == ReadKind::Raw {
                        ErrorKind::NotFound
                    } else {
                        ErrorKind::PlatformIo
                    },
                    "Failed to get clipboard data"@,
                    code,
                ),
            ),
        },
        ReadStageModel::Fetched => after_fetch(kind, reply),
        ReadStageModel::Listing { count, index, paths } => match reply {
            ReplyModel::Count(length) => ReadStageModel::Fetching {
                count,
                index,
                size: buffer_size(length),
                paths,
            },
            _ => next_file(count, index, paths),
        },
        ReadStageModel::Fetching { count, index, size, paths } => next_file(
            count,
            index,
            with_entry(paths, reply),
        ),
        ReadStageModel::Collected(value) => ReadStageModel::Finished(Ok(value)),
        ReadStageModel::Abandoning(e) => ReadStageModel::Finished(Err(e)),
        ReadStageModel::Finished(r) => ReadStageModel::Finished(r),
    }
}

/// The session after the pending call is answered.
pub open spec fn advanced(session: ReadModel, reply: ReplyModel) -> ReadModel {
    ReadModel { kind: session.kind, stage: next_stage(session.kind, session.stage, reply) }
}

/// Whether the session holds the clipboard open at this stage.
pub open spec fn clipboard_open(stage: ReadStageModel) -> bool {
    !(stage is Closed) && !(stage is Finished)
}

/// A bound on the number of calls that the session asks for from this
/// stage on.
pub open spec fn calls_left(stage: ReadStageModel) -> nat {
    match stage {
        ReadStageModel::Closed => 0x2_0000_0005,
        ReadStageModel::Opened => 0x2_0000_0004,
        ReadStageModel::Available => 0x2_0000_0003,
        ReadStageModel::Fetched => 0x2_0000_0002,
        ReadStageModel::Listing { count, index, paths } => if index < count {
            (2 * (count - index) + 1) as nat
        } else {
            3
        },
        ReadStageModel::Fetching { count, index, size, paths } => if index < count {
            (2 * (count - index)) as nat
        } else {
            2
        },
        ReadStageModel::Collected(_) => 1,
        ReadStageModel::Abandoning(_) => 1,
        ReadStageModel::Finished(_) => 0,
    }
}

fn reply_failure(reply: &NativeReply) -> (code: Option<u32>)
    ensures
        code == failure_code(reply@),
{
    match reply {
        NativeReply::Failed(code) => Some(*code),
        _ => None,
    }
}

fn unexpected() -> (e: ClipboardError)
    ensures
        e@ == unexpected_reply(),
{
    ClipboardError::with_text(ErrorKind::PlatformIo, "Unexpected reply from the native layer")
}

fn finish_listing(paths: Vec<String>) -> (stage: ReadStage)
    ensures
        stage@ == listed(texts(paths@)),
{
    if paths.len() == 0 {
        ReadStage::Abandoning(
            ClipboardError::with_text(
                ErrorKind::NotFound,
                "No valid file paths found in clipboard",
            ),
        )
    } else {
        ReadStage::Collected(ReadValue::FilePaths(paths))
    }
}

fn after_file(count: u32, index: u32, paths: Vec<String>) -> (stage: ReadStage)
    ensures
        stage@ == next_file(count, index, texts(paths@)),
{
    if index >= count || index + 1 >= count {
        finish_listing(paths)
    } else {
        ReadStage::Listing { count, index: index + 1, paths }
    }
}

fn add_entry(paths: Vec<String>, reply: &NativeReply) -> (out: Vec<String>)
    ensures
        texts(out@) == with_entry(texts(paths@), reply@),
{
    let mut out = paths;
    match reply {
        NativeReply::Entry(buffer, length) => match read_entry(buffer, *length) {
            Some(name) => {
                out.push(name);
            },
            None => {},
        },
        _ => {},
    }
    out
}

fn read_fetched(kind: ReadKind, reply: &NativeReply) -> (stage: ReadStage)
    ensures
        stage@ == after_fetch(kind, reply@),
{
    match kind {
        ReadKind::Text => match reply {
            NativeReply::Wide(units) => ReadStage::Collected(ReadValue::Text(wide_text(units))),
            NativeReply::Failed(code) => ReadStage::Abandoning(
                native_error(ErrorKind::Resource, "Failed to lock memory", *code),
            ),
            _ => ReadStage::Abandoning(unexpected()),
        },
        ReadKind::Raw => match reply {
            NativeReply::Bytes(bytes) => {
                if bytes.len() == 0 {
                    ReadStage::Abandoning(
                        ClipboardError::with_text(
                            ErrorKind::NotFound,
                            "No data available in clipboard",
                        ),
                    )
                } else {
                    ReadStage::Collected(ReadValue::Raw(bytes.clone()))
                }
            },
            NativeReply::Failed(code) => ReadStage::Abandoning(
                native_error(ErrorKind::Resource, "Failed to lock memory", *code),
            ),
            _ => ReadStage::Abandoning(unexpected()),
        },
        ReadKind::FilePaths => match reply {
            NativeReply::Count(count) => {
                let paths: Vec<String> = Vec::new();
                assert(texts(paths@) =~= Seq::empty());
                if *count == 0 {
                    finish_listing(paths)
                } else {
                    ReadStage::Listing { count: *count, index: 0, paths }
                }
            },
            NativeReply::Failed(code) => ReadStage::Abandoning(
                native_error(ErrorKind::PlatformIo, "Failed to count files", *code),
            ),
            _ => ReadStage::Abandoning(unexpected()),
        },
    }
}

impl ReadSession {
    /// The session that reads what `kind` says.
    pub fn begin(kind: ReadKind) -> (session: ReadSession)
        ensures
            session@ == (ReadModel { kind, stage: ReadStageModel::Closed }),
    {
        ReadSession { kind, stage: ReadStage::Closed }
    }

    /// The call to make next.
    pub fn call(&self) -> (call: NativeCall)
        ensures
            call == pending_call(self@),
    {
        let format: u32 = match self.kind {
            ReadKind::Text => CF_UNICODETEXT,
            ReadKind::Raw => CF_UNICODETEXT,
            ReadKind::FilePaths => CF_HDROP,
        };
        match &self.stage {
            ReadStage::Closed => NativeCall::OpenClipboard,
            ReadStage::Opened => NativeCall::IsFormatAvailable(format),
            ReadStage::Available => NativeCall::GetData(format),
            ReadStage::Fetched => match self.kind {
                ReadKind::Text => NativeCall::ReadWide,
                ReadKind::Raw => NativeCall::ReadBytes,
                ReadKind::FilePaths => NativeCall::CountFiles,
            },
            ReadStage::Listing { count, index, paths } => NativeCall::FileLength(*index),
            ReadStage::Fetching { count, index, size, paths } => NativeCall::FetchFile(
                *index,
                *size,
            ),
            ReadStage::Collected(_) => NativeCall::CloseClipboard,
            ReadStage::Abandoning(_) => NativeCall::CloseClipboard,
            ReadStage::Finished(_) => NativeCall::Finish,
        }
    }

    /// Takes the answer to the call that was asked for, and moves on.
    pub fn advance(self, reply: &NativeReply) -> (next: ReadSession)
        ensures
            next@ == advanced(self@, reply@),
    {
        let ReadSession { kind, stage } = self;
        let failed = reply_failure(reply);
        let stage = match stage {
            ReadStage::Closed => match failed {
                None => match kind {
                    ReadKind::Raw => ReadStage::Available,
                    _ => ReadStage::Opened,
                },
                Some(code) => ReadStage::Finished(
                    Err(native_error(ErrorKind::Resource, "Failed to open clipboard", code)),
                ),
            },
            ReadStage::Opened => match failed {
                None => ReadStage::Available,
                Some(_) => match kind {
                    ReadKind::FilePaths => ReadStage::Abandoning(
                        ClipboardError::with_text(
                            ErrorKind::NotFound,
                            "No file paths available in clipboard",
                        ),
                    ),
                    _ => ReadStage::Abandoning(
                        ClipboardError::with_text(
                            ErrorKind::NotFound,
                            "No text available in clipboard",
                        ),
                    ),
                },
            },
            ReadStage::Available => match failed {
                None => ReadStage::Fetched,
                Some(code) => match kind {
                    ReadKind::Raw => ReadStage::Abandoning(
                        native_error(ErrorKind::NotFound, "Failed to get clipboard data", code),
                    ),
                    _ => ReadStage::Abandoning(
                        native_error(ErrorKind::PlatformIo, "Failed to get clipboard data", code),
                    ),
                },
            },
            ReadStage::Fetched => read_fetched(kind, reply),
            ReadStage::Listing { count, index, paths } => match reply {
                NativeReply::Count(length) => {
                    let size: u32 = if *length == u32::MAX {
                        u32::MAX
                    } else {
                        *length + 1
                    };
                    ReadStage::Fetching { count, index, size, paths }
                },
                _ => after_file(count, index, paths),
            },
            ReadStage::Fetching { count, index, size, paths } => {
                let paths = add_entry(paths, reply);
                after_file(count, index, paths)
            },
            ReadStage::Collected(value) => ReadStage::Finished(Ok(value)),
            ReadStage::Abandoning(e) => ReadStage::Finished(Err(e)),
            ReadStage::Finished(r) => ReadStage::Finished(r),
        };
        ReadSession { kind, stage }
    }

    /// The result of the read, once it is over.
    pub fn outcome(self) -> (r: Option<Result<ReadValue, ClipboardError>>)
        ensures
            match r {
                Some(Ok(value)) => self@.stage == ReadStageModel::Finished(Ok(value@)),
                Some(Err(e)) => self@.stage == ReadStageModel::Finished(Err(e@)),
                None => !(self@.stage is Finished),
            },
    {
        match self.stage {
            ReadStage::Finished(r) => Some(r),
            _ => None,
        }
    }
}

/// Begins a read of the clipboard's text.
pub fn read_clipboard_text() -> (session: ReadSession)
    ensures
        session@ == (ReadModel { kind: ReadKind::Text, stage: ReadStageModel::Closed }),
{
    ReadSession::begin(ReadKind::Text)
}

/// Begins a read of the clipboard's raw bytes.
pub fn read_clipboard_raw() -> (session: ReadSession)
    ensures
        session@ == (ReadModel { kind: ReadKind::Raw, stage: ReadStageModel::Closed }),
{
    ReadSession::begin(ReadKind::Raw)
}

/// Begins a read of the clipboard's file paths.
pub fn read_clipboard_file_paths() -> (session: ReadSession)
    ensures
        session@ == (ReadModel { kind: ReadKind::FilePaths, stage: ReadStageModel::Closed }),
{
    ReadSession::begin(ReadKind::FilePaths)
}

/// A read never asks for a call that changes the clipboard: it opens,
/// asks, gets, reads, counts, fetches and closes.
pub proof fn lemma_read_leaves_clipboard_alone(session: ReadModel)
    ensures
        pending_call(session) != NativeCall::EmptyClipboard,
        !(pending_call(session) is SetData),
        !(pending_call(session) is Allocate),
        pending_call(session) != NativeCall::Fill,
        pending_call(session) != NativeCall::Free,
{
}

/// The clipboard is taken only by opening it, and given up only by
/// closing it; a read that is over holds nothing.
pub proof fn lemma_clipboard_is_opened_and_closed(session: ReadModel, reply: ReplyModel)
    ensures
        !clipboard_open(session.stage) && clipboard_open(advanced(session, reply).stage) ==> (
        pending_call(session) == NativeCall::OpenClipboard && failure_code(reply) is None),
        clipboard_open(session.stage) && !clipboard_open(advanced(session, reply).stage)
            ==> pending_call(session) == NativeCall::CloseClipboard,
        session.stage is Finished <==> pending_call(session) == NativeCall::Finish,
{
}

/// Every answer brings the session nearer to its end.
pub proof fn lemma_read_terminates(session: ReadModel, reply: ReplyModel)
    requires
        !(session.stage is Finished),
    ensures
        calls_left(advanced(session, reply).stage) < calls_left(session.stage),
{
}

/// What a read finds is of the kind that it was after, and a list of
/// files that it finds is not empty.
pub proof fn lemma_value_fits_kind(session: ReadModel, reply: ReplyModel)
    requires
        !(session.stage is Collected),
        !(session.stage is Finished),
    ensures
        advanced(session, reply).stage matches ReadStageModel::Collected(value) ==> (match value {
            ValueModel::Text(_) => session.kind == ReadKind::Text,
            ValueModel::Raw(bytes) => session.kind == ReadKind::Raw && bytes.len() > 0,
            ValueModel::FilePaths(paths) => paths.len() > 0,
        }),
{
}

/// The session after it has taken the given answers, one per call.
pub open spec fn after(session: ReadModel, replies: Seq<ReplyModel>) -> ReadModel
    decreases replies.len(),
{
    if replies.len() == 0 {
        session
    } else {
        after(advanced(session, replies[0]), replies.skip(1))
    }
}

/// The number of a session's calls, while it takes the given answers,
/// that `counted` holds of; a call is counted with its answer.
pub open spec fn count_calls(
    session: ReadModel,
    replies: Seq<ReplyModel>,
    counted: spec_fn(NativeCall, ReplyModel) -> bool,
) -> nat
    decreases replies.len(),
{
    if replies.len() == 0 || session.stage is Finished {
        0
    } else {
        let rest = count_calls(advanced(session, replies[0]), replies.skip(1), counted);
        if counted(pending_call(session), replies[0]) {
            rest + 1
        } else {
            rest
        }
    }
}

/// Whatever the native layer answers, a read that has come to its end
/// has closed the clipboard as often as it opened it: once where the
/// opening succeeded, and never where it did not.
pub proof fn lemma_every_open_is_closed(session: ReadModel, replies: Seq<ReplyModel>)
    requires
        after(session, replies).stage is Finished,
    ensures
        count_calls(
            session,
            replies,
            |c: NativeCall, r: ReplyModel|
                c == NativeCall::OpenClipboard && failure_code(r) is None,
        ) + (if clipboard_open(session.stage) {
            1nat
        } else {
            0nat
        }) == count_calls(
            session,
            replies,
            |c: NativeCall, r: ReplyModel| c == NativeCall::CloseClipboard,
        ),
    decreases replies.len(),
{
    if replies.len() > 0 && !(session.stage is Finished) {
        lemma_every_open_is_closed(advanced(session, replies[0]), replies.skip(1));
    }
}

/// Reading is a function of what the native layer answers: sessions that
/// are alike and get the same answer go on alike.
pub proof fn lemma_reads_are_repeatable(
    first: ReadSession,
    second: ReadSession,
    reply: NativeReply,
)
    requires
        first@ == second@,
    ensures
        advanced(first@, reply@) == advanced(second@, reply@),
        pending_call(first@) == pending_call(second@),
{
}

} // verus!
