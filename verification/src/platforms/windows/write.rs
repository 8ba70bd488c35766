//! Writing a list of files to the Windows clipboard, as a session that
//! says which native call comes next.

use crate::error::{result_model, ClipboardError, ErrorKind, ErrorModel};
use crate::platforms::windows::layout::{drop_files_block, drop_files_bytes};
use crate::platforms::windows::{NativeCall, NativeReply, ReplyModel, CF_HDROP};
use crate::resolver::{resolution, resolve_paths, AttemptModel, PathAttempt, ResolvePolicy};
use crate::text::{decimal, push_decimal, push_str, string_of, texts, views};
use vstd::prelude::*;

verus! {

/// How far a write has come.
///
/// A write goes from `Closed` through `Opened`, `Emptied`,
/// `MemoryAllocated`, `MemoryPopulated` and `DataSet` to `Finished`. A call
/// that fails turns it aside: memory that is still the session's own is
/// released (`Releasing`), the clipboard is closed (`Abandoning`), and the
/// write finishes with the failure.
#[derive(Debug, PartialEq, Eq)]
pub enum WriteStage {
    /// Nothing is held. Next: open the clipboard.
    Closed,
    /// The clipboard is open. Next: empty it.
    Opened,
    /// The clipboard is open and empty. Next: allocate memory.
    Emptied,
    /// Memory is allocated. Next: fill it.
    MemoryAllocated,
    /// The memory holds the block. Next: hand it to the clipboard.
    MemoryPopulated,
    /// The clipboard owns the memory. Next: close the clipboard.
    DataSet,
    /// A call failed while the session owned memory. Next: free it.
    Releasing(ClipboardError),
    /// A call failed; no memory is owned. Next: close the clipboard.
    Abandoning(ClipboardError),
    /// The write is over, with this result.
    Finished(Result<(), ClipboardError>),
}

/// A write of a dropped-files block, step by step.
#[derive(Debug, PartialEq, Eq)]
pub struct WriteSession {
    /// How far the write has come.
    pub stage: WriteStage,
    /// The block to write.
    pub payload: Vec<u8>,
}

/// What a stage of a write says in contracts.
pub enum WriteStageModel {
    Closed,
    Opened,
    Emptied,
    MemoryAllocated,
    MemoryPopulated,
    DataSet,
    Releasing(ErrorModel),
    Abandoning(ErrorModel),
    Finished(Result<(), ErrorModel>),
}

/// What a write session says in contracts.
pub struct WriteModel {
    pub stage: WriteStageModel,
    pub payload: Seq<u8>,
}

impl View for WriteStage {
    type V = WriteStageModel;

    open spec fn view(&self) -> WriteStageModel {
        match self {
            WriteStage::Closed => WriteStageModel::Closed,
            WriteStage::Opened => WriteStageModel::Opened,
            WriteStage::Emptied => WriteStageModel::Emptied,
            WriteStage::MemoryAllocated => WriteStageModel::MemoryAllocated,
            WriteStage::MemoryPopulated => WriteStageModel::MemoryPopulated,
            WriteStage::DataSet => WriteStageModel::DataSet,
            WriteStage::Releasing(e) => WriteStageModel::Releasing(e@),
            WriteStage::Abandoning(e) => WriteStageModel::Abandoning(e@),
            WriteStage::Finished(Ok(())) => WriteStageModel::Finished(Ok(())),
            WriteStage::Finished(Err(e)) => WriteStageModel::Finished(Err(e@)),
        }
    }
}

impl View for WriteSession {
    type V = WriteModel;

    open spec fn view(&self) -> WriteModel {
        WriteModel { stage: self.stage@, payload: self.payload@ }
    }
}

/// The error code of a reply that reports a failure.
pub open spec fn failure_code(reply: ReplyModel) -> Option<u32> {
    match reply {
        ReplyModel::Failed(code) => Some(code),
        _ => None,
    }
}

/// The failure that a native call's error code is reported as: what was
/// being done, and the code.
pub open spec fn native_failure(kind: ErrorKind, what: Seq<char>, code: u32) -> ErrorModel {
    ErrorModel { kind, message: what + ": "@ + decimal(code as nat) }
}

/// Builds the failure that a native call's error code is reported as.
pub fn native_error(kind: ErrorKind, what: &str, code: u32) -> (e: ClipboardError)
    ensures
        e@ == native_failure(kind, what@, code),
{
    let mut message: Vec<char> = Vec::new();
    push_str(&mut message, what);
    push_str(&mut message, ": ");
    push_decimal(&mut message, code as u64);
    ClipboardError::new(kind, string_of(&message))
}

/// Whether the session holds the clipboard open at this stage.
pub open spec fn clipboard_open(stage: WriteStageModel) -> bool {
    !(stage is Closed) && !(stage is Finished)
}

/// Whether the session owns allocated memory at this stage: it has been
/// allocated, and the clipboard has not taken it over.
pub open spec fn memory_owned(stage: WriteStageModel) -> bool {
    stage is MemoryAllocated || stage is MemoryPopulated || stage is Releasing
}

/// The session that writes the given resolved paths. With no path there
/// is nothing to do: the session is finished before any call is made,
/// and the clipboard stays as it is.
pub open spec fn write_start(paths: Seq<Seq<char>>) -> WriteModel {
    if paths.len() == 0 {
        WriteModel { stage: WriteStageModel::Finished(Ok(())), payload: Seq::empty() }
    } else {
        WriteModel { stage: WriteStageModel::Closed, payload: drop_files_bytes(paths) }
    }
}

/// The call that the session asks for at its stage.
pub open spec fn pending_call(session: WriteModel) -> NativeCall {
    match session.stage {
        WriteStageModel::Closed => NativeCall::OpenClipboard,
        WriteStageModel::Opened => NativeCall::EmptyClipboard,
        WriteStageModel::Emptied => NativeCall::Allocate(session.payload.len() as usize),
        WriteStageModel::MemoryAllocated => NativeCall::Fill,
        WriteStageModel::MemoryPopulated => NativeCall::SetData(CF_HDROP),
        WriteStageModel::DataSet => NativeCall::CloseClipboard,
        WriteStageModel::Releasing(_) => NativeCall::Free,
        WriteStageModel::Abandoning(_) => NativeCall::CloseClipboard,
        WriteStageModel::Finished(_) => NativeCall::Finish,
    }
}

/// The stage that follows when the pending call is answered.
///
/// A call of the forward path that succeeds leads to the next stage. One
/// that fails leads to the release of what is held: memory first, where
/// the session owns it, then the clipboard. The answers to the calls that
/// release are not looked at, nor is that to the last close: the data is
/// set by then.
pub open spec fn next_stage(stage: WriteStageModel, reply: ReplyModel) -> WriteStageModel {
    match stage {
        WriteStageModel::Closed => match failure_code(reply) {
            None => WriteStageModel::Opened,
            Some(code) => WriteStageModel::Finished(
                Err(native_failure(ErrorKind::Resource, "Failed to open clipboard"@, code)),
            ),
        },
        WriteStageModel::Opened => match failure_code(reply) {
            None => WriteStageModel::Emptied,
            Some(code) => WriteStageModel::Abandoning(
                native_failure(ErrorKind::PlatformIo, "Failed to empty clipboard"@, code),
            ),
        },
        WriteStageModel::Emptied => match failure_code(reply) {
            None => WriteStageModel::MemoryAllocated,
            Some(code) => WriteStageModel::Abandoning(
                native_failure(ErrorKind::Resource, "Failed to allocate global memory"@, code),
            ),
        },
        WriteStageModel::MemoryAllocated => match failure_code(reply) {
            None => WriteStageModel::MemoryPopulated,
            Some(code) => WriteStageModel::Releasing(
                native_failure(ErrorKind::Resource, "Failed to lock global memory"@, code),
            ),
        },
        WriteStageModel::MemoryPopulated => match failure_code(reply) {
            None => WriteStageModel::DataSet,
            Some(code) => WriteStageModel::Releasing(
                native_failure(ErrorKind::PlatformIo, "Failed to set clipboard data"@, code),
            ),
        },
        WriteStageModel::DataSet => WriteStageModel::Finished(Ok(())),
        WriteStageModel::Releasing(e) => WriteStageModel::Abandoning(e),
        WriteStageModel::Abandoning(e) => WriteStageModel::Finished(Err(e)),
        WriteStageModel::Finished(r) => WriteStageModel::Finished(r),
    }
}

/// The session after the pending call is answered.
pub open spec fn advanced(session: WriteModel, reply: ReplyModel) -> WriteModel {
    WriteModel { stage: next_stage(session.stage, reply), payload: session.payload }
}

/// The number of calls that the session asks for at most from this stage on.
pub open spec fn calls_left(stage: WriteStageModel) -> nat {
    match stage {
        WriteStageModel::Closed => 7,
        WriteStageModel::Opened => 6,
        WriteStageModel::Emptied => 5,
        WriteStageModel::MemoryAllocated => 4,
        WriteStageModel::MemoryPopulated => 3,
        WriteStageModel::Releasing(_) => 2,
        WriteStageModel::DataSet => 1,
        WriteStageModel::Abandoning(_) => 1,
        WriteStageModel::Finished(_) => 0,
    }
}

fn reply_failure(reply: &NativeReply) -> (code: Option<u32>)
    ensures
        code == failure_code(reply@),
{
    match reply {
        NativeReply::Failed(code) => Some(*code),
        _ => None,
    }
}

impl WriteSession {
    /// The session that writes the given resolved paths.
    pub fn begin(paths: &Vec<String>) -> (session: WriteSession)
        ensures
            session@ == write_start(texts(paths@)),
    {
        if paths.len() == 0 {
            WriteSession { stage: WriteStage::Finished(Ok(())), payload: Vec::new() }
        } else {
            WriteSession { stage: WriteStage::Closed, payload: drop_files_block(paths) }
        }
    }

    /// The call to make next.
    pub fn call(&self) -> (call: NativeCall)
        ensures
            call == pending_call(self@),
    {
        match &self.stage {
            WriteStage::Closed => NativeCall::OpenClipboard,
            WriteStage::Opened => NativeCall::EmptyClipboard,
            WriteStage::Emptied => NativeCall::Allocate(self.payload.len()),
            WriteStage::MemoryAllocated => NativeCall::Fill,
            WriteStage::MemoryPopulated => NativeCall::SetData(CF_HDROP),
            WriteStage::DataSet => NativeCall::CloseClipboard,
            WriteStage::Releasing(_) => NativeCall::Free,
            WriteStage::Abandoning(_) => NativeCall::CloseClipboard,
            WriteStage::Finished(_) => NativeCall::Finish,
        }
    }

    /// Takes the answer to the call that was asked for, and moves on.
    pub fn advance(self, reply: &NativeReply) -> (next: WriteSession)
        ensures
            next@ == advanced(self@, reply@),
    {
        let WriteSession { stage, payload } = self;
        let failed = reply_failure(reply);
        let stage = match stage {
            WriteStage::Closed => match failed {
                None => WriteStage::Opened,
                Some(code) => WriteStage::Finished(
                    Err(native_error(ErrorKind::Resource, "Failed to open clipboard", code)),
                ),
            },
            WriteStage::Opened => match failed {
                None => WriteStage::Emptied,
                Some(code) => WriteStage::Abandoning(
                    native_error(ErrorKind::PlatformIo, "Failed to empty clipboard", code),
                ),
            },
            WriteStage::Emptied => match failed {
                None => WriteStage::MemoryAllocated,
                Some(code) => WriteStage::Abandoning(
                    native_error(ErrorKind::Resource, "Failed to allocate global memory", code),
                ),
            },
            WriteStage::MemoryAllocated => match failed {
                None => WriteStage::MemoryPopulated,
                Some(code) => WriteStage::Releasing(
                    native_error(ErrorKind::Resource, "Failed to lock global memory", code),
                ),
            },
            WriteStage::MemoryPopulated => match failed {
                None => WriteStage::DataSet,
                Some(code) => WriteStage::Releasing(
                    native_error(ErrorKind::PlatformIo, "Failed to set clipboard data", code),
                ),
            },
            WriteStage::DataSet => WriteStage::Finished(Ok(())),
            WriteStage::Releasing(e) => WriteStage::Abandoning(e),
            WriteStage::Abandoning(e) => WriteStage::Finished(Err(e)),
            WriteStage::Finished(r) => WriteStage::Finished(r),
        };
        WriteSession { stage, payload }
    }

    /// The result of the write, once it is over.
    pub fn outcome(self) -> (r: Option<Result<(), ClipboardError>>)
        ensures
            match r {
                Some(Ok(())) => self@.stage == WriteStageModel::Finished(Ok(())),
                Some(Err(e)) => self@.stage == WriteStageModel::Finished(Err(e@)),
                None => !(self@.stage is Finished),
            },
    {
        match self.stage {
            WriteStage::Finished(r) => Some(r),
            _ => None,
        }
    }
}

/// What a write of the given paths begins with: the resolver's error for
/// a rejected input, else the session that writes the resolved paths.
pub open spec fn write_session(attempts: Seq<AttemptModel>, policy: ResolvePolicy) -> Result<
    WriteModel,
    ErrorModel,
> {
    match resolution(attempts, policy) {
        Ok(paths) => Ok(write_start(paths)),
        Err(e) => Err(e),
    }
}

/// Begins the write of a list of paths, each given with the outcome of
/// resolving it.
pub fn write_clipboard_file_paths(attempts: &Vec<PathAttempt>, policy: ResolvePolicy) -> (r:
    Result<WriteSession, ClipboardError>)
    ensures
        result_model(r) == write_session(views(attempts@), policy),
        attempts@.len() == 0 ==> r is Ok && r->Ok_0@.stage == WriteStageModel::Finished(Ok(())),
{
    match resolve_paths(attempts, policy) {
        Ok(paths) => Ok(WriteSession::begin(&paths)),
        Err(e) => Err(e),
    }
}

/// The clipboard is taken only by opening it, and given up only by
/// closing it.
pub proof fn lemma_clipboard_is_opened_and_closed(session: WriteModel, reply: ReplyModel)
    ensures
        !clipboard_open(session.stage) && clipboard_open(advanced(session, reply).stage) ==> (
        pending_call(session) == NativeCall::OpenClipboard && failure_code(reply) is None),
        clipboard_open(session.stage) && !clipboard_open(advanced(session, reply).stage)
            ==> pending_call(session) == NativeCall::CloseClipboard,
{
}

/// Memory comes into the session's hands only by a successful allocation,
/// and leaves them only by being freed or by being taken over by the
/// clipboard in a successful hand-off. It is freed only while the session
/// owns it: never after the hand-off.
pub proof fn lemma_memory_is_freed_or_handed_over(session: WriteModel, reply: ReplyModel)
    ensures
        !memory_owned(session.stage) && memory_owned(advanced(session, reply).stage) ==> (
        pending_call(session) is Allocate && failure_code(reply) is None),
        memory_owned(session.stage) && !memory_owned(advanced(session, reply).stage) ==> (
        pending_call(session) == NativeCall::Free || (pending_call(session) == NativeCall::SetData(
            CF_HDROP,
        ) && failure_code(reply) is None)),
        pending_call(session) == NativeCall::Free ==> memory_owned(session.stage),
        memory_owned(session.stage) && failure_code(reply) is Some ==> advanced(
            session,
            reply,
        ).stage is Releasing || pending_call(session) == NativeCall::Free,
{
}

/// A session that is over holds nothing, and asks for nothing more.
pub proof fn lemma_finished_holds_nothing(session: WriteModel)
    ensures
        session.stage is Finished <==> pending_call(session) == NativeCall::Finish,
        session.stage is Finished ==> !clipboard_open(session.stage) && !memory_owned(
            session.stage,
        ),
{
}

/// Every answer brings the session nearer to its end: a write makes at
/// most seven calls.
pub proof fn lemma_write_terminates(session: WriteModel, reply: ReplyModel)
    requires
        !(session.stage is Finished),
    ensures
        calls_left(advanced(session, reply).stage) < calls_left(session.stage),
        calls_left(session.stage) <= 7,
{
}

/// A write succeeds only by way of `DataSet`: when the block was handed
/// to the clipboard. A failure that has been met is the one reported.
pub proof fn lemma_success_means_data_set(session: WriteModel, reply: ReplyModel)
    requires
        !(session.stage is Finished),
    ensures
        advanced(session, reply).stage == WriteStageModel::Finished(Ok(())) <==> session.stage
            is DataSet,
        session.stage matches WriteStageModel::Releasing(e) ==> advanced(session, reply).stage
            == WriteStageModel::Abandoning(e),
        session.stage matches WriteStageModel::Abandoning(e) ==> advanced(session, reply).stage
            == WriteStageModel::Finished(Err(e)),
{
}

/// The session after it has taken the given answers, one per call.
pub open spec fn after(session: WriteModel, replies: Seq<ReplyModel>) -> WriteModel
    decreases replies.len(),
{
    if replies.len() == 0 {
        session
    } else {
        after(advanced(session, replies[0]), replies.skip(1))
    }
}

/// The number of a session's calls, while it takes the given answers,
/// that `counted` holds of; a call is counted with its answer.
pub open spec fn count_calls(
    session: WriteModel,
    replies: Seq<ReplyModel>,
    counted: spec_fn(NativeCall, ReplyModel) -> bool,
) -> nat
    decreases replies.len(),
{
    if replies.len() == 0 || session.stage is Finished {
        0
    } else {
        let rest = count_calls(advanced(session, replies[0]), replies.skip(1), counted);
        if counted(pending_call(session), replies[0]) {
            rest + 1
        } else {
            rest
        }
    }
}

/// A call that opens the clipboard, and succeeds.
pub open spec fn opens(call: NativeCall, reply: ReplyModel) -> bool {
    call == NativeCall::OpenClipboard && failure_code(reply) is None
}

/// A call that closes the clipboard.
pub open spec fn closes(call: NativeCall, reply: ReplyModel) -> bool {
    call == NativeCall::CloseClipboard
}

/// A call that allocates memory, and succeeds.
pub open spec fn allocates(call: NativeCall, reply: ReplyModel) -> bool {
    call is Allocate && failure_code(reply) is None
}

/// A call that frees memory.
pub open spec fn frees(call: NativeCall, reply: ReplyModel) -> bool {
    call == NativeCall::Free
}

/// A call that hands memory to the clipboard, and succeeds.
pub open spec fn hands_over(call: NativeCall, reply: ReplyModel) -> bool {
    call is SetData && failure_code(reply) is None
}

/// Whatever the native layer answers, a write that has come to its end
/// has closed the clipboard as often as it opened it: once where the
/// opening succeeded, and never where it did not.
pub proof fn lemma_every_open_is_closed(session: WriteModel, replies: Seq<ReplyModel>)
    requires
        after(session, replies).stage is Finished,
    ensures
        count_calls(session, replies, |c, r| opens(c, r)) + (if clipboard_open(session.stage) {
            1nat
        } else {
            0nat
        }) == count_calls(session, replies, |c, r| closes(c, r)),
    decreases replies.len(),
{
    if replies.len() > 0 && !(session.stage is Finished) {
        lemma_every_open_is_closed(advanced(session, replies[0]), replies.skip(1));
    }
}

/// Whatever the native layer answers, a write that has come to its end
/// has disposed of each block of memory that it allocated in exactly one
/// way: it freed it, or the clipboard took it over.
pub proof fn lemma_memory_is_disposed_of_once(session: WriteModel, replies: Seq<ReplyModel>)
    requires
        after(session, replies).stage is Finished,
    ensures
        count_calls(session, replies, |c, r| allocates(c, r)) + (if memory_owned(session.stage) {
            1nat
        } else {
            0nat
        }) == count_calls(session, replies, |c, r| frees(c, r)) + count_calls(
            session,
            replies,
            |c, r| hands_over(c, r),
        ),
    decreases replies.len(),
{
    if replies.len() > 0 && !(session.stage is Finished) {
        lemma_memory_is_disposed_of_once(advanced(session, replies[0]), replies.skip(1));
    }
}

/// Seven answers bring any write to its end.
pub proof fn lemma_seven_answers_suffice(session: WriteModel, replies: Seq<ReplyModel>)
    requires
        replies.len() >= calls_left(session.stage),
    ensures
        after(session, replies).stage is Finished,
    decreases replies.len(),
{
    if replies.len() > 0 {
        lemma_seven_answers_suffice(advanced(session, replies[0]), replies.skip(1));
    }
}

/// A write of no paths is over before it makes a call, and succeeds.
pub proof fn lemma_empty_write_is_no_op(policy: ResolvePolicy)
    ensures
        write_session(Seq::<AttemptModel>::empty(), policy) == Ok::<WriteModel, ErrorModel>(
            WriteModel { stage: WriteStageModel::Finished(Ok(())), payload: Seq::empty() },
        ),
        pending_call(write_session(Seq::<AttemptModel>::empty(), policy)->Ok_0)
            == NativeCall::Finish,
{
}

} // verus!
