//! Writing file URLs to the pasteboard, as a session that says which
//! native step comes next.

use crate::error::{result_model, ClipboardError, ErrorKind, ErrorModel};
use crate::resolver::{resolution, resolve_paths, AttemptModel, PathAttempt, ResolvePolicy};
use crate::text::{texts, views};
use vstd::prelude::*;
use vstd::string::*;

verus! {

/// The type name under which file URLs are declared.
pub const FILE_URL_TYPE: &'static str = "public.file-url";

/// The legacy type name under which file names are declared.
pub const FILENAMES_TYPE: &'static str = "NSFilenamesPboardType";

/// One native step that a write asks to have made.
#[derive(Clone, Copy, Debug, PartialEq, Eq, Structural)]
pub enum NativeCall {
    /// Make an autorelease pool.
    AcquirePool,
    /// Get the general pasteboard.
    GeneralPasteboard,
    /// Clear the pasteboard's contents.
    ClearContents,
    /// Declare the types that `declared_types` lists.
    DeclareTypes,
    /// Write the session's paths as an array of file URLs.
    WriteUrls,
    /// Drain the autorelease pool.
    ReleasePool,
    /// Nothing more: the session is over.
    Finish,
}

/// What the native layer answers to a step.
#[derive(Clone, Copy, Debug, PartialEq, Eq, Structural)]
pub enum NativeReply {
    /// The step succeeded.
    Done,
    /// The native call reported failure.
    Failed,
    /// A native object that the step needs could not be made.
    NoObject,
}

/// How far a write has come.
///
/// A write goes from `Idle` through `PoolHeld`, `PasteboardHeld`,
/// `Cleared`, `Declared` and `Written` to `Finished`. The pool brackets
/// all the rest: once it is made, every way out leads through its
/// release.
#[derive(Debug, PartialEq, Eq)]
pub enum WriteStage {
    /// Nothing is held. Next: make the pool.
    Idle,
    /// The pool is made. Next: get the pasteboard.
    PoolHeld,
    /// The pasteboard is at hand. Next: clear it.
    PasteboardHeld,
    /// The pasteboard is cleared. Next: declare the types.
    Cleared,
    /// The types are declared. Next: write the URLs.
    Declared,
    /// The URLs are written. Next: drain the pool.
    Written,
    /// A step failed. Next: drain the pool.
    Draining(ClipboardError),
    /// The write is over, with this result.
    Finished(Result<(), ClipboardError>),
}

/// A write of file URLs to the pasteboard, step by step.
#[derive(Debug, PartialEq, Eq)]
pub struct WriteSession {
    /// How far the write has come.
    pub stage: WriteStage,
    /// The canonical paths to write as file URLs.
    pub paths: Vec<String>,
}

/// What a stage of a write says in contracts.
pub enum WriteStageModel {
    Idle,
    PoolHeld,
    PasteboardHeld,
    Cleared,
    Declared,
    Written,
    Draining(ErrorModel),
    Finished(Result<(), ErrorModel>),
}

/// What a write session says in contracts.
pub struct WriteModel {
    pub stage: WriteStageModel,
    pub paths: Seq<Seq<char>>,
}

impl View for WriteStage {
    type V = WriteStageModel;

    open spec fn view(&self) -> WriteStageModel {
        match self {
            WriteStage::Idle => WriteStageModel::Idle,
            WriteStage::PoolHeld => WriteStageModel::PoolHeld,
            WriteStage::PasteboardHeld => WriteStageModel::PasteboardHeld,
            WriteStage::Cleared => WriteStageModel::Cleared,
            WriteStage::Declared => WriteStageModel::Declared,
            WriteStage::Written => WriteStageModel::Written,
            WriteStage::Draining(e) => WriteStageModel::Draining(e@),
            WriteStage::Finished(Ok(())) => WriteStageModel::Finished(Ok(())),
            WriteStage::Finished(Err(e)) => WriteStageModel::Finished(Err(e@)),
        }
    }
}

impl View for WriteSession {
    type V = WriteModel;

    open spec fn view(&self) -> WriteModel {
        WriteModel { stage: self.stage@, paths: texts(self.paths@) }
    }
}

/// The types that a write declares: file URLs, and the legacy file names
/// beside them for readers that know no other.
pub open spec fn declared_type_list() -> Seq<Seq<char>> {
    seq![FILE_URL_TYPE@, FILENAMES_TYPE@]
}

/// Lists the types that a write declares.
pub fn declared_types() -> (types: Vec<String>)
    ensures
        texts(types@) == declared_type_list(),
{
    let mut types: Vec<String> = Vec::new();
    types.push(String::from_str(FILE_URL_TYPE));
    types.push(String::from_str(FILENAMES_TYPE));
    types
}

/// Whether the session holds an autorelease pool at this stage.
pub open spec fn pool_held(stage: WriteStageModel) -> bool {
    !(stage is Idle) && !(stage is Finished)
}

/// The session that writes the given resolved paths. With no path there
/// is nothing to do: the session is finished before any step is made,
/// and the pasteboard stays as it is.
pub open spec fn write_start(paths: Seq<Seq<char>>) -> WriteModel {
    if paths.len() == 0 {
        WriteModel { stage: WriteStageModel::Finished(Ok(())), paths }
    } else {
        WriteModel { stage: WriteStageModel::Idle, paths }
    }
}

/// The step that the session asks for at its stage.
pub open spec fn pending_call(stage: WriteStageModel) -> NativeCall {
    match stage {
        WriteStageModel::Idle => NativeCall::AcquirePool,
        WriteStageModel::PoolHeld => NativeCall::GeneralPasteboard,
        WriteStageModel::PasteboardHeld => NativeCall::ClearContents,
        WriteStageModel::Cleared => NativeCall::DeclareTypes,
        WriteStageModel::Declared => NativeCall::WriteUrls,
        WriteStageModel::Written => NativeCall::ReleasePool,
        WriteStageModel::Draining(_) => NativeCall::ReleasePool,
        WriteStageModel::Finished(_) => NativeCall::Finish,
    }
}

/// A failure of the given kind with the given reason.
pub open spec fn failure(kind: ErrorKind, message: Seq<char>) -> ErrorModel {
    ErrorModel { kind, message }
}

/// The failure of a step that could not make a native object it needs.
pub open spec fn no_object(stage: WriteStageModel) -> ErrorModel {
    failure(
        ErrorKind::Resource,
        if stage is Cleared {
            "Failed to create types array"@
        } else {
            "Failed to create URLs array"@
        },
    )
}

/// The stage that follows when the pending step is answered.
///
/// The contents are cleared first, the types are declared next, and the
/// URLs are written last; declaring and writing can each fail on its own.
/// What clearing answers is not looked at. A step that fails once the
/// pool is made leads to the pool's release before the failure is
/// reported.
pub open spec fn next_stage(stage: WriteStageModel, reply: NativeReply) -> WriteStageModel {
    match stage {
        WriteStageModel::Idle => if reply == NativeReply::Done {
            WriteStageModel::PoolHeld
        } else {
            WriteStageModel::Finished(
                Err(failure(ErrorKind::Resource, "Failed to create AutoreleasePool"@)),
            )
        },
        WriteStageModel::PoolHeld => if reply == NativeReply::Done {
            WriteStageModel::PasteboardHeld
        } else {
            WriteStageModel::Draining(
                failure(ErrorKind::Resource, "Failed to get general pasteboard"@),
            )
        },
        WriteStageModel::PasteboardHeld => WriteStageModel::Cleared,
        WriteStageModel::Cleared => match reply {
            NativeReply::Done => WriteStageModel::Declared,
            NativeReply::Failed => WriteStageModel::Draining(
                failure(ErrorKind::PlatformIo, "Failed to declare pasteboard types"@),
            ),
            NativeReply::NoObject => WriteStageModel::Draining(no_object(stage)),
        },
        WriteStageModel::Declared => match reply {
            NativeReply::Done => WriteStageModel::Written,
            NativeReply::Failed => WriteStageModel::Draining(
                failure(
                    ErrorKind::PlatformIo,
                    "Failed to write file URLs to pasteboard (writeObjects failed)"@,
                ),
            ),
            NativeReply::NoObject => WriteStageModel::Draining(no_object(stage)),
        },
        WriteStageModel::Written => WriteStageModel::Finished(Ok(())),
        WriteStageModel::Draining(e) => WriteStageModel::Finished(Err(e)),
        WriteStageModel::Finished(r) => WriteStageModel::Finished(r),
    }
}

/// The session after the pending step is answered.
pub open spec fn advanced(session: WriteModel, reply: NativeReply) -> WriteModel {
    WriteModel { stage: next_stage(session.stage, reply), paths: session.paths }
}

/// The number of steps that the session asks for at most from this stage on.
pub open spec fn calls_left(stage: WriteStageModel) -> nat {
    match stage {
        WriteStageModel::Idle => 6,
        WriteStageModel::PoolHeld => 5,
        WriteStageModel::PasteboardHeld => 4,
        WriteStageModel::Cleared => 3,
        WriteStageModel::Declared => 2,
        WriteStageModel::Written => 1,
        WriteStageModel::Draining(_) => 1,
        WriteStageModel::Finished(_) => 0,
    }
}

fn fail(kind: ErrorKind, message: &str) -> (e: ClipboardError)
    ensures
        e@ == failure(kind, message@),
{
    ClipboardError::with_text(kind, message)
}

impl WriteSession {
    /// The session that writes the given resolved paths.
    pub fn begin(paths: Vec<String>) -> (session: WriteSession)
        ensures
            session@ == write_start(texts(paths@)),
    {
        if paths.len() == 0 {
            WriteSession { stage: WriteStage::Finished(Ok(())), paths }
        } else {
            WriteSession { stage: WriteStage::Idle, paths }
        }
    }

    /// The step to make next.
    pub fn call(&self) -> (call: NativeCall)
        ensures
            call == pending_call(self@.stage),
    {
        match &self.stage {
            WriteStage::Idle => NativeCall::AcquirePool,
            WriteStage::PoolHeld => NativeCall::GeneralPasteboard,
            WriteStage::PasteboardHeld => NativeCall::ClearContents,
            WriteStage::Cleared => NativeCall::DeclareTypes,
            WriteStage::Declared => NativeCall::WriteUrls,
            WriteStage::Written => NativeCall::ReleasePool,
            WriteStage::Draining(_) => NativeCall::ReleasePool,
            WriteStage::Finished(_) => NativeCall::Finish,
        }
    }

    /// Takes the answer to the step that was asked for, and moves on.
    pub fn advance(self, reply: NativeReply) -> (next: WriteSession)
        ensures
            next@ == advanced(self@, reply),
    {
        let WriteSession { stage, paths } = self;
        let stage = match stage {
            WriteStage::Idle => match reply {
                NativeReply::Done => WriteStage::PoolHeld,
                _ => WriteStage::Finished(
                    Err(fail(ErrorKind::Resource, "Failed to create AutoreleasePool")),
                ),
            },
            WriteStage::PoolHeld => match reply {
                NativeReply::Done => WriteStage::PasteboardHeld,
                _ => WriteStage::Draining(
                    fail(ErrorKind::Resource, "Failed to get general pasteboard"),
                ),
            },
            WriteStage::PasteboardHeld => WriteStage::Cleared,
            WriteStage::Cleared => match reply {
                NativeReply::Done => WriteStage::Declared,
                NativeReply::Failed => WriteStage::Draining(
                    fail(ErrorKind::PlatformIo, "Failed to declare pasteboard types"),
                ),
                NativeReply::NoObject => WriteStage::Draining(
                    fail(ErrorKind::Resource, "Failed to create types array"),
                ),
            },
            WriteStage::Declared => match reply {
                NativeReply::Done => WriteStage::Written,
                NativeReply::Failed => WriteStage::Draining(
                    fail(
                        ErrorKind::PlatformIo,
                        "Failed to write file URLs to pasteboard (writeObjects failed)",
                    ),
                ),
                NativeReply::NoObject => WriteStage::Draining(
                    fail(ErrorKind::Resource, "Failed to create URLs array"),
                ),
            },
            WriteStage::Written => WriteStage::Finished(Ok(())),
            WriteStage::Draining(e) => WriteStage::Finished(Err(e)),
            WriteStage::Finished(r) => WriteStage::Finished(r),
        };
        WriteSession { stage, paths }
    }

    /// The result of the write, once it is over.
    pub fn outcome(self) -> (r: Option<Result<(), ClipboardError>>)
        ensures
            match r {
                Some(Ok(())) => self@.stage == WriteStageModel::Finished(Ok(())),
                Some(Err(e)) => self@.stage == WriteStageModel::Finished(Err(e@)),
                None => !(self@.stage is Finished),
            },
    {
        match self.stage {
            WriteStage::Finished(r) => Some(r),
            _ => None,
        }
    }
}

/// What a write of the given paths begins with: the resolver's error for
/// a rejected input, else the session that writes the resolved paths.
pub open spec fn write_session(attempts: Seq<AttemptModel>, policy: ResolvePolicy) -> Result<
    WriteModel,
    ErrorModel,
> {
    match resolution(attempts, policy) {
        Ok(paths) => Ok(write_start(paths)),
        Err(e) => Err(e),
    }
}

/// Begins the write of a list of paths, each given with the outcome of
/// resolving it.
pub fn write_clipboard_file_paths(attempts: &Vec<PathAttempt>, policy: ResolvePolicy) -> (r:
    Result<WriteSession, ClipboardError>)
    ensures
        result_model(r) == write_session(views(attempts@), policy),
        attempts@.len() == 0 ==> r is Ok && r->Ok_0@.stage == WriteStageModel::Finished(Ok(())),
{
    match resolve_paths(attempts, policy) {
        Ok(paths) => Ok(WriteSession::begin(paths)),
        Err(e) => Err(e),
    }
}

/// Begins the write of a list of paths and leaves out those that could
/// not be resolved.
pub fn copy_files_to_clipboard(attempts: &Vec<PathAttempt>) -> (r: Result<
    WriteSession,
    ClipboardError,
>)
    ensures
        result_model(r) == write_session(views(attempts@), ResolvePolicy::BestEffort),
{
    write_clipboard_file_paths(attempts, ResolvePolicy::BestEffort)
}

/// The pool is taken only by making it, and given up only by draining it;
/// a write that is over holds none.
pub proof fn lemma_pool_brackets_the_write(session: WriteModel, reply: NativeReply)
    ensures
        !pool_held(session.stage) && pool_held(advanced(session, reply).stage) ==> (pending_call(
            session.stage,
        ) == NativeCall::AcquirePool && reply == NativeReply::Done),
        pool_held(session.stage) && !pool_held(advanced(session, reply).stage) ==> pending_call(
            session.stage,
        ) == NativeCall::ReleasePool,
        session.stage is Finished <==> pending_call(session.stage) == NativeCall::Finish,
        session.stage is Finished ==> !pool_held(session.stage),
{
}

/// The contents are cleared before the types are declared, and the types
/// are declared before the URLs are written: each of these steps comes
/// up only as the answer to the one before it.
pub proof fn lemma_clear_declare_write_in_order(session: WriteModel, reply: NativeReply)
    ensures
        pending_call(advanced(session, reply).stage) == NativeCall::DeclareTypes ==> pending_call(
            session.stage,
        ) == NativeCall::ClearContents,
        pending_call(advanced(session, reply).stage) == NativeCall::WriteUrls ==> (pending_call(
            session.stage,
        ) == NativeCall::DeclareTypes && reply == NativeReply::Done),
        pending_call(advanced(session, reply).stage) == NativeCall::ClearContents ==> (
        pending_call(session.stage) == NativeCall::GeneralPasteboard && reply
            == NativeReply::Done),
{
}

/// Every answer brings the session nearer to its end: a write makes at
/// most six steps. It succeeds only by way of `Written`.
pub proof fn lemma_write_terminates(session: WriteModel, reply: NativeReply)
    requires
        !(session.stage is Finished),
    ensures
        calls_left(advanced(session, reply).stage) < calls_left(session.stage),
        calls_left(session.stage) <= 6,
        advanced(session, reply).stage == WriteStageModel::Finished(Ok(())) <==> session.stage
            is Written,
        session.stage matches WriteStageModel::Draining(e) ==> advanced(session, reply).stage
            == WriteStageModel::Finished(Err(e)),
{
}

/// The session after it has taken the given answers, one per step.
pub open spec fn after(session: WriteModel, replies: Seq<NativeReply>) -> WriteModel
    decreases replies.len(),
{
    if replies.len() == 0 {
        session
    } else {
        after(advanced(session, replies[0]), replies.skip(1))
    }
}

/// The number of a session's steps, while it takes the given answers,
/// that `counted` holds of; a step is counted with its answer.
pub open spec fn count_calls(
    session: WriteModel,
    replies: Seq<NativeReply>,
    counted: spec_fn(NativeCall, NativeReply) -> bool,
) -> nat
    decreases replies.len(),
{
    if replies.len() == 0 || session.stage is Finished {
        0
    } else {
        let rest = count_calls(advanced(session, replies[0]), replies.skip(1), counted);
        if counted(pending_call(session.stage), replies[0]) {
            rest + 1
        } else {
            rest
        }
    }
}

/// Whatever the native layer answers, a write that has come to its end
/// has drained the pool as often as it made one: once where the making
/// succeeded, and never where it did not.
pub proof fn lemma_every_pool_is_drained(session: WriteModel, replies: Seq<NativeReply>)
    requires
        after(session, replies).stage is Finished,
    ensures
        count_calls(
            session,
            replies,
            |c: NativeCall, r: NativeReply| c == NativeCall::AcquirePool && r == NativeReply::Done,
        ) + (if pool_held(session.stage) {
            1nat
        } else {
            0nat
        }) == count_calls(
            session,
            replies,
            |c: NativeCall, r: NativeReply| c == NativeCall::ReleasePool,
        ),
    decreases replies.len(),
{
    if replies.len() > 0 && !(session.stage is Finished) {
        lemma_every_pool_is_drained(advanced(session, replies[0]), replies.skip(1));
    }
}

/// Whatever the native layer answers, a write writes the URLs at most
/// once, and not at all from a stage behind that of writing them.
pub proof fn lemma_urls_are_written_at_most_once(session: WriteModel, replies: Seq<NativeReply>)
    ensures
        count_calls(session, replies, |c: NativeCall, r: NativeReply| c == NativeCall::WriteUrls)
            <= 1,
        !(session.stage is Idle || session.stage is PoolHeld || session.stage is PasteboardHeld
            || session.stage is Cleared || session.stage is Declared) ==> count_calls(
            session,
            replies,
            |c: NativeCall, r: NativeReply| c == NativeCall::WriteUrls,
        ) == 0,
    decreases replies.len(),
{
    if replies.len() > 0 && !(session.stage is Finished) {
        lemma_urls_are_written_at_most_once(advanced(session, replies[0]), replies.skip(1));
    }
}

/// Six answers bring any write to its end.
pub proof fn lemma_six_answers_suffice(session: WriteModel, replies: Seq<NativeReply>)
    requires
        replies.len() >= calls_left(session.stage),
    ensures
        after(session, replies).stage is Finished,
    decreases replies.len(),
{
    if replies.len() > 0 {
        lemma_six_answers_suffice(advanced(session, replies[0]), replies.skip(1));
    }
}

/// A write of no paths is over before it makes a step, and succeeds.
pub proof fn lemma_empty_write_is_no_op(policy: ResolvePolicy)
    ensures
        write_session(Seq::<AttemptModel>::empty(), policy) == Ok::<WriteModel, ErrorModel>(
            WriteModel { stage: WriteStageModel::Finished(Ok(())), paths: Seq::empty() },
        ),
{
}

} // verus!
