//! Copying files through a clipboard that can be exchanged, and a mock
//! of one.

use crate::error::{ClipboardError, ErrorKind, ErrorModel};
use crate::resolver::{resolution, resolve_paths, AttemptModel, PathAttempt, ResolvePolicy};
use crate::text::{texts, views};
use vstd::prelude::*;

verus! {

/// Something that can put a list of files on a clipboard.
pub trait ClipboardOperations {
    /// Puts the files with the given canonical paths on the clipboard.
    fn copy_files(&self, urls: Vec<String>) -> Result<(), ClipboardError>;
}

/// A clipboard that touches nothing and answers as it is told to.
#[derive(Clone, Copy, Debug, PartialEq, Eq, Structural)]
pub struct MockClipboard {
    /// Whether a copy is to succeed.
    pub should_succeed: bool,
}

/// The failure that a mock clipboard answers with.
pub open spec fn mock_failure() -> ErrorModel {
    ErrorModel { kind: ErrorKind::PlatformIo, message: "Mock clipboard failure"@ }
}

impl ClipboardOperations for MockClipboard {
    /// Answers with success where the mock is told to succeed, else with
    /// its failure; the files are not looked at.
    fn copy_files(&self, urls: Vec<String>) -> (r: Result<(), ClipboardError>)
        ensures
            self.should_succeed ==> r is Ok,
            !self.should_succeed ==> r is Err && r->Err_0@ == mock_failure(),
    {
        if self.should_succeed {
            Ok(())
        } else {
            Err(ClipboardError::with_text(ErrorKind::PlatformIo, "Mock clipboard failure"))
        }
    }
}

/// What is decided about a copy before the clipboard is asked: the
/// rejection of the input, success where there is nothing to copy, or the
/// canonical paths to hand to the clipboard.
#[derive(Debug, PartialEq, Eq)]
pub enum CopyPlan {
    /// The input is rejected with this error.
    Rejected(ClipboardError),
    /// There is nothing to copy; the clipboard is left alone.
    Nothing,
    /// These paths are to be handed to the clipboard.
    Copy(Vec<String>),
}

/// What a plan says in contracts.
pub enum CopyPlanModel {
    Rejected(ErrorModel),
    Nothing,
    Copy(Seq<Seq<char>>),
}

impl View for CopyPlan {
    type V = CopyPlanModel;

    open spec fn view(&self) -> CopyPlanModel {
        match self {
            CopyPlan::Rejected(e) => CopyPlanModel::Rejected(e@),
            CopyPlan::Nothing => CopyPlanModel::Nothing,
            CopyPlan::Copy(paths) => CopyPlanModel::Copy(texts(paths@)),
        }
    }
}

/// The plan for a copy under the best-effort policy.
pub open spec fn copy_plan(attempts: Seq<AttemptModel>) -> CopyPlanModel {
    match resolution(attempts, ResolvePolicy::BestEffort) {
        Err(e) => CopyPlanModel::Rejected(e),
        Ok(paths) => if paths.len() == 0 {
            CopyPlanModel::Nothing
        } else {
            CopyPlanModel::Copy(paths)
        },
    }
}

/// Plans a copy of the given paths, leaving out those that could not be
/// resolved.
pub fn plan_copy(attempts: &Vec<PathAttempt>) -> (plan: CopyPlan)
    ensures
        plan@ == copy_plan(views(attempts@)),
{
    match resolve_paths(attempts, ResolvePolicy::BestEffort) {
        Err(e) => CopyPlan::Rejected(e),
        Ok(paths) => {
            if paths.len() == 0 {
                CopyPlan::Nothing
            } else {
                CopyPlan::Copy(paths)
            }
        },
    }
}

/// Copies the given paths through the given clipboard, leaving out those
/// that could not be resolved. A rejected input fails with the resolver's
/// error and an empty input succeeds, both without the clipboard being
/// asked; for any other input the clipboard is handed the resolved paths
/// and the result is what it answers for them.
pub fn copy_files_to_clipboard_with_impl<C: ClipboardOperations>(
    attempts: &Vec<PathAttempt>,
    clipboard: &C,
) -> (r: Result<(), ClipboardError>)
    ensures
        copy_plan(views(attempts@)) matches CopyPlanModel::Rejected(e) ==> r is Err && r->Err_0@
            == e,
        copy_plan(views(attempts@)) is Nothing ==> r is Ok,
        copy_plan(views(attempts@)) matches CopyPlanModel::Copy(paths) ==> exists|
            urls: Vec<String>,
        |
            texts(urls@) == paths && #[trigger] call_ensures(C::copy_files, (clipboard, urls), r),
{
    match plan_copy(attempts) {
        CopyPlan::Rejected(e) => Err(e),
        CopyPlan::Nothing => Ok(()),
        CopyPlan::Copy(paths) => clipboard.copy_files(paths),
    }
}

} // verus!
