//! The path resolver: what a write makes of its paths once each of them
//! has been canonicalized or has failed to be.

use crate::error::{list_result, ClipboardError, ErrorKind, ErrorModel};
use crate::text::{contains, join, join_strings, lemma_contains_after_prefix, lemma_contains_self,
    lemma_contains_transitive, lemma_contains_within, lemma_join_contains_part, texts, views};
use vstd::prelude::*;
use vstd::string::*;

verus! {

/// What to do with a write when some of its paths cannot be resolved.
#[derive(Clone, Copy, Debug, PartialEq, Eq, Structural)]
pub enum ResolvePolicy {
    /// One path that fails rejects the whole write.
    Strict,
    /// Paths that fail are left out; the write goes on with the others.
    BestEffort,
}

/// Why one path could not be prepared for the clipboard.
#[derive(Debug, PartialEq, Eq)]
pub enum PathFailure {
    /// The path could not be canonicalized; holds the system's error text.
    Canonicalize(String),
    /// The canonical path is not valid Unicode; holds a printable rendering of it.
    InvalidUnicode(String),
}

/// One caller-supplied path with the outcome of resolving it: the canonical
/// (absolute, symlink-free, existing) path, or the reason for the failure.
#[derive(Debug, PartialEq, Eq)]
pub struct PathAttempt {
    pub input: String,
    pub outcome: Result<String, PathFailure>,
}

/// What a failure says in contracts.
pub enum FailureModel {
    Canonicalize(Seq<char>),
    InvalidUnicode(Seq<char>),
}

/// What an attempt says in contracts.
pub struct AttemptModel {
    pub input: Seq<char>,
    pub outcome: Result<Seq<char>, FailureModel>,
}

impl View for PathFailure {
    type V = FailureModel;

    open spec fn view(&self) -> FailureModel {
        match self {
            PathFailure::Canonicalize(reason) => FailureModel::Canonicalize(reason@),
            PathFailure::InvalidUnicode(rendering) => FailureModel::InvalidUnicode(rendering@),
        }
    }
}

impl View for PathAttempt {
    type V = AttemptModel;

    open spec fn view(&self) -> AttemptModel {
        AttemptModel {
            input: self.input@,
            outcome: match self.outcome {
                Ok(path) => Ok(path@),
                Err(failure) => Err(failure@),
            },
        }
    }
}

/// The path that a failed attempt is reported under.
pub open spec fn failing_path(input: Seq<char>, failure: FailureModel) -> Seq<char> {
    match failure {
        FailureModel::Canonicalize(_) => input,
        FailureModel::InvalidUnicode(rendering) => rendering,
    }
}

/// The message that reports one failed attempt.
pub open spec fn failure_message(input: Seq<char>, failure: FailureModel) -> Seq<char> {
    match failure {
        FailureModel::Canonicalize(reason) => "Failed to canonicalize path '"@ + input + "': "@
            + reason,
        FailureModel::InvalidUnicode(rendering) => "Path contains invalid UTF-8: "@ + rendering,
    }
}

/// The canonical paths of the attempts that succeeded, in the order given.
pub open spec fn resolved_paths(attempts: Seq<AttemptModel>) -> Seq<Seq<char>>
    decreases attempts.len(),
{
    if attempts.len() == 0 {
        Seq::empty()
    } else {
        let rest = resolved_paths(attempts.drop_last());
        match attempts.last().outcome {
            Ok(path) => rest.push(path),
            Err(_) => rest,
        }
    }
}

/// The messages of the attempts that failed, in the order given.
pub open spec fn failure_messages(attempts: Seq<AttemptModel>) -> Seq<Seq<char>>
    decreases attempts.len(),
{
    if attempts.len() == 0 {
        Seq::empty()
    } else {
        let rest = failure_messages(attempts.drop_last());
        match attempts.last().outcome {
            Ok(_) => rest,
            Err(failure) => rest.push(failure_message(attempts.last().input, failure)),
        }
    }
}

/// The reason given when a strict write is rejected.
pub open spec fn strict_rejection(attempts: Seq<AttemptModel>) -> Seq<char> {
    "Some paths could not be processed: "@ + join(failure_messages(attempts), "; "@)
}

/// The reason given when no path at all could be resolved.
pub open spec fn nothing_resolved(attempts: Seq<AttemptModel>) -> Seq<char> {
    "No valid file URIs could be created from the provided paths. Errors: "@ + join(
        failure_messages(attempts),
        "; "@,
    )
}

/// What resolving a write's paths yields.
///
/// An empty input resolves to the empty list. Under the strict policy one
/// failure rejects the input; under the best-effort policy the input is
/// rejected only when nothing resolved. A rejection is `InvalidInput` and
/// its reason lists the message of every failed attempt.
pub open spec fn resolution(attempts: Seq<AttemptModel>, policy: ResolvePolicy) -> Result<
    Seq<Seq<char>>,
    ErrorModel,
> {
    if policy == ResolvePolicy::Strict && failure_messages(attempts).len() > 0 {
        Err(ErrorModel { kind: ErrorKind::InvalidInput, message: strict_rejection(attempts) })
    } else if attempts.len() > 0 && resolved_paths(attempts).len() == 0 {
        Err(ErrorModel { kind: ErrorKind::InvalidInput, message: nothing_resolved(attempts) })
    } else {
        Ok(resolved_paths(attempts))
    }
}

/// Builds the message that reports one failed attempt.
pub fn describe_failure(input: &str, failure: &PathFailure) -> (message: String)
    ensures
        message@ == failure_message(input@, failure@),
{
    match failure {
        PathFailure::Canonicalize(reason) => {
            let mut message = String::from_str("Failed to canonicalize path '");
            message.append(input);
            message.append("': ");
            message.append(reason.as_str());
            message
        },
        PathFailure::InvalidUnicode(rendering) => {
            let mut message = String::from_str("Path contains invalid UTF-8: ");
            message.append(rendering.as_str());
            message
        },
    }
}

/// Resolves the paths of a write under the given policy.
pub fn resolve_paths(attempts: &Vec<PathAttempt>, policy: ResolvePolicy) -> (r: Result<
    Vec<String>,
    ClipboardError,
>)
    ensures
        list_result(r) == resolution(views(attempts@), policy),
{
    let mut paths: Vec<String> = Vec::new();
    let mut errors: Vec<String> = Vec::new();
    let mut i: usize = 0;
    while i < attempts.len()
        invariant
            0 <= i <= attempts.len(),
            texts(paths@) == resolved_paths(views(attempts@).take(i as int)),
            texts(errors@) == failure_messages(views(attempts@).take(i as int)),
        decreases attempts.len() - i,
    {
        let ghost before = views(attempts@).take(i as int);
        let ghost after = views(attempts@).take(i + 1);
        assert(after.drop_last() =~= before);
        let attempt = &attempts[i];
        match &attempt.outcome {
            Ok(path) => {
                paths.push(path.clone());
            },
            Err(failure) => {
                errors.push(describe_failure(attempt.input.as_str(), failure));
            },
        }
        i += 1;
    }
    assert(views(attempts@).take(attempts.len() as int) =~= views(attempts@));
    if matches!(policy, ResolvePolicy::Strict) && errors.len() > 0 {
        let mut message = String::from_str("Some paths could not be processed: ");
        message.append(join_strings(&errors, "; ").as_str());
        Err(ClipboardError::new(ErrorKind::InvalidInput, message))
    } else if attempts.len() > 0 && paths.len() == 0 {
        let mut message = String::from_str(
            "No valid file URIs could be created from the provided paths. Errors: ",
        );
        message.append(join_strings(&errors, "; ").as_str());
        Err(ClipboardError::new(ErrorKind::InvalidInput, message))
    } else {
        Ok(paths)
    }
}

/// The characters `file://`, which begin the URI of a local file.
pub open spec fn file_scheme() -> Seq<char> {
    seq!['f', 'i', 'l', 'e', ':', '/', '/']
}

/// The `file://` URI of a canonical path: the scheme and the path as it
/// stands.
pub open spec fn file_uri_of(path: Seq<char>) -> Seq<char> {
    file_scheme() + path
}

/// Builds the `file://` URI of a canonical path.
pub fn file_uri(path: &str) -> (uri: String)
    ensures
        uri@ == file_uri_of(path@),
{
    let mut uri = String::from_str("file://");
    proof {
        reveal_strlit("file://");
    }
    uri.append(path);
    uri
}

/// Builds the `file://` URI of each canonical path.
pub fn file_uris(paths: &Vec<String>) -> (uris: Vec<String>)
    ensures
        texts(uris@) == texts(paths@).map_values(|path: Seq<char>| file_uri_of(path)),
{
    let mut uris: Vec<String> = Vec::new();
    let mut i: usize = 0;
    while i < paths.len()
        invariant
            0 <= i <= paths.len(),
            uris.len() == i,
            forall|j: int| 0 <= j < i ==> uris@[j]@ == file_uri_of(paths@[j]@),
        decreases paths.len() - i,
    {
        uris.push(file_uri(paths[i].as_str()));
        i += 1;
    }
    uris
}

/// Each failed attempt has its message among the failure messages.
proof fn lemma_failure_is_listed(attempts: Seq<AttemptModel>, i: int) -> (k: int)
    requires
        0 <= i < attempts.len(),
        attempts[i].outcome is Err,
    ensures
        0 <= k < failure_messages(attempts).len(),
        failure_messages(attempts)[k] == failure_message(
            attempts[i].input,
            attempts[i].outcome->Err_0,
        ),
    decreases attempts.len(),
{
    if i == attempts.len() - 1 {
        failure_messages(attempts).len() - 1
    } else {
        let k = lemma_failure_is_listed(attempts.drop_last(), i);
        k
    }
}

/// The message of a failed attempt names the path that failed.
proof fn lemma_message_names_path(input: Seq<char>, failure: FailureModel)
    ensures
        contains(failure_message(input, failure), failing_path(input, failure)),
{
    let path = failing_path(input, failure);
    match failure {
        FailureModel::Canonicalize(reason) => {
            lemma_contains_self(path);
            lemma_contains_within("Failed to canonicalize path '"@, path, "': "@ + reason, path);
            assert("Failed to canonicalize path '"@ + path + ("': "@ + reason)
                =~= failure_message(input, failure));
        },
        FailureModel::InvalidUnicode(_) => {
            lemma_contains_after_prefix("Path contains invalid UTF-8: "@, path);
        },
    }
}

/// Under the strict policy, an input with a path that fails is rejected as
/// `InvalidInput`, and the reason names that path.
pub proof fn lemma_strict_rejection_names_failing_path(attempts: Seq<AttemptModel>, i: int)
    requires
        0 <= i < attempts.len(),
        attempts[i].outcome is Err,
    ensures
        resolution(attempts, ResolvePolicy::Strict) is Err,
        resolution(attempts, ResolvePolicy::Strict)->Err_0.kind == ErrorKind::InvalidInput,
        contains(
            resolution(attempts, ResolvePolicy::Strict)->Err_0.message,
            failing_path(attempts[i].input, attempts[i].outcome->Err_0),
        ),
{
    let k = lemma_failure_is_listed(attempts, i);
    let messages = failure_messages(attempts);
    let joined = join(messages, "; "@);
    let path = failing_path(attempts[i].input, attempts[i].outcome->Err_0);
    lemma_message_names_path(attempts[i].input, attempts[i].outcome->Err_0);
    lemma_join_contains_part(messages, "; "@, k);
    lemma_contains_transitive(joined, messages[k], path);
    lemma_contains_after_prefix("Some paths could not be processed: "@, joined);
    lemma_contains_transitive(strict_rejection(attempts), joined, path);
}

/// Each attempt that succeeded has its path among the resolved paths.
proof fn lemma_success_is_listed(attempts: Seq<AttemptModel>, i: int)
    requires
        0 <= i < attempts.len(),
        attempts[i].outcome is Ok,
    ensures
        resolved_paths(attempts).contains(attempts[i].outcome->Ok_0),
    decreases attempts.len(),
{
    if i == attempts.len() - 1 {
        let n = resolved_paths(attempts).len() - 1;
        assert(resolved_paths(attempts)[n] == attempts[i].outcome->Ok_0);
    } else {
        lemma_success_is_listed(attempts.drop_last(), i);
        let path = attempts[i].outcome->Ok_0;
        let rest = resolved_paths(attempts.drop_last());
        let k = choose|k: int| 0 <= k < rest.len() && rest[k] == path;
        assert(resolved_paths(attempts)[k] == path);
    }
}

/// Under the best-effort policy, an input with one path that resolves is
/// accepted, and that path is among those written.
pub proof fn lemma_best_effort_accepts(attempts: Seq<AttemptModel>, i: int)
    requires
        0 <= i < attempts.len(),
        attempts[i].outcome is Ok,
    ensures
        resolution(attempts, ResolvePolicy::BestEffort) == Ok::<Seq<Seq<char>>, ErrorModel>(
            resolved_paths(attempts),
        ),
        resolved_paths(attempts).contains(attempts[i].outcome->Ok_0),
{
    lemma_success_is_listed(attempts, i);
}

/// An empty input is accepted under either policy and resolves to nothing.
pub proof fn lemma_empty_input_resolves(policy: ResolvePolicy)
    ensures
        resolution(Seq::<AttemptModel>::empty(), policy) == Ok::<Seq<Seq<char>>, ErrorModel>(
            Seq::empty(),
        ),
{
}

} // verus!
