//! The unified read: what the clipboard held, made of a path read and a
//! text read that each may fail on its own.

use crate::encoding::str_from_utf8;
use crate::error::{list_result, result_model, ClipboardError, ErrorKind, ErrorModel};
use crate::text::{blank, is_blank, texts};
use vstd::prelude::*;
use vstd::string::*;
use vstd::utf8::{decode_utf8, valid_utf8};

verus! {

/// What the clipboard held at one moment: the file paths on it, possibly
/// none, and its plain text, possibly absent.
#[derive(Debug, PartialEq, Eq)]
pub struct ClipboardContent {
    /// The file paths; empty when none could be read.
    pub file_paths: Vec<String>,
    /// The text; `None` when none could be read.
    pub text: Option<String>,
}

/// The outcomes of reading the file paths and the text, each on its own.
#[derive(Debug, PartialEq, Eq)]
pub struct ClipboardReadResult {
    /// The file paths, or why they could not be read.
    pub file_paths: Result<Vec<String>, ClipboardError>,
    /// The text, `None` where the clipboard holds none, or why reading failed.
    pub text: Result<Option<String>, ClipboardError>,
}

/// What a clipboard content says in contracts.
pub struct ContentModel {
    pub file_paths: Seq<Seq<char>>,
    pub text: Option<Seq<char>>,
}

/// What the outcomes of the two reads say in contracts.
pub struct ReadsModel {
    pub file_paths: Result<Seq<Seq<char>>, ErrorModel>,
    pub text: Result<Option<Seq<char>>, ErrorModel>,
}

/// The characters of an optional string.
pub open spec fn optional_text(text: Option<String>) -> Option<Seq<char>> {
    match text {
        Some(t) => Some(t@),
        None => None,
    }
}

impl View for ClipboardContent {
    type V = ContentModel;

    open spec fn view(&self) -> ContentModel {
        ContentModel { file_paths: texts(self.file_paths@), text: optional_text(self.text) }
    }
}

impl View for ClipboardReadResult {
    type V = ReadsModel;

    open spec fn view(&self) -> ReadsModel {
        ReadsModel {
            file_paths: list_result(self.file_paths),
            text: match self.text {
                Ok(text) => Ok(optional_text(text)),
                Err(e) => Err(e@),
            },
        }
    }
}

impl Default for ClipboardContent {
    fn default() -> (content: ClipboardContent)
        ensures
            content@ == (ContentModel { file_paths: Seq::empty(), text: None }),
    {
        let content = ClipboardContent { file_paths: Vec::new(), text: None };
        assert(texts(content.file_paths@) =~= Seq::empty());
        content
    }
}

/// Whether a failed text read only says that the clipboard holds no text:
/// its kind is `NotFound`. The reason plays no part, so that a failure of
/// the platform is never taken for an absence.
pub open spec fn says_no_text(error: ErrorModel) -> bool {
    error.kind == ErrorKind::NotFound
}

/// A text read as the reconciler sees it: text that is present, a
/// successful absence (no text format, an empty text), or a real failure.
pub open spec fn classified_text(text: Result<Seq<char>, ErrorModel>) -> Result<
    Option<Seq<char>>,
    ErrorModel,
> {
    match text {
        Ok(t) => if t.len() == 0 {
            Ok(None)
        } else {
            Ok(Some(t))
        },
        Err(e) => if says_no_text(e) {
            Ok(None)
        } else {
            Err(e)
        },
    }
}

/// Classifies the outcome of a text read: an empty text and an error of
/// kind `NotFound` are a successful absence, any other error stays a
/// failure.
pub fn classify_text(text: Result<String, ClipboardError>) -> (r: Result<
    Option<String>,
    ClipboardError,
>)
    ensures
        match r {
            Ok(t) => classified_text(result_model(text)) == Ok::<Option<Seq<char>>, ErrorModel>(
                optional_text(t),
            ),
            Err(e) => classified_text(result_model(text)) == Err::<Option<Seq<char>>, ErrorModel>(
                e@,
            ),
        },
{
    match text {
        Ok(t) => {
            if t.as_str().unicode_len() == 0 {
                Ok(None)
            } else {
                Ok(Some(t))
            }
        },
        Err(e) => {
            if e.is_absence() {
                Ok(None)
            } else {
                Err(e)
            }
        },
    }
}

impl ClipboardReadResult {
    /// Pairs the outcome of a path read with the classified outcome of a
    /// text read. Neither read influences how the other is taken.
    pub fn from_reads(
        file_paths: Result<Vec<String>, ClipboardError>,
        text: Result<String, ClipboardError>,
    ) -> (reads: ClipboardReadResult)
        ensures
            reads@.file_paths == list_result(file_paths),
            reads@.text == classified_text(result_model(text)),
    {
        let text = classify_text(text);
        ClipboardReadResult { file_paths, text }
    }

    /// Whether the raw bytes of the clipboard are to be read as well: the
    /// path read failed and the text read gave no text.
    pub fn needs_raw_fallback(&self) -> (r: bool)
        ensures
            r == wants_raw(self@),
    {
        match &self.file_paths {
            Ok(_) => false,
            Err(_) => match &self.text {
                Ok(Some(_)) => false,
                _ => true,
            },
        }
    }
}

/// Whether the reconciler falls back on the raw bytes: the path read failed
/// and the text read gave no text (absent, or failed).
pub open spec fn wants_raw(reads: ReadsModel) -> bool {
    reads.file_paths is Err && !(reads.text matches Ok(Some(_)))
}

/// The text that raw bytes stand for, if any: they must be valid UTF-8 and
/// hold something other than white space.
pub open spec fn text_in_bytes(bytes: Seq<u8>) -> Option<Seq<char>> {
    if valid_utf8(bytes) && !is_blank(decode_utf8(bytes)) {
        Some(decode_utf8(bytes))
    } else {
        None
    }
}

/// The text that the raw fallback contributes: that of the bytes read, and
/// none where the raw read was not made or failed.
pub open spec fn fallback_text(raw: Option<Result<Seq<u8>, ErrorModel>>) -> Option<Seq<char>> {
    match raw {
        Some(Ok(bytes)) => text_in_bytes(bytes),
        _ => None,
    }
}

/// The reason given when neither paths nor text could be had.
pub open spec fn both_failed_reason(paths_error: ErrorModel, text_error: ErrorModel) -> Seq<
    char,
> {
    "Failed to read clipboard content: file paths error: "@ + paths_error.message
        + ", text error: "@ + text_error.message
}

/// The unified result of the path read, the text read and the raw fallback.
///
/// Where the paths were read, they are returned with the text, if any; the
/// raw bytes play no part. Where they were not, the text slot is filled from
/// the text read or, failing that, from the raw bytes. The whole read fails
/// only when the path read and the text read both failed and the raw bytes
/// gave no text.
pub open spec fn reconciled(reads: ReadsModel, raw_text: Option<Seq<char>>) -> Result<
    ContentModel,
    ErrorModel,
> {
    match reads.file_paths {
        Ok(paths) => Ok(
            ContentModel {
                file_paths: paths,
                text: match reads.text {
                    Ok(text) => text,
                    Err(_) => None,
                },
            },
        ),
        Err(paths_error) => match reads.text {
            Ok(Some(text)) => Ok(ContentModel { file_paths: Seq::empty(), text: Some(text) }),
            Ok(None) => Ok(ContentModel { file_paths: Seq::empty(), text: raw_text }),
            Err(text_error) => match raw_text {
                Some(text) => Ok(ContentModel { file_paths: Seq::empty(), text: Some(text) }),
                None => Err(
                    ErrorModel {
                        kind: ErrorKind::PlatformIo,
                        message: both_failed_reason(paths_error, text_error),
                    },
                ),
            },
        },
    }
}

/// Reads raw bytes as text: valid UTF-8 that is not blank.
pub fn usable_text(bytes: &Vec<u8>) -> (r: Option<String>)
    ensures
        optional_text(r) == text_in_bytes(bytes@),
{
    match str_from_utf8(bytes.as_slice()) {
        Some(text) => {
            if blank(text) {
                None
            } else {
                Some(String::from_str(text))
            }
        },
        None => None,
    }
}

/// The text that the raw fallback contributes.
fn text_of_raw(raw: &Option<Result<Vec<u8>, ClipboardError>>) -> (r: Option<String>)
    ensures
        optional_text(r) == fallback_text(raw_model(*raw)),
{
    match raw {
        Some(Ok(bytes)) => usable_text(bytes),
        _ => None,
    }
}

/// What a raw read says in contracts.
pub open spec fn raw_model(raw: Option<Result<Vec<u8>, ClipboardError>>) -> Option<
    Result<Seq<u8>, ErrorModel>,
> {
    match raw {
        Some(Ok(bytes)) => Some(Ok(bytes@)),
        Some(Err(e)) => Some(Err(e@)),
        None => None,
    }
}

/// Combines the independent path and text reads, and the raw read where one
/// was made, into one result.
///
/// `raw` is the outcome of the raw read, or `None` where it was not made;
/// it is looked at only where `reads.needs_raw_fallback()` holds.
pub fn read_clipboard_results(
    reads: ClipboardReadResult,
    raw: Option<Result<Vec<u8>, ClipboardError>>,
) -> (r: Result<ClipboardContent, ClipboardError>)
    ensures
        result_model(r) == reconciled(reads@, fallback_text(raw_model(raw))),
{
    let ClipboardReadResult { file_paths, text } = reads;
    match file_paths {
        Ok(paths) => {
            let text = match text {
                Ok(text) => text,
                Err(_) => None,
            };
            Ok(ClipboardContent { file_paths: paths, text })
        },
        Err(paths_error) => {
            let empty: Vec<String> = Vec::new();
            assert(texts(empty@) =~= Seq::empty());
            match text {
                Ok(Some(text)) => Ok(ClipboardContent { file_paths: empty, text: Some(text) }),
                Ok(None) => Ok(ClipboardContent { file_paths: empty, text: text_of_raw(&raw) }),
                Err(text_error) => match text_of_raw(&raw) {
                    Some(text) => Ok(ClipboardContent { file_paths: empty, text: Some(text) }),
                    None => {
                        let mut message = String::from_str(
                            "Failed to read clipboard content: file paths error: ",
                        );
                        message.append(paths_error.message.as_str());
                        message.append(", text error: ");
                        message.append(text_error.message.as_str());
                        Err(ClipboardError::new(ErrorKind::PlatformIo, message))
                    },
                },
            }
        },
    }
}

/// Where the paths were read, the text of the result is the text that the
/// text read gave, whatever the raw bytes hold: a path list alone never
/// produces a text.
pub proof fn lemma_text_comes_from_text_slot(reads: ReadsModel, raw_text: Option<Seq<char>>)
    requires
        reads.file_paths is Ok,
    ensures
        reconciled(reads, raw_text) is Ok,
        reconciled(reads, raw_text)->Ok_0.file_paths == reads.file_paths->Ok_0,
        reconciled(reads, raw_text)->Ok_0.text == (match reads.text {
            Ok(text) => text,
            Err(_) => None,
        }),
{
}

/// The whole read fails exactly when the path read failed, the text read
/// failed, and the raw bytes gave no text; a partial result is a success.
pub proof fn lemma_failure_needs_both(reads: ReadsModel, raw_text: Option<Seq<char>>)
    ensures
        reconciled(reads, raw_text) is Err <==> (reads.file_paths is Err && reads.text is Err
            && raw_text is None),
        reconciled(reads, raw_text) is Err ==> wants_raw(reads),
{
}

/// The raw bytes matter only where the fallback is wanted.
pub proof fn lemma_raw_ignored_unless_wanted(
    reads: ReadsModel,
    first: Option<Seq<char>>,
    second: Option<Seq<char>>,
)
    requires
        !wants_raw(reads),
    ensures
        reconciled(reads, first) == reconciled(reads, second),
{
}

} // verus!
