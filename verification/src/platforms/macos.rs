//! The macOS adapter: the general pasteboard.
//!
//! Reads work on a snapshot of what the pasteboard offers, taken by the
//! caller in one session; a write is a session that says which native
//! step comes next.

pub mod operations;
pub mod write;

use crate::content::optional_text;
use crate::error::{absent, list_result, result_model, ClipboardError, ErrorKind, ErrorModel};
use crate::text::{join, join_strings, texts, views};
use vstd::prelude::*;
use vstd::string::*;
use vstd::utf8::encode_utf8;

verus! {

/// The type name of UTF-8 plain text, the preferred text format.
pub const UTF8_PLAIN_TEXT: &'static str = "public.utf8-plain-text";

/// The type name of text in general.
pub const PUBLIC_TEXT: &'static str = "public.text";

/// The legacy type name of a string.
pub const LEGACY_STRING: &'static str = "NSStringPboardType";

/// The type name of plain text in the traditional Mac encoding.
pub const TRADITIONAL_TEXT: &'static str = "com.apple.traditional-mac-plain-text";

/// The type name of binary data in general.
pub const PUBLIC_DATA: &'static str = "public.data";

/// What the pasteboard offers under one type name.
#[derive(Debug, PartialEq, Eq)]
pub struct PasteboardItem {
    /// The name of the type.
    pub format: String,
    /// The string that the pasteboard gives for the type, if any.
    pub text: Option<String>,
    /// The data that the pasteboard gives for the type, if any.
    pub data: Option<Vec<u8>>,
}

/// One object that the pasteboard hands out as a URL.
#[derive(Debug, PartialEq, Eq)]
pub struct UrlEntry {
    /// Whether the URL denotes a place in the file system.
    pub is_file_url: bool,
    /// The path of the URL, if it has one.
    pub path: Option<String>,
}

/// What was seen of the pasteboard in one session.
#[derive(Debug, PartialEq, Eq)]
pub struct PasteboardSnapshot {
    /// What the pasteboard gives when asked by name for each of the type
    /// names that `probe_names` lists.
    pub probes: Vec<PasteboardItem>,
    /// The types that the pasteboard advertises, in its order, each with
    /// what it gives for it; `None` where it gave no list.
    pub types: Option<Vec<PasteboardItem>>,
    /// The objects that it hands out as URLs; `None` where it gave none.
    pub urls: Option<Vec<UrlEntry>>,
}

/// Why no snapshot of the pasteboard could be taken.
#[derive(Clone, Copy, Debug, PartialEq, Eq, Structural)]
pub enum SessionFailure {
    /// No autorelease pool could be made.
    NoPool,
    /// The general pasteboard could not be had.
    NoPasteboard,
    /// The filter that asks for URL objects could not be made.
    NoClassFilter,
}

/// What a pasteboard item says in contracts.
pub struct ItemModel {
    pub format: Seq<char>,
    pub text: Option<Seq<char>>,
    pub data: Option<Seq<u8>>,
}

/// What a URL object says in contracts.
pub struct UrlModel {
    pub is_file_url: bool,
    pub path: Option<Seq<char>>,
}

/// What a snapshot says in contracts.
pub struct SnapshotModel {
    pub probes: Seq<ItemModel>,
    pub types: Option<Seq<ItemModel>>,
    pub urls: Option<Seq<UrlModel>>,
}

impl View for PasteboardItem {
    type V = ItemModel;

    open spec fn view(&self) -> ItemModel {
        ItemModel {
            format: self.format@,
            text: match self.text {
                Some(text) => Some(text@),
                None => None,
            },
            data: match self.data {
                Some(data) => Some(data@),
                None => None,
            },
        }
    }
}

impl View for UrlEntry {
    type V = UrlModel;

    open spec fn view(&self) -> UrlModel {
        UrlModel {
            is_file_url: self.is_file_url,
            path: match self.path {
                Some(path) => Some(path@),
                None => None,
            },
        }
    }
}

impl View for PasteboardSnapshot {
    type V = SnapshotModel;

    open spec fn view(&self) -> SnapshotModel {
        SnapshotModel {
            probes: views(self.probes@),
            types: match self.types {
                Some(types) => Some(views(types@)),
                None => None,
            },
            urls: match self.urls {
                Some(urls) => Some(views(urls@)),
                None => None,
            },
        }
    }
}

/// What the outcome of taking a snapshot says in contracts.
pub open spec fn capture_model(capture: Result<PasteboardSnapshot, SessionFailure>) -> Result<
    SnapshotModel,
    SessionFailure,
> {
    match capture {
        Ok(snapshot) => Ok(snapshot@),
        Err(failure) => Err(failure),
    }
}

/// The type names that are asked for by name, text formats first.
pub open spec fn probe_name_list() -> Seq<Seq<char>> {
    seq![UTF8_PLAIN_TEXT@, PUBLIC_TEXT@, LEGACY_STRING@, TRADITIONAL_TEXT@, PUBLIC_DATA@]
}

/// The type names to ask the pasteboard for by name when a snapshot is taken.
pub fn probe_names() -> (names: Vec<String>)
    ensures
        texts(names@) == probe_name_list(),
{
    let mut names: Vec<String> = Vec::new();
    names.push(String::from_str(UTF8_PLAIN_TEXT));
    names.push(String::from_str(PUBLIC_TEXT));
    names.push(String::from_str(LEGACY_STRING));
    names.push(String::from_str(TRADITIONAL_TEXT));
    names.push(String::from_str(PUBLIC_DATA));
    names
}

/// The failure that a session which could not be set up is reported as.
pub open spec fn session_failure(failure: SessionFailure) -> ErrorModel {
    ErrorModel {
        kind: ErrorKind::Resource,
        message: match failure {
            SessionFailure::NoPool => "Failed to create AutoreleasePool"@,
            SessionFailure::NoPasteboard => "Failed to get general pasteboard"@,
            SessionFailure::NoClassFilter => "Failed to create array for NSURL class"@,
        },
    }
}

/// Builds the failure that a session which could not be set up is reported as.
pub fn session_error(failure: SessionFailure) -> (e: ClipboardError)
    ensures
        e@ == session_failure(failure),
{
    match failure {
        SessionFailure::NoPool => ClipboardError::with_text(
            ErrorKind::Resource,
            "Failed to create AutoreleasePool",
        ),
        SessionFailure::NoPasteboard => ClipboardError::with_text(
            ErrorKind::Resource,
            "Failed to get general pasteboard",
        ),
        SessionFailure::NoClassFilter => ClipboardError::with_text(
            ErrorKind::Resource,
            "Failed to create array for NSURL class",
        ),
    }
}

/// The first of the items that has the given type name.
pub open spec fn probe(items: Seq<ItemModel>, name: Seq<char>) -> Option<ItemModel>
    decreases items.len(),
{
    if items.len() == 0 {
        None
    } else if items[0].format == name {
        Some(items[0])
    } else {
        probe(items.skip(1), name)
    }
}

/// The string that the pasteboard gave when asked by name.
pub open spec fn probed_text(items: Seq<ItemModel>, name: Seq<char>) -> Option<Seq<char>> {
    match probe(items, name) {
        Some(item) => item.text,
        None => None,
    }
}

/// The data that the pasteboard gave when asked by name.
pub open spec fn probed_data(items: Seq<ItemModel>, name: Seq<char>) -> Option<Seq<u8>> {
    match probe(items, name) {
        Some(item) => item.data,
        None => None,
    }
}

/// The first candidate that is there and not empty.
pub open spec fn first_filled<A>(candidates: Seq<Option<Seq<A>>>) -> Option<Seq<A>>
    decreases candidates.len(),
{
    if candidates.len() == 0 {
        None
    } else {
        match candidates[0] {
            Some(content) if content.len() > 0 => Some(content),
            _ => first_filled(candidates.skip(1)),
        }
    }
}

/// The advertised types, or none where the pasteboard gave no list.
pub open spec fn advertised(snapshot: SnapshotModel) -> Seq<ItemModel> {
    match snapshot.types {
        Some(types) => types,
        None => Seq::empty(),
    }
}

/// The texts that a text read looks at, in the order of preference: the
/// UTF-8 plain text, text in general, the legacy string, the traditional
/// Mac text, and then whatever each advertised type gives as a string.
pub open spec fn text_candidates(snapshot: SnapshotModel) -> Seq<Option<Seq<char>>> {
    seq![
        probed_text(snapshot.probes, UTF8_PLAIN_TEXT@),
        probed_text(snapshot.probes, PUBLIC_TEXT@),
        probed_text(snapshot.probes, LEGACY_STRING@),
        probed_text(snapshot.probes, TRADITIONAL_TEXT@),
    ] + advertised(snapshot).map_values(|item: ItemModel| item.text)
}

/// What a text read amounts to: the first candidate that is not empty,
/// and an absence where there is none.
pub open spec fn text_read(capture: Result<SnapshotModel, SessionFailure>) -> Result<
    Seq<char>,
    ErrorModel,
> {
    match capture {
        Err(failure) => Err(session_failure(failure)),
        Ok(snapshot) => match first_filled(text_candidates(snapshot)) {
            Some(text) => Ok(text),
            None => Err(absent("No text content found on clipboard"@)),
        },
    }
}

/// The paths of the URL objects that denote a place in the file system
/// and have a path, in order.
pub open spec fn file_paths_in(urls: Seq<UrlModel>) -> Seq<Seq<char>>
    decreases urls.len(),
{
    if urls.len() == 0 {
        Seq::empty()
    } else {
        let before = file_paths_in(urls.drop_last());
        match urls.last().path {
            Some(path) if urls.last().is_file_url => before.push(path),
            _ => before,
        }
    }
}

/// The file paths on the pasteboard; none where it hands out no URLs.
pub open spec fn snapshot_paths(snapshot: SnapshotModel) -> Seq<Seq<char>> {
    match snapshot.urls {
        Some(urls) => file_paths_in(urls),
        None => Seq::empty(),
    }
}

/// What a read of the file paths amounts to: the paths, possibly none.
pub open spec fn file_paths_read(capture: Result<SnapshotModel, SessionFailure>) -> Result<
    Seq<Seq<char>>,
    ErrorModel,
> {
    match capture {
        Err(failure) => Err(session_failure(failure)),
        Ok(snapshot) => Ok(snapshot_paths(snapshot)),
    }
}

/// The byte contents that a raw read looks at before it falls back on the
/// file paths, in the order of preference: the data of the UTF-8 plain
/// text, of text in general, of the legacy string and of binary data in
/// general; the UTF-8 plain text as a string; and then the data of each
/// advertised type.
pub open spec fn raw_candidates(snapshot: SnapshotModel) -> Seq<Option<Seq<u8>>> {
    seq![
        probed_data(snapshot.probes, UTF8_PLAIN_TEXT@),
        probed_data(snapshot.probes, PUBLIC_TEXT@),
        probed_data(snapshot.probes, LEGACY_STRING@),
        probed_data(snapshot.probes, PUBLIC_DATA@),
        match probed_text(snapshot.probes, UTF8_PLAIN_TEXT@) {
            Some(text) => Some(encode_utf8(text)),
            None => None,
        },
    ] + advertised(snapshot).map_values(|item: ItemModel| item.data)
}

/// What a raw read amounts to.
///
/// A pasteboard that advertises no type holds nothing. Otherwise the
/// bytes are the first candidate that is not empty; where there is none
/// and the pasteboard holds file paths, they are the paths, one per line;
/// and where it holds none either, the read ends in an absence.
pub open spec fn raw_read(capture: Result<SnapshotModel, SessionFailure>) -> Result<
    Seq<u8>,
    ErrorModel,
> {
    match capture {
        Err(failure) => Err(session_failure(failure)),
        Ok(snapshot) => match snapshot.types {
            None => Err(absent("Clipboard is empty"@)),
            Some(types) => if types.len() == 0 {
                Err(absent("Clipboard has no available types"@))
            } else {
                match first_filled(raw_candidates(snapshot)) {
                    Some(bytes) => Ok(bytes),
                    None => if snapshot_paths(snapshot).len() > 0 {
                        Ok(encode_utf8(join(snapshot_paths(snapshot), "\n"@)))
                    } else {
                        Err(absent("No data found in clipboard for any available type"@))
                    },
                }
            },
        },
    }
}

/// Decides whether two texts are the same.
fn same_text(a: &str, b: &str) -> (r: bool)
    ensures
        r == (a@ == b@),
{
    String::from_str(a) == String::from_str(b)
}

/// Finds the first of the items that has the given type name.
fn find_probe<'a>(items: &'a Vec<PasteboardItem>, name: &str) -> (r: Option<&'a PasteboardItem>)
    ensures
        match r {
            Some(item) => probe(views(items@), name@) == Some(item@),
            None => probe(views(items@), name@) is None,
        },
{
    let mut i: usize = 0;
    assert(views(items@).skip(0) =~= views(items@));
    while i < items.len()
        invariant
            0 <= i <= items.len(),
            probe(views(items@).skip(i as int), name@) == probe(views(items@), name@),
        decreases items.len() - i,
    {
        let ghost rest = views(items@).skip(i as int);
        assert(rest[0] == items@[i as int]@);
        assert(rest.skip(1) =~= views(items@).skip(i + 1));
        if same_text(items[i].format.as_str(), name) {
            return Some(&items[i]);
        }
        i += 1;
    }
    None
}

/// The string that the pasteboard gave when asked by name.
fn probe_text(items: &Vec<PasteboardItem>, name: &str) -> (r: Option<String>)
    ensures
        optional_text(r) == probed_text(views(items@), name@),
{
    match find_probe(items, name) {
        Some(item) => match &item.text {
            Some(text) => Some(text.clone()),
            None => None,
        },
        None => None,
    }
}

/// The data that the pasteboard gave when asked by name.
fn probe_data(items: &Vec<PasteboardItem>, name: &str) -> (r: Option<Vec<u8>>)
    ensures
        optional_bytes(r) == probed_data(views(items@), name@),
{
    match find_probe(items, name) {
        Some(item) => match &item.data {
            Some(data) => Some(data.clone()),
            None => None,
        },
        None => None,
    }
}

/// The bytes of an optional byte vector.
pub open spec fn optional_bytes(bytes: Option<Vec<u8>>) -> Option<Seq<u8>> {
    match bytes {
        Some(b) => Some(b@),
        None => None,
    }
}

/// The texts of a list of optional strings.
pub open spec fn optional_texts(list: Seq<Option<String>>) -> Seq<Option<Seq<char>>> {
    Seq::new(list.len(), |i: int| optional_text(list[i]))
}

/// The contents of a list of optional byte vectors.
pub open spec fn optional_datas(list: Seq<Option<Vec<u8>>>) -> Seq<Option<Seq<u8>>> {
    Seq::new(list.len(), |i: int| optional_bytes(list[i]))
}

/// Picks the first text that is there and not empty.
fn pick_text(candidates: Vec<Option<String>>) -> (r: Option<String>)
    ensures
        optional_text(r) == first_filled(optional_texts(candidates@)),
{
    let ghost all = optional_texts(candidates@);
    let mut candidates = candidates;
    let mut picked: Option<String> = None;
    while candidates.len() > 0
        invariant
            candidates@.len() <= all.len(),
            optional_texts(candidates@) == all.take(candidates@.len() as int),
            optional_text(picked) == first_filled(all.skip(candidates@.len() as int)),
        decreases candidates.len(),
    {
        let ghost n = candidates@.len() as int;
        let ghost before = candidates@;
        let last = candidates.pop();
        let ghost rest = all.skip(n - 1);
        assert(all[n - 1] == optional_texts(before)[n - 1]);
        assert(rest.skip(1) =~= all.skip(n));
        match last {
            Some(Some(text)) => {
                if text.as_str().unicode_len() > 0 {
                    picked = Some(text);
                }
            },
            _ => {},
        }
    }
    assert(all.skip(0) =~= all);
    picked
}

/// Picks the first data that is there and not empty.
fn pick_data(candidates: Vec<Option<Vec<u8>>>) -> (r: Option<Vec<u8>>)
    ensures
        optional_bytes(r) == first_filled(optional_datas(candidates@)),
{
    let ghost all = optional_datas(candidates@);
    let mut candidates = candidates;
    let mut picked: Option<Vec<u8>> = None;
    while candidates.len() > 0
        invariant
            candidates@.len() <= all.len(),
            optional_datas(candidates@) == all.take(candidates@.len() as int),
            optional_bytes(picked) == first_filled(all.skip(candidates@.len() as int)),
        decreases candidates.len(),
    {
        let ghost n = candidates@.len() as int;
        let ghost before = candidates@;
        let last = candidates.pop();
        let ghost rest = all.skip(n - 1);
        assert(all[n - 1] == optional_datas(before)[n - 1]);
        assert(rest.skip(1) =~= all.skip(n));
        match last {
            Some(Some(data)) => {
                if data.len() > 0 {
                    picked = Some(data);
                }
            },
            _ => {},
        }
    }
    assert(all.skip(0) =~= all);
    picked
}

/// Lists the texts that a text read looks at.
fn candidate_texts(snapshot: &PasteboardSnapshot) -> (list: Vec<Option<String>>)
    ensures
        optional_texts(list@) == text_candidates(snapshot@),
{
    let mut list: Vec<Option<String>> = Vec::new();
    list.push(probe_text(&snapshot.probes, UTF8_PLAIN_TEXT));
    list.push(probe_text(&snapshot.probes, PUBLIC_TEXT));
    list.push(probe_text(&snapshot.probes, LEGACY_STRING));
    list.push(probe_text(&snapshot.probes, TRADITIONAL_TEXT));
    let ghost front = list@;
    match &snapshot.types {
        Some(types) => {
            let mut i: usize = 0;
            while i < types.len()
                invariant
                    0 <= i <= types.len(),
                    list@.len() == 4 + i,
                    front.len() == 4,
                    forall|j: int| 0 <= j < 4 ==> list@[j] == front[j],
                    forall|j: int|
                        0 <= j < i ==> optional_text(#[trigger] list@[4 + j]) == types@[j]@.text,
                decreases types.len() - i,
            {
                match &types[i].text {
                    Some(text) => list.push(Some(text.clone())),
                    None => list.push(None),
                }
                i += 1;
            }
            assert forall|j: int| 0 <= j < list@.len() implies optional_texts(list@)[j]
                == text_candidates(snapshot@)[j] by {
                if j >= 4 {
                    assert(optional_text(list@[4 + (j - 4)]) == types@[j - 4]@.text);
                } else if j == 0 {
                    assert(list@[0] == front[0]);
                } else if j == 1 {
                    assert(list@[1] == front[1]);
                } else if j == 2 {
                    assert(list@[2] == front[2]);
                } else {
                    assert(list@[3] == front[3]);
                }
            }
        },
        None => {},
    }
    list
}

/// Lists the byte contents that a raw read looks at.
fn candidate_datas(snapshot: &PasteboardSnapshot) -> (list: Vec<Option<Vec<u8>>>)
    ensures
        optional_datas(list@) == raw_candidates(snapshot@),
{
    let mut list: Vec<Option<Vec<u8>>> = Vec::new();
    list.push(probe_data(&snapshot.probes, UTF8_PLAIN_TEXT));
    list.push(probe_data(&snapshot.probes, PUBLIC_TEXT));
    list.push(probe_data(&snapshot.probes, LEGACY_STRING));
    list.push(probe_data(&snapshot.probes, PUBLIC_DATA));
    match probe_text(&snapshot.probes, UTF8_PLAIN_TEXT) {
        Some(text) => list.push(Some(text.as_str().as_bytes_vec())),
        None => list.push(None),
    }
    let ghost front = list@;
    match &snapshot.types {
        Some(types) => {
            let mut i: usize = 0;
            while i < types.len()
                invariant
                    0 <= i <= types.len(),
                    list@.len() == 5 + i,
                    front.len() == 5,
                    forall|j: int| 0 <= j < 5 ==> list@[j] == front[j],
                    forall|j: int|
                        0 <= j < i ==> optional_bytes(#[trigger] list@[5 + j])
                            == types@[j]@.data,
                decreases types.len() - i,
            {
                match &types[i].data {
                    Some(data) => list.push(Some(data.clone())),
                    None => list.push(None),
                }
                i += 1;
            }
            assert forall|j: int| 0 <= j < list@.len() implies optional_datas(list@)[j]
                == raw_candidates(snapshot@)[j] by {
                if j >= 5 {
                    assert(optional_bytes(list@[5 + (j - 5)]) == types@[j - 5]@.data);
                } else if j == 0 {
                    assert(list@[0] == front[0]);
                } else if j == 1 {
                    assert(list@[1] == front[1]);
                } else if j == 2 {
                    assert(list@[2] == front[2]);
                } else if j == 3 {
                    assert(list@[3] == front[3]);
                } else {
                    assert(list@[4] == front[4]);
                }
            }
        },
        None => {},
    }
    list
}

/// Reads the clipboard's text from what was seen of the pasteboard.
pub fn read_clipboard_text(capture: &Result<PasteboardSnapshot, SessionFailure>) -> (r: Result<
    String,
    ClipboardError,
>)
    ensures
        result_model(r) == text_read(capture_model(*capture)),
{
    match capture {
        Err(failure) => Err(session_error(*failure)),
        Ok(snapshot) => match pick_text(candidate_texts(snapshot)) {
            Some(text) => Ok(text),
            None => Err(
                ClipboardError::with_text(
                    ErrorKind::NotFound,
                    "No text content found on clipboard",
                ),
            ),
        },
    }
}

/// Collects the paths of the URL objects that denote files.
fn collect_file_paths(urls: &Vec<UrlEntry>) -> (paths: Vec<String>)
    ensures
        texts(paths@) == file_paths_in(views(urls@)),
{
    let mut paths: Vec<String> = Vec::new();
    let mut i: usize = 0;
    while i < urls.len()
        invariant
            0 <= i <= urls.len(),
            texts(paths@) == file_paths_in(views(urls@).take(i as int)),
        decreases urls.len() - i,
    {
        let ghost after = views(urls@).take(i + 1);
        assert(after.drop_last() =~= views(urls@).take(i as int));
        if urls[i].is_file_url {
            match &urls[i].path {
                Some(path) => {
                    paths.push(path.clone());
                },
                None => {},
            }
        }
        i += 1;
    }
    assert(views(urls@).take(urls.len() as int) =~= views(urls@));
    paths
}

/// The file paths that the snapshot holds.
fn paths_of(snapshot: &PasteboardSnapshot) -> (paths: Vec<String>)
    ensures
        texts(paths@) == snapshot_paths(snapshot@),
{
    match &snapshot.urls {
        Some(urls) => collect_file_paths(urls),
        None => {
            let paths: Vec<String> = Vec::new();
            paths
        },
    }
}

/// Reads the clipboard's file paths from what was seen of the pasteboard.
/// A pasteboard without file references gives the empty list.
pub fn read_clipboard_file_paths(capture: &Result<PasteboardSnapshot, SessionFailure>) -> (r:
    Result<Vec<String>, ClipboardError>)
    ensures
        list_result(r) == file_paths_read(capture_model(*capture)),
{
    match capture {
        Err(failure) => Err(session_error(*failure)),
        Ok(snapshot) => Ok(paths_of(snapshot)),
    }
}

/// Reads the clipboard's raw bytes from what was seen of the pasteboard.
pub fn read_clipboard_raw(capture: &Result<PasteboardSnapshot, SessionFailure>) -> (r: Result<
    Vec<u8>,
    ClipboardError,
>)
    ensures
        result_model(r) == raw_read(capture_model(*capture)),
{
    match capture {
        Err(failure) => Err(session_error(*failure)),
        Ok(snapshot) => match &snapshot.types {
            None => Err(ClipboardError::with_text(ErrorKind::NotFound, "Clipboard is empty")),
            Some(types) => {
                if types.len() == 0 {
                    return Err(
                        ClipboardError::with_text(
                            ErrorKind::NotFound,
                            "Clipboard has no available types",
                        ),
                    );
                }
                match pick_data(candidate_datas(snapshot)) {
                    Some(bytes) => Ok(bytes),
                    None => {
                        let paths = paths_of(snapshot);
                        if paths.len() > 0 {
                            Ok(join_strings(&paths, "\n").as_str().as_bytes_vec())
                        } else {
                            Err(
                                ClipboardError::with_text(
                                    ErrorKind::NotFound,
                                    "No data found in clipboard for any available type",
                                ),
                            )
                        }
                    },
                }
            },
        },
    }
}

/// Whether a candidate is there and not empty.
pub open spec fn is_filled<A>(candidate: Option<Seq<A>>) -> bool {
    candidate is Some && candidate->Some_0.len() > 0
}

/// Nothing is picked exactly when no candidate is filled; what is picked
/// is a filled candidate before which none is filled.
pub proof fn lemma_first_filled<A>(candidates: Seq<Option<Seq<A>>>)
    ensures
        first_filled(candidates) is None <==> forall|i: int|
            0 <= i < candidates.len() ==> !is_filled(#[trigger] candidates[i]),
        first_filled(candidates) is Some ==> exists|i: int|
            0 <= i < candidates.len() && is_filled(#[trigger] candidates[i]) && candidates[i]
                == first_filled(candidates) && forall|j: int|
                0 <= j < i ==> !is_filled(#[trigger] candidates[j]),
    decreases candidates.len(),
{
    if candidates.len() > 0 {
        let rest = candidates.skip(1);
        lemma_first_filled(rest);
        assert forall|i: int| 0 <= i < rest.len() implies rest[i] == candidates[i + 1] by {}
        if !is_filled(candidates[0]) {
            if first_filled(rest) is None {
                assert forall|i: int| 0 <= i < candidates.len() implies !is_filled(
                    #[trigger] candidates[i],
                ) by {
                    if i > 0 {
                        assert(candidates[i] == rest[i - 1]);
                    }
                }
            } else {
                let k = choose|i: int|
                    0 <= i < rest.len() && is_filled(#[trigger] rest[i]) && rest[i]
                        == first_filled(rest) && forall|j: int|
                        0 <= j < i ==> !is_filled(#[trigger] rest[j]);
                assert forall|j: int| 0 <= j < k + 1 implies !is_filled(
                    #[trigger] candidates[j],
                ) by {
                    if j > 0 {
                        assert(candidates[j] == rest[j - 1]);
                    }
                }
            }
        }
    }
}

/// The file references on the pasteboard play no part in a text read: a
/// pasteboard that holds a path list gives a text only where a text
/// format on it is filled.
pub proof fn lemma_text_read_ignores_file_references(
    snapshot: SnapshotModel,
    urls: Option<Seq<UrlModel>>,
)
    ensures
        text_read(Ok(SnapshotModel { urls, ..snapshot })) == text_read(Ok(snapshot)),
        text_read(Ok(snapshot)) is Ok <==> exists|i: int|
            0 <= i < text_candidates(snapshot).len() && is_filled(
                #[trigger] text_candidates(snapshot)[i],
            ),
        text_read(Ok(snapshot)) is Err ==> text_read(Ok(snapshot))->Err_0.kind
            == ErrorKind::NotFound,
{
    lemma_first_filled(text_candidates(snapshot));
}

/// Where the pasteboard advertises types but none of them, nor any of the
/// preferred formats, gives bytes, a raw read gives the file paths on it,
/// one per line.
pub proof fn lemma_raw_read_falls_back_on_paths(snapshot: SnapshotModel)
    requires
        snapshot.types is Some,
        snapshot.types->Some_0.len() > 0,
        forall|i: int|
            0 <= i < raw_candidates(snapshot).len() ==> !is_filled(
                #[trigger] raw_candidates(snapshot)[i],
            ),
        snapshot_paths(snapshot).len() > 0,
    ensures
        raw_read(Ok(snapshot)) == Ok::<Seq<u8>, ErrorModel>(
            encode_utf8(join(snapshot_paths(snapshot), "\n"@)),
        ),
{
    lemma_first_filled(raw_candidates(snapshot));
}

/// Reading is a function of what was seen: captures that are alike are
/// read alike, however often they are read.
pub proof fn lemma_reads_are_repeatable(
    first: Result<PasteboardSnapshot, SessionFailure>,
    second: Result<PasteboardSnapshot, SessionFailure>,
)
    requires
        capture_model(first) == capture_model(second),
    ensures
        file_paths_read(capture_model(first)) == file_paths_read(capture_model(second)),
        text_read(capture_model(first)) == text_read(capture_model(second)),
        raw_read(capture_model(first)) == raw_read(capture_model(second)),
{
}

} // verus!
