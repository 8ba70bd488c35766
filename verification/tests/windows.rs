use electron_pan_clip::platforms::windows::layout::{
    drop_files_block, read_entry, to_wide_null, wide_text, DROPFILES_SIZE,
};
use electron_pan_clip::platforms::windows::read::{
    read_clipboard_file_paths, read_clipboard_raw, read_clipboard_text, ReadKind, ReadSession,
    ReadStage, ReadValue,
};
use electron_pan_clip::platforms::windows::write::{
    native_error, write_clipboard_file_paths, WriteSession, WriteStage,
};
use electron_pan_clip::platforms::windows::{NativeCall, NativeReply, CF_HDROP, CF_UNICODETEXT};
use electron_pan_clip::resolver::{PathAttempt, PathFailure, ResolvePolicy};
use electron_pan_clip::{ClipboardError, ErrorKind};

fn resolved(canonical: &str) -> PathAttempt {
    PathAttempt { input: canonical.to_string(), outcome: Ok(canonical.to_string()) }
}

fn error(kind: ErrorKind, message: &str) -> ClipboardError {
    ClipboardError { kind, message: message.to_string() }
}

fn strings(list: &[&str]) -> Vec<String> {
    list.iter().map(|p| p.to_string()).collect()
}

fn wide(text: &str) -> Vec<u16> {
    text.encode_utf16().collect()
}

/// Runs a write against the given answers and records the calls it made.
fn run_write(session: WriteSession, replies: Vec<NativeReply>) -> (Vec<NativeCall>, Option<Result<(), ClipboardError>>) {
    let mut session = session;
    let mut calls = Vec::new();
    for reply in &replies {
        let call = session.call();
        if call == NativeCall::Finish {
            break;
        }
        calls.push(call);
        session = session.advance(reply);
    }
    calls.push(session.call());
    (calls, session.outcome())
}

/// Runs a read against the given answers and records the calls it made.
fn run_read(session: ReadSession, replies: Vec<NativeReply>) -> (Vec<NativeCall>, Option<Result<ReadValue, ClipboardError>>) {
    let mut session = session;
    let mut calls = Vec::new();
    for reply in &replies {
        let call = session.call();
        if call == NativeCall::Finish {
            break;
        }
        calls.push(call);
        session = session.advance(reply);
    }
    calls.push(session.call());
    (calls, session.outcome())
}

fn done(n: usize) -> Vec<NativeReply> {
    (0..n).map(|_| NativeReply::Done).collect()
}

#[test]
fn test_to_wide_null() {
    let test_str = "Hello, Windows!";
    let wide = to_wide_null(test_str);
    assert_eq!(wide.len(), test_str.len() + 1);
    assert_eq!(wide[wide.len() - 1], 0);
    for (i, c) in test_str.chars().enumerate() {
        assert_eq!(wide[i], c as u16);
    }
}

#[test]
fn test_path_conversion() {
    let test_paths = vec!["C:\\Windows\\System32".to_string(), "D:\\Documents\\file.txt".to_string()];
    let mut wide_paths: Vec<u16> = test_paths.iter().map(|p| to_wide_null(p)).flatten().collect();
    wide_paths.push(0);
    let mut null_count = 0;
    for c in wide_paths.iter() {
        if *c == 0 {
            null_count += 1;
        }
    }
    assert_eq!(null_count, test_paths.len() + 1);
}

#[test]
fn test_empty_paths() {
    let result = write_clipboard_file_paths(&Vec::new(), ResolvePolicy::Strict);
    assert!(result.is_ok());
}

#[test]
fn wide_strings_end_in_nul() {
    assert_eq!(to_wide_null(""), vec![0]);
    assert_eq!(to_wide_null("a\u{1F600}"), vec![0x61, 0xD83D, 0xDE00, 0]);
}

#[test]
fn drop_files_block_has_header_and_double_nul_list() {
    let block = drop_files_block(&strings(&["C:\\a", "D:\\\u{e9}"]));
    let mut expected: Vec<u8> = vec![
        20, 0, 0, 0, // offset of the path list
        0, 0, 0, 0, // drop point x
        0, 0, 0, 0, // drop point y
        0, 0, 0, 0, // non-client flag
        1, 0, 0, 0, // wide flag
    ];
    for unit in [0x43u16, 0x3A, 0x5C, 0x61, 0, 0x44, 0x3A, 0x5C, 0xE9, 0, 0] {
        expected.extend_from_slice(&unit.to_le_bytes());
    }
    assert_eq!(block, expected);
    assert_eq!(DROPFILES_SIZE, 20);
    assert_eq!(u32::from_le_bytes([block[0], block[1], block[2], block[3]]), DROPFILES_SIZE);
}

#[test]
fn drop_files_block_of_no_paths_is_header_and_terminator() {
    let block = drop_files_block(&Vec::new());
    assert_eq!(block.len(), 22);
    assert_eq!(&block[20..], &[0, 0]);
}

#[test]
fn drop_files_block_agrees_with_std_encoding() {
    let paths = strings(&["C:\\Users\\\u{65e5}\u{672c}\\\u{1F600}.txt", "\\\\server\\share\\x"]);
    let block = drop_files_block(&paths);
    let mut units: Vec<u16> = Vec::new();
    for path in &paths {
        units.extend(path.encode_utf16());
        units.push(0);
    }
    units.push(0);
    let bytes: Vec<u8> = units.iter().flat_map(|u| u.to_le_bytes()).collect();
    assert_eq!(&block[20..], &bytes[..]);
}

#[test]
fn wide_text_stops_at_the_first_nul() {
    assert_eq!(wide_text(&wide("hello\0garbage")), "hello");
    assert_eq!(wide_text(&wide("no terminator")), "no terminator");
    assert_eq!(wide_text(&wide("\0")), "");
    assert_eq!(wide_text(&Vec::new()), "");
    assert_eq!(wide_text(&vec![0x41, 0xD800, 0x42, 0]), "A\u{FFFD}B");
    assert_eq!(wide_text(&to_wide_null("gr\u{fc}\u{df}e \u{1F600}")), "gr\u{fc}\u{df}e \u{1F600}");
}

#[test]
fn entries_hold_their_first_units() {
    let buffer = to_wide_null("C:\\a.txt");
    assert_eq!(read_entry(&buffer, 8), Some("C:\\a.txt".to_string()));
    assert_eq!(read_entry(&buffer, 4), Some("C:\\a".to_string()));
    assert_eq!(read_entry(&buffer, 0), None);
    assert_eq!(read_entry(&wide("ab"), 5), Some("ab".to_string()));
    assert_eq!(read_entry(&Vec::new(), 3), Some(String::new()));
}

#[test]
fn native_errors_name_step_and_code() {
    assert_eq!(
        native_error(ErrorKind::Resource, "Failed to open clipboard", 5),
        error(ErrorKind::Resource, "Failed to open clipboard: 5")
    );
    assert_eq!(
        native_error(ErrorKind::PlatformIo, "x", u32::MAX),
        error(ErrorKind::PlatformIo, "x: 4294967295")
    );
}

#[test]
fn windows_write_of_nothing_makes_no_call() {
    let session = write_clipboard_file_paths(&Vec::new(), ResolvePolicy::BestEffort).unwrap();
    assert_eq!(session.call(), NativeCall::Finish);
    assert_eq!(session.outcome(), Some(Ok(())));
}

#[test]
fn windows_write_rejects_unresolvable_paths() {
    let attempts = vec![PathAttempt {
        input: "gone".to_string(),
        outcome: Err(PathFailure::Canonicalize("not found".to_string())),
    }];
    let error = write_clipboard_file_paths(&attempts, ResolvePolicy::Strict).unwrap_err();
    assert_eq!(error.kind, ErrorKind::InvalidInput);
    assert!(error.message.contains("gone"));
}

#[test]
fn windows_write_walks_through_its_stages() {
    let session = write_clipboard_file_paths(&vec![resolved("C:\\a")], ResolvePolicy::Strict).unwrap();
    assert_eq!(session.stage, WriteStage::Closed);
    assert_eq!(session.payload, drop_files_block(&strings(&["C:\\a"])));
    let size = session.payload.len();
    assert_eq!(size, 20 + 2 * 5 + 2);
    let (calls, outcome) = run_write(session, done(7));
    assert_eq!(
        calls,
        vec![
            NativeCall::OpenClipboard,
            NativeCall::EmptyClipboard,
            NativeCall::Allocate(size),
            NativeCall::Fill,
            NativeCall::SetData(CF_HDROP),
            NativeCall::CloseClipboard,
            NativeCall::Finish,
        ]
    );
    assert_eq!(outcome, Some(Ok(())));
}

#[test]
fn windows_write_that_cannot_open_holds_nothing() {
    let session = WriteSession::begin(&strings(&["C:\\a"]));
    let (calls, outcome) = run_write(session, vec![NativeReply::Failed(5), NativeReply::Done]);
    assert_eq!(calls, vec![NativeCall::OpenClipboard, NativeCall::Finish]);
    assert_eq!(outcome, Some(Err(error(ErrorKind::Resource, "Failed to open clipboard: 5"))));
}

#[test]
fn windows_write_closes_after_a_failure() {
    let session = WriteSession::begin(&strings(&["C:\\a"]));
    let (calls, outcome) = run_write(session, vec![NativeReply::Done, NativeReply::Failed(1418), NativeReply::Done, NativeReply::Done]);
    assert_eq!(
        calls,
        vec![NativeCall::OpenClipboard, NativeCall::EmptyClipboard, NativeCall::CloseClipboard, NativeCall::Finish]
    );
    assert_eq!(outcome, Some(Err(error(ErrorKind::PlatformIo, "Failed to empty clipboard: 1418"))));

    let session = WriteSession::begin(&strings(&["C:\\a"]));
    let (calls, outcome) = run_write(session, vec![NativeReply::Done, NativeReply::Done, NativeReply::Failed(8), NativeReply::Failed(6), NativeReply::Done]);
    assert_eq!(calls[2..], [NativeCall::Allocate(32), NativeCall::CloseClipboard, NativeCall::Finish]);
    assert_eq!(outcome, Some(Err(error(ErrorKind::Resource, "Failed to allocate global memory: 8"))));
}

#[test]
fn windows_write_frees_memory_it_still_owns() {
    let session = WriteSession::begin(&strings(&["C:\\a"]));
    let mut replies = done(3);
    replies.push(NativeReply::Failed(6));
    replies.extend(done(3));
    let (calls, outcome) = run_write(session, replies);
    assert_eq!(
        calls[3..],
        [NativeCall::Fill, NativeCall::Free, NativeCall::CloseClipboard, NativeCall::Finish]
    );
    assert_eq!(outcome, Some(Err(error(ErrorKind::Resource, "Failed to lock global memory: 6"))));

    let session = WriteSession::begin(&strings(&["C:\\a"]));
    let mut replies = done(4);
    replies.push(NativeReply::Failed(1400));
    replies.extend(done(3));
    let (calls, outcome) = run_write(session, replies);
    assert_eq!(
        calls[4..],
        [NativeCall::SetData(CF_HDROP), NativeCall::Free, NativeCall::CloseClipboard, NativeCall::Finish]
    );
    assert_eq!(outcome, Some(Err(error(ErrorKind::PlatformIo, "Failed to set clipboard data: 1400"))));
}

#[test]
fn windows_write_never_frees_after_the_hand_off() {
    let session = WriteSession::begin(&strings(&["C:\\a"]));
    let mut replies = done(5);
    replies.push(NativeReply::Failed(1418));
    replies.push(NativeReply::Done);
    let (calls, outcome) = run_write(session, replies);
    assert!(!calls.contains(&NativeCall::Free));
    assert_eq!(calls.last(), Some(&NativeCall::Finish));
    assert_eq!(outcome, Some(Ok(())));
}

#[test]
fn windows_session_in_progress_has_no_outcome() {
    let session = WriteSession::begin(&strings(&["C:\\a"]));
    assert_eq!(session.outcome(), None);
    assert_eq!(read_clipboard_text().outcome(), None);
}

#[test]
fn windows_text_read_walks_through_its_stages() {
    let session = read_clipboard_text();
    assert_eq!(session, ReadSession { kind: ReadKind::Text, stage: ReadStage::Closed });
    let (calls, outcome) = run_read(
        session,
        vec![NativeReply::Done, NativeReply::Done, NativeReply::Done, NativeReply::Wide(wide("hi\0")), NativeReply::Done, NativeReply::Done],
    );
    assert_eq!(
        calls,
        vec![
            NativeCall::OpenClipboard,
            NativeCall::IsFormatAvailable(CF_UNICODETEXT),
            NativeCall::GetData(CF_UNICODETEXT),
            NativeCall::ReadWide,
            NativeCall::CloseClipboard,
            NativeCall::Finish,
        ]
    );
    assert_eq!(outcome, Some(Ok(ReadValue::Text("hi".to_string()))));
}

#[test]
fn windows_text_read_without_text_is_an_absence() {
    let (calls, outcome) = run_read(read_clipboard_text(), vec![NativeReply::Done, NativeReply::Failed(0), NativeReply::Done, NativeReply::Done]);
    assert_eq!(
        calls,
        vec![
            NativeCall::OpenClipboard,
            NativeCall::IsFormatAvailable(CF_UNICODETEXT),
            NativeCall::CloseClipboard,
            NativeCall::Finish,
        ]
    );
    assert_eq!(outcome, Some(Err(error(ErrorKind::NotFound, "No text available in clipboard"))));
}

#[test]
fn windows_read_failures_close_the_clipboard() {
    let (calls, outcome) = run_read(read_clipboard_text(), vec![NativeReply::Failed(5)]);
    assert_eq!(calls, vec![NativeCall::OpenClipboard, NativeCall::Finish]);
    assert_eq!(outcome, Some(Err(error(ErrorKind::Resource, "Failed to open clipboard: 5"))));

    let (calls, outcome) = run_read(read_clipboard_text(), vec![NativeReply::Done, NativeReply::Done, NativeReply::Failed(1418), NativeReply::Done]);
    assert_eq!(calls[2..], [NativeCall::GetData(CF_UNICODETEXT), NativeCall::CloseClipboard, NativeCall::Finish]);
    assert_eq!(outcome, Some(Err(error(ErrorKind::PlatformIo, "Failed to get clipboard data: 1418"))));

    let (calls, outcome) = run_read(read_clipboard_text(), vec![NativeReply::Done, NativeReply::Done, NativeReply::Done, NativeReply::Failed(6), NativeReply::Done]);
    assert_eq!(calls[3..], [NativeCall::ReadWide, NativeCall::CloseClipboard, NativeCall::Finish]);
    assert_eq!(outcome, Some(Err(error(ErrorKind::Resource, "Failed to lock memory: 6"))));

    let (_, outcome) = run_read(read_clipboard_text(), vec![NativeReply::Done, NativeReply::Done, NativeReply::Done, NativeReply::Count(3), NativeReply::Done]);
    assert_eq!(outcome, Some(Err(error(ErrorKind::PlatformIo, "Unexpected reply from the native layer"))));
}

#[test]
fn windows_raw_read_returns_the_buffer_verbatim() {
    let session = read_clipboard_raw();
    assert_eq!(session.kind, ReadKind::Raw);
    let (calls, outcome) = run_read(session, vec![NativeReply::Done, NativeReply::Done, NativeReply::Bytes(vec![0x68, 0, 0x69, 0, 0, 0]), NativeReply::Done]);
    assert_eq!(
        calls,
        vec![
            NativeCall::OpenClipboard,
            NativeCall::GetData(CF_UNICODETEXT),
            NativeCall::ReadBytes,
            NativeCall::CloseClipboard,
            NativeCall::Finish,
        ]
    );
    assert_eq!(outcome, Some(Ok(ReadValue::Raw(vec![0x68, 0, 0x69, 0, 0, 0]))));
}

#[test]
fn windows_raw_read_without_data_is_an_absence() {
    let (_, outcome) = run_read(read_clipboard_raw(), vec![NativeReply::Done, NativeReply::Done, NativeReply::Bytes(Vec::new()), NativeReply::Done]);
    assert_eq!(outcome, Some(Err(error(ErrorKind::NotFound, "No data available in clipboard"))));
    let (calls, outcome) = run_read(read_clipboard_raw(), vec![NativeReply::Done, NativeReply::Failed(0), NativeReply::Done]);
    assert_eq!(calls, vec![NativeCall::OpenClipboard, NativeCall::GetData(CF_UNICODETEXT), NativeCall::CloseClipboard, NativeCall::Finish]);
    assert_eq!(outcome, Some(Err(error(ErrorKind::NotFound, "Failed to get clipboard data: 0"))));
    let (_, outcome) = run_read(read_clipboard_raw(), vec![NativeReply::Done, NativeReply::Done, NativeReply::Failed(6), NativeReply::Done]);
    assert_eq!(outcome, Some(Err(error(ErrorKind::Resource, "Failed to lock memory: 6"))));
}

#[test]
fn windows_file_paths_are_counted_then_fetched() {
    let session = read_clipboard_file_paths();
    assert_eq!(session.kind, ReadKind::FilePaths);
    let (calls, outcome) = run_read(
        session,
        vec![
            NativeReply::Done,
            NativeReply::Done,
            NativeReply::Done,
            NativeReply::Count(3),
            NativeReply::Count(8),
            NativeReply::Entry(to_wide_null("C:\\a.txt"), 8),
            NativeReply::Count(0),
            NativeReply::Entry(vec![0], 0),
            NativeReply::Count(4),
            NativeReply::Entry(to_wide_null("D:\\b"), 4),
            NativeReply::Done,
        ],
    );
    assert_eq!(
        calls,
        vec![
            NativeCall::OpenClipboard,
            NativeCall::IsFormatAvailable(CF_HDROP),
            NativeCall::GetData(CF_HDROP),
            NativeCall::CountFiles,
            NativeCall::FileLength(0),
            NativeCall::FetchFile(0, 9),
            NativeCall::FileLength(1),
            NativeCall::FetchFile(1, 1),
            NativeCall::FileLength(2),
            NativeCall::FetchFile(2, 5),
            NativeCall::CloseClipboard,
            NativeCall::Finish,
        ]
    );
    assert_eq!(outcome, Some(Ok(ReadValue::FilePaths(strings(&["C:\\a.txt", "D:\\b"])))));
}

#[test]
fn windows_file_paths_without_files_are_an_absence() {
    let (calls, outcome) = run_read(read_clipboard_file_paths(), vec![NativeReply::Done, NativeReply::Failed(0), NativeReply::Done]);
    assert_eq!(calls[1..], [NativeCall::IsFormatAvailable(CF_HDROP), NativeCall::CloseClipboard, NativeCall::Finish]);
    assert_eq!(outcome, Some(Err(error(ErrorKind::NotFound, "No file paths available in clipboard"))));

    let (calls, outcome) = run_read(read_clipboard_file_paths(), vec![NativeReply::Done, NativeReply::Done, NativeReply::Done, NativeReply::Count(0), NativeReply::Done]);
    assert_eq!(calls[3..], [NativeCall::CountFiles, NativeCall::CloseClipboard, NativeCall::Finish]);
    assert_eq!(outcome, Some(Err(error(ErrorKind::NotFound, "No valid file paths found in clipboard"))));

    let (_, outcome) = run_read(
        read_clipboard_file_paths(),
        vec![
            NativeReply::Done,
            NativeReply::Done,
            NativeReply::Done,
            NativeReply::Count(2),
            NativeReply::Failed(1),
            NativeReply::Count(0),
            NativeReply::Entry(vec![0], 0),
            NativeReply::Done,
        ],
    );
    assert_eq!(outcome, Some(Err(error(ErrorKind::NotFound, "No valid file paths found in clipboard"))));

    let (_, outcome) = run_read(read_clipboard_file_paths(), vec![NativeReply::Done, NativeReply::Done, NativeReply::Done, NativeReply::Failed(87), NativeReply::Done]);
    assert_eq!(outcome, Some(Err(error(ErrorKind::PlatformIo, "Failed to count files: 87"))));
}

#[test]
fn windows_listing_past_its_count_ends() {
    let session = ReadSession {
        kind: ReadKind::FilePaths,
        stage: ReadStage::Listing { count: 1, index: u32::MAX, paths: strings(&["C:\\a"]) },
    };
    assert_eq!(session.call(), NativeCall::FileLength(u32::MAX));
    let session = session.advance(&NativeReply::Count(u32::MAX));
    assert_eq!(session.call(), NativeCall::FetchFile(u32::MAX, u32::MAX));
    let session = session.advance(&NativeReply::Done);
    assert_eq!(session.stage, ReadStage::Collected(ReadValue::FilePaths(strings(&["C:\\a"]))));
}

#[test]
fn windows_finished_sessions_stay_finished() {
    let session = WriteSession { stage: WriteStage::Finished(Ok(())), payload: Vec::new() };
    let session = session.advance(&NativeReply::Failed(1));
    assert_eq!(session.stage, WriteStage::Finished(Ok(())));
    let session = ReadSession { kind: ReadKind::Raw, stage: ReadStage::Finished(Ok(ReadValue::Raw(vec![1]))) };
    let session = session.advance(&NativeReply::Failed(1));
    assert_eq!(session.outcome(), Some(Ok(ReadValue::Raw(vec![1]))));
}

#[test]
fn windows_written_paths_are_read_back() {
    let canonical = strings(&["C:\\Users\\me\\a.txt", "C:\\Users\\me\\\u{65e5}\u{672c} \u{1F600}.txt"]);
    let mut replies = vec![NativeReply::Done, NativeReply::Done, NativeReply::Done, NativeReply::Count(canonical.len() as u32)];
    for path in &canonical {
        let buffer = to_wide_null(path);
        let length = (buffer.len() - 1) as u32;
        replies.push(NativeReply::Count(length));
        replies.push(NativeReply::Entry(buffer, length));
    }
    replies.push(NativeReply::Done);
    let (_, outcome) = run_read(read_clipboard_file_paths(), replies);
    let mut read = match outcome {
        Some(Ok(ReadValue::FilePaths(paths))) => paths,
        other => panic!("no paths: {:?}", other),
    };
    let mut expected = canonical.clone();
    read.sort();
    expected.sort();
    assert_eq!(read, expected);
}

/// Takes a dropped-files block apart as a consumer of the format does.
fn paths_in_block(block: &[u8]) -> Vec<String> {
    let offset = u32::from_le_bytes([block[0], block[1], block[2], block[3]]) as usize;
    let wide = u32::from_le_bytes([block[16], block[17], block[18], block[19]]);
    assert_eq!(wide, 1);
    let units: Vec<u16> = block[offset..]
        .chunks_exact(2)
        .map(|pair| u16::from_le_bytes([pair[0], pair[1]]))
        .collect();
    let mut paths = Vec::new();
    let mut start = 0;
    while start < units.len() {
        let length = units[start..].iter().position(|unit| *unit == 0).unwrap_or(units.len() - start);
        if length == 0 {
            break;
        }
        paths.push(String::from_utf16_lossy(&units[start..start + length]));
        start += length + 1;
    }
    paths
}

#[test]
fn drop_files_block_can_be_taken_apart_again() {
    let lists: Vec<Vec<String>> = vec![
        Vec::new(),
        strings(&["C:\\a.txt"]),
        strings(&["C:\\Users\\me\\a b.txt", "D:\\\u{65e5}\u{672c}\\\u{1F600}.png", "E:\\x"]),
    ];
    for list in lists {
        assert_eq!(paths_in_block(&drop_files_block(&list)), list);
    }
}
