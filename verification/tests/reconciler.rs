use electron_pan_clip::content::{classify_text, usable_text};
use electron_pan_clip::{
    platform_error_reason, read_clipboard_results, ClipboardContent, ClipboardError,
    ClipboardReadResult, ErrorKind,
};

fn error(kind: ErrorKind, message: &str) -> ClipboardError {
    ClipboardError { kind, message: message.to_string() }
}

fn paths(list: &[&str]) -> Vec<String> {
    list.iter().map(|p| p.to_string()).collect()
}

fn broken() -> ClipboardError {
    error(ErrorKind::PlatformIo, "Failed to open clipboard: 5")
}

#[test]
fn errors_are_built_from_kind_and_reason() {
    let e = ClipboardError::new(ErrorKind::Resource, "no handle".to_string());
    assert_eq!(e, error(ErrorKind::Resource, "no handle"));
    assert_eq!(ClipboardError::with_text(ErrorKind::NotFound, "none"), error(ErrorKind::NotFound, "none"));
    assert!(error(ErrorKind::NotFound, "none").is_absence());
    assert!(!error(ErrorKind::PlatformIo, "none").is_absence());
    assert!(!error(ErrorKind::InvalidInput, "none").is_absence());
    assert!(!error(ErrorKind::Resource, "none").is_absence());
}

#[test]
fn host_reason_names_the_platform() {
    assert_eq!(
        platform_error_reason("linux", &error(ErrorKind::PlatformIo, "xclip command failed")),
        "linux clipboard error: xclip command failed"
    );
}

#[test]
fn text_that_is_present_stays() {
    assert_eq!(classify_text(Ok("hello".to_string())), Ok(Some("hello".to_string())));
}

#[test]
fn no_text_present_is_a_successful_absence() {
    assert_eq!(classify_text(Ok(String::new())), Ok(None));
    assert_eq!(classify_text(Err(error(ErrorKind::NotFound, "whatever"))), Ok(None));
    assert_eq!(
        classify_text(Err(error(ErrorKind::NotFound, "No text available in clipboard"))),
        Ok(None)
    );
}

#[test]
fn other_text_errors_stay_failures() {
    assert_eq!(classify_text(Err(broken())), Err(broken()));
    assert_eq!(
        classify_text(Err(error(ErrorKind::Resource, "no text"))),
        Err(error(ErrorKind::Resource, "no text"))
    );
}

#[test]
fn a_platform_failure_is_no_absence_whatever_its_reason_says() {
    for reason in ["No text available in clipboard", "Clipboard is empty", "Failed to empty clipboard: 5"] {
        for kind in [ErrorKind::PlatformIo, ErrorKind::Resource, ErrorKind::InvalidInput] {
            assert_eq!(classify_text(Err(error(kind, reason))), Err(error(kind, reason)));
        }
    }
    let reads = ClipboardReadResult::from_reads(
        Err(broken()),
        Err(error(ErrorKind::PlatformIo, "Clipboard is empty")),
    );
    assert_eq!(reads.text, Err(error(ErrorKind::PlatformIo, "Clipboard is empty")));
    assert_eq!(
        read_clipboard_results(reads, None),
        Err(error(
            ErrorKind::PlatformIo,
            "Failed to read clipboard content: file paths error: Failed to open clipboard: 5, \
             text error: Clipboard is empty"
        ))
    );
}

#[test]
fn raw_bytes_are_text_when_utf8_and_not_blank() {
    assert_eq!(usable_text(&b"hello".to_vec()), Some("hello".to_string()));
    assert_eq!(usable_text(&" h\u{e9} ".as_bytes().to_vec()), Some(" h\u{e9} ".to_string()));
    assert_eq!(usable_text(&Vec::new()), None);
    assert_eq!(usable_text(&b" \t\r\n".to_vec()), None);
    assert_eq!(usable_text(&vec![0xFF, 0xFE]), None);
    assert_eq!(usable_text(&vec![b'a', 0x80]), None);
}

#[test]
fn reads_are_paired_without_influencing_each_other() {
    let reads = ClipboardReadResult::from_reads(Err(broken()), Ok("t".to_string()));
    assert_eq!(reads.file_paths, Err(broken()));
    assert_eq!(reads.text, Ok(Some("t".to_string())));
    let reads = ClipboardReadResult::from_reads(Ok(paths(&["/a"])), Err(broken()));
    assert_eq!(reads.file_paths, Ok(paths(&["/a"])));
    assert_eq!(reads.text, Err(broken()));
}

#[test]
fn raw_fallback_is_wanted_only_without_paths_and_text() {
    let wanted = |file_paths, text| ClipboardReadResult { file_paths, text }.needs_raw_fallback();
    assert!(!wanted(Ok(Vec::new()), Ok(None)));
    assert!(!wanted(Ok(Vec::new()), Err(broken())));
    assert!(!wanted(Err(broken()), Ok(Some("t".to_string()))));
    assert!(wanted(Err(broken()), Ok(None)));
    assert!(wanted(Err(broken()), Err(broken())));
}

#[test]
fn paths_and_text_are_returned_together() {
    let reads = ClipboardReadResult { file_paths: Ok(paths(&["/a", "/b"])), text: Ok(Some("t".to_string())) };
    assert_eq!(
        read_clipboard_results(reads, None),
        Ok(ClipboardContent { file_paths: paths(&["/a", "/b"]), text: Some("t".to_string()) })
    );
}

#[test]
fn a_path_list_alone_produces_no_text() {
    let reads = ClipboardReadResult { file_paths: Ok(paths(&["/a"])), text: Ok(None) };
    assert_eq!(
        read_clipboard_results(reads, Some(Ok(b"/a".to_vec()))),
        Ok(ClipboardContent { file_paths: paths(&["/a"]), text: None })
    );
    let reads = ClipboardReadResult { file_paths: Ok(paths(&["/a"])), text: Err(broken()) };
    assert_eq!(
        read_clipboard_results(reads, Some(Ok(b"raw".to_vec()))),
        Ok(ClipboardContent { file_paths: paths(&["/a"]), text: None })
    );
}

#[test]
fn text_alone_is_a_partial_success() {
    let reads = ClipboardReadResult { file_paths: Err(broken()), text: Ok(Some("t".to_string())) };
    assert_eq!(
        read_clipboard_results(reads, Some(Ok(b"raw".to_vec()))),
        Ok(ClipboardContent { file_paths: Vec::new(), text: Some("t".to_string()) })
    );
}

#[test]
fn raw_bytes_fill_the_text_slot_when_nothing_else_does() {
    let reads = ClipboardReadResult { file_paths: Err(broken()), text: Ok(None) };
    assert_eq!(
        read_clipboard_results(reads, Some(Ok(b"raw text".to_vec()))),
        Ok(ClipboardContent { file_paths: Vec::new(), text: Some("raw text".to_string()) })
    );
    let reads = ClipboardReadResult { file_paths: Err(broken()), text: Err(broken()) };
    assert_eq!(
        read_clipboard_results(reads, Some(Ok(b"raw text".to_vec()))),
        Ok(ClipboardContent { file_paths: Vec::new(), text: Some("raw text".to_string()) })
    );
}

#[test]
fn absent_text_without_paths_is_still_a_result() {
    for raw in [None, Some(Err(broken())), Some(Ok(Vec::new())), Some(Ok(b"  ".to_vec())), Some(Ok(vec![0xFF]))] {
        let reads = ClipboardReadResult { file_paths: Err(broken()), text: Ok(None) };
        assert_eq!(
            read_clipboard_results(reads, raw),
            Ok(ClipboardContent { file_paths: Vec::new(), text: None })
        );
    }
}

#[test]
fn the_read_fails_only_when_both_reads_fail_and_raw_gives_nothing() {
    for raw in [None, Some(Err(broken())), Some(Ok(Vec::new())), Some(Ok(b" \n".to_vec())), Some(Ok(vec![0xC0, 0x80]))] {
        let reads = ClipboardReadResult {
            file_paths: Err(error(ErrorKind::NotFound, "no paths")),
            text: Err(error(ErrorKind::PlatformIo, "no lock")),
        };
        assert_eq!(
            read_clipboard_results(reads, raw),
            Err(error(
                ErrorKind::PlatformIo,
                "Failed to read clipboard content: file paths error: no paths, text error: no lock"
            ))
        );
    }
}

#[test]
fn default_content_is_empty() {
    assert_eq!(ClipboardContent::default(), ClipboardContent { file_paths: Vec::new(), text: None });
}
