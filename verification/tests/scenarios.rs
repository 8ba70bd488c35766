use electron_pan_clip::platforms::{linux, macos, windows};
use electron_pan_clip::resolver::{PathAttempt, ResolvePolicy};
use electron_pan_clip::{
    read_clipboard_results, ClipboardContent, ClipboardError, ClipboardReadResult, ErrorKind,
};

fn resolved(canonical: &str) -> PathAttempt {
    PathAttempt { input: canonical.to_string(), outcome: Ok(canonical.to_string()) }
}

fn strings(list: &[&str]) -> Vec<String> {
    list.iter().map(|p| p.to_string()).collect()
}

fn helper_printed(stdout: Vec<u8>) -> linux::HelperRun {
    linux::HelperRun::Finished(linux::HelperOutput {
        success: true,
        exit_code: Some(0),
        stdout,
        stderr: Vec::new(),
    })
}

fn helper_refused(stderr: &str) -> linux::HelperRun {
    linux::HelperRun::Finished(linux::HelperOutput {
        success: false,
        exit_code: Some(1),
        stdout: Vec::new(),
        stderr: stderr.as_bytes().to_vec(),
    })
}

fn path_list_only(paths: &[&str]) -> Result<macos::PasteboardSnapshot, macos::SessionFailure> {
    let unfilled = |format: &str| macos::PasteboardItem { format: format.to_string(), text: None, data: None };
    Ok(macos::PasteboardSnapshot {
        probes: macos::probe_names().iter().map(|name| unfilled(name)).collect(),
        types: Some(vec![unfilled("public.file-url"), unfilled("NSFilenamesPboardType")]),
        urls: Some(
            paths
                .iter()
                .map(|p| macos::UrlEntry { is_file_url: true, path: Some(p.to_string()) })
                .collect(),
        ),
    })
}

#[test]
fn test_write_clipboard_file_paths_empty_input() {
    let result = linux::write_clipboard_file_paths(&vec![], ResolvePolicy::Strict);
    assert!(result.is_ok());
    let result = macos::write::write_clipboard_file_paths(&vec![], ResolvePolicy::Strict);
    assert!(result.is_ok());
    let result = windows::write::write_clipboard_file_paths(&vec![], ResolvePolicy::Strict);
    assert!(result.is_ok());
}

#[test]
fn empty_write_touches_no_clipboard() {
    for policy in [ResolvePolicy::Strict, ResolvePolicy::BestEffort] {
        assert_eq!(linux::write_clipboard_file_paths(&Vec::new(), policy), Ok(None));
        let session = macos::write::write_clipboard_file_paths(&Vec::new(), policy).unwrap();
        assert_eq!(session.call(), macos::write::NativeCall::Finish);
        let session = windows::write::write_clipboard_file_paths(&Vec::new(), policy).unwrap();
        assert_eq!(session.call(), windows::NativeCall::Finish);
    }
}

#[test]
fn written_paths_show_in_the_snapshot_on_linux() {
    let attempts = vec![resolved("/tmp/a.txt"), resolved("/tmp/b.txt")];
    let command = linux::write_clipboard_file_paths(&attempts, ResolvePolicy::Strict).unwrap().unwrap();
    let file_paths = linux::read_clipboard_file_paths(&helper_printed(command.input.unwrap()));
    let text = linux::read_clipboard_text(&helper_refused("Error: target STRING not available\n"));
    let reads = ClipboardReadResult::from_reads(file_paths, text);
    assert!(!reads.needs_raw_fallback());
    let content = read_clipboard_results(reads, None).unwrap();
    assert_eq!(content.file_paths, strings(&["/tmp/a.txt", "/tmp/b.txt"]));
    assert_eq!(content.text, None);
}

#[test]
fn written_paths_show_in_the_snapshot_on_macos() {
    let attempts = vec![resolved("/tmp/a.txt"), resolved("/tmp/b.txt")];
    let session = macos::write::write_clipboard_file_paths(&attempts, ResolvePolicy::Strict).unwrap();
    let written: Vec<&str> = session.paths.iter().map(|p| p.as_str()).collect();
    let capture = path_list_only(&written);
    let reads = ClipboardReadResult::from_reads(
        macos::read_clipboard_file_paths(&capture),
        macos::read_clipboard_text(&capture),
    );
    let content = read_clipboard_results(reads, None).unwrap();
    assert_eq!(
        content,
        ClipboardContent { file_paths: strings(&["/tmp/a.txt", "/tmp/b.txt"]), text: None }
    );
    assert!(!content.file_paths.is_empty() || content.text.is_some());
}

#[test]
fn empty_write_then_read_gives_nothing_or_not_found() {
    assert_eq!(linux::write_clipboard_file_paths(&Vec::new(), ResolvePolicy::Strict), Ok(None));
    assert_eq!(linux::read_clipboard_file_paths(&helper_printed(Vec::new())), Ok(Vec::new()));
    let nothing = Ok(macos::PasteboardSnapshot { probes: Vec::new(), types: None, urls: None });
    assert_eq!(macos::read_clipboard_file_paths(&nothing), Ok(Vec::new()));
    let mut session = windows::read::read_clipboard_file_paths();
    session = session.advance(&windows::NativeReply::Done);
    session = session.advance(&windows::NativeReply::Failed(0));
    session = session.advance(&windows::NativeReply::Done);
    assert_eq!(
        session.outcome(),
        Some(Err(ClipboardError {
            kind: ErrorKind::NotFound,
            message: "No file paths available in clipboard".to_string()
        }))
    );
}

#[test]
fn raw_read_of_a_path_list_gives_the_paths_line_by_line() {
    let capture = path_list_only(&["/tmp/a.txt", "/tmp/b.txt"]);
    assert_eq!(macos::read_clipboard_raw(&capture), Ok(b"/tmp/a.txt\n/tmp/b.txt".to_vec()));
    let capture = path_list_only(&["/tmp/only.txt"]);
    assert_eq!(macos::read_clipboard_raw(&capture), Ok(b"/tmp/only.txt".to_vec()));
}

#[test]
fn raw_fallback_turns_a_path_list_into_text_when_paths_cannot_be_read() {
    let capture = path_list_only(&["/tmp/a.txt", "/tmp/b.txt"]);
    let failed = ClipboardError { kind: ErrorKind::Resource, message: "no filter".to_string() };
    let reads = ClipboardReadResult::from_reads(Err(failed), macos::read_clipboard_text(&capture));
    assert!(reads.needs_raw_fallback());
    let raw = macos::read_clipboard_raw(&capture);
    assert_eq!(
        read_clipboard_results(reads, Some(raw)),
        Ok(ClipboardContent { file_paths: Vec::new(), text: Some("/tmp/a.txt\n/tmp/b.txt".to_string()) })
    );
}
