use electron_pan_clip::preview::hex_view;
use electron_pan_clip::{
    detect_mime_type, generate_preview, hello_world, read_clipboard_readable, ClipboardError,
    ErrorKind, ReadableClipboardContent,
};

fn mime(data: &[u8]) -> Option<String> {
    detect_mime_type(data)
}

#[test]
fn test_hello_world() {
    let result = hello_world("linux", "0.1.0");
    assert!(!result.is_empty());
    assert!(result.contains("Rust"));
}

#[test]
fn greeting_names_version_and_system() {
    assert_eq!(hello_world("linux", "0.1.0"), "Hello from Rust 0.1.0 on Linux!");
    assert_eq!(hello_world("macos", "1.2.3"), "Hello from Rust 1.2.3 on macOS!");
    assert_eq!(hello_world("windows", "2.0.0"), "Hello from Rust 2.0.0 on Windows!");
    assert_eq!(hello_world("freebsd", "0.1.0"), "Hello from Rust 0.1.0 on freebsd!");
    assert_eq!(hello_world("", ""), "Hello from Rust  on !");
}

#[test]
fn no_bytes_have_no_kind() {
    assert_eq!(mime(b""), None);
}

#[test]
fn kinds_are_told_by_their_first_bytes() {
    assert_eq!(mime(b"%PDF-1.7 ..."), Some("application/pdf".to_string()));
    assert_eq!(mime(b"%PDF-"), Some("application/pdf".to_string()));
    assert_eq!(mime(&[0xFF, 0xD8, 0xFF, 0xE0, 0x00]), Some("image/jpeg".to_string()));
    assert_eq!(mime(b"PNG\r\n\x1a\n"), Some("image/png".to_string()));
}

#[test]
fn html_is_told_by_its_doctype_anywhere() {
    assert_eq!(mime(b"<!DOCTYPE html><html></html>"), Some("text/html".to_string()));
    assert_eq!(mime(b"\xEF\xBB\xBF\n  <!DOCTYPE html>"), Some("text/html".to_string()));
    assert_eq!(mime(b"\xFF\xFE <!DOCTYPE html> \x80"), Some("text/html".to_string()));
    assert_eq!(mime(b"<!doctype html>"), Some("text/plain".to_string()));
}

#[test]
fn other_bytes_are_text_or_binary() {
    assert_eq!(mime(b"plain words"), Some("text/plain".to_string()));
    assert_eq!(mime("h\u{e9}".as_bytes()), Some("text/plain".to_string()));
    assert_eq!(mime(&[0x00]), Some("text/plain".to_string()));
    assert_eq!(mime(&[0xFF, 0xD8]), Some("application/octet-stream".to_string()));
    assert_eq!(mime(&[0x80, 0x81]), Some("application/octet-stream".to_string()));
    assert_eq!(mime(b"%PDF"), Some("text/plain".to_string()));
}

#[test]
fn only_the_first_thousand_bytes_are_probed_for_text() {
    let mut data = vec![b'a'; 1000];
    data.push(0xFF);
    assert_eq!(mime(&data), Some("text/plain".to_string()));
    let mut data = vec![b'a'; 999];
    data.push(0xFF);
    assert_eq!(mime(&data), Some("application/octet-stream".to_string()));
    let mut data = vec![b'a'; 999];
    data.extend_from_slice("\u{e9}".as_bytes());
    assert_eq!(mime(&data), Some("application/octet-stream".to_string()));
}

#[test]
fn preview_shows_printable_bytes_and_dots() {
    assert_eq!(generate_preview(b""), None);
    assert_eq!(generate_preview(b"Hello"), Some("Hello".to_string()));
    assert_eq!(generate_preview(&[31, 32, 126, 127, 0, 255, b'A']), Some(". ~...A".to_string()));
    assert_eq!(
        generate_preview(b"0123456789abcdefghijKLMNOP"),
        Some("0123456789abcdefghij".to_string())
    );
    assert_eq!(generate_preview(b"0123456789abcdefghij"), Some("0123456789abcdefghij".to_string()));
}

#[test]
fn hex_view_shows_two_digits_per_byte() {
    assert_eq!(hex_view(b""), None);
    assert_eq!(hex_view(&[0x00]), Some("00".to_string()));
    assert_eq!(hex_view(&[0x0A, 0xFF, 0x10, 0x9C]), Some("0A FF 10 9C".to_string()));
    let data: Vec<u8> = (0..=255u8).collect();
    let expected: Vec<String> = data[..100].iter().map(|b| format!("{:02X}", b)).collect();
    assert_eq!(hex_view(&data), Some(expected.join(" ")));
    let expected: Vec<String> = data[..99].iter().map(|b| format!("{:02X}", b)).collect();
    assert_eq!(hex_view(&data[..99]), Some(expected.join(" ")));
}

#[test]
fn readable_content_puts_the_views_together() {
    assert_eq!(
        read_clipboard_readable(Ok(b"Hi\n".to_vec())),
        Ok(ReadableClipboardContent {
            hex_view: Some("48 69 0A".to_string()),
            text_view: Some("Hi\n".to_string()),
            mime_type: Some("text/plain".to_string()),
            size: 3,
            preview: Some("Hi.".to_string()),
        })
    );
    assert_eq!(
        read_clipboard_readable(Ok(Vec::new())),
        Ok(ReadableClipboardContent {
            hex_view: None,
            text_view: None,
            mime_type: None,
            size: 0,
            preview: None,
        })
    );
    assert_eq!(
        read_clipboard_readable(Ok(vec![0xFF, 0xD8, 0xFF])),
        Ok(ReadableClipboardContent {
            hex_view: Some("FF D8 FF".to_string()),
            text_view: None,
            mime_type: Some("image/jpeg".to_string()),
            size: 3,
            preview: Some("...".to_string()),
        })
    );
    assert_eq!(
        read_clipboard_readable(Ok(b"   ".to_vec())).unwrap().text_view,
        None
    );
}

#[test]
fn readable_content_of_a_failed_read_is_the_failure() {
    let failure = ClipboardError { kind: ErrorKind::NotFound, message: "No data in clipboard".to_string() };
    assert_eq!(
        read_clipboard_readable(Err(ClipboardError {
            kind: ErrorKind::NotFound,
            message: "No data in clipboard".to_string()
        })),
        Err(failure)
    );
}

#[test]
fn html_detection_agrees_with_searching_the_decoded_text() {
    let marker = b"<!DOCTYPE html>";
    let mut state: u32 = 0x2545_F491;
    let mut next = move || {
        state = state.wrapping_mul(1_664_525).wrapping_add(1_013_904_223);
        (state >> 16) as u8
    };
    for round in 0..400 {
        let mut data: Vec<u8> = vec![b' '];
        let length = (next() % 24) as usize;
        for _ in 0..length {
            let byte = next();
            data.push(if byte % 3 == 0 { marker[(byte as usize / 3) % marker.len()] } else { byte });
        }
        if round % 3 == 0 {
            let cut = (next() as usize) % (marker.len() + 1);
            data.extend_from_slice(&marker[..cut]);
            data.push(next());
            data.extend_from_slice(&marker[cut..]);
        }
        if round % 5 == 0 {
            data.extend_from_slice(marker);
        }
        let expected = String::from_utf8_lossy(&data).contains("<!DOCTYPE html>");
        assert_eq!(
            detect_mime_type(&data) == Some("text/html".to_string()),
            expected,
            "{:?}",
            data
        );
    }
}
