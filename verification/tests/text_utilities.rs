use electron_pan_clip::encoding::{push_utf16, utf16_to_chars};
use electron_pan_clip::text::{
    blank, chars_of, join_strings, push_decimal, push_signed_decimal, push_str, string_of,
    trim_range, whitespace,
};

fn trimmed(text: &str) -> String {
    let chars = chars_of(text);
    let (from, to) = trim_range(&chars, 0, chars.len());
    chars[from..to].iter().collect()
}

fn decimal(n: u64) -> String {
    let mut out = Vec::new();
    push_decimal(&mut out, n);
    string_of(&out)
}

fn signed(n: i32) -> String {
    let mut out = Vec::new();
    push_signed_decimal(&mut out, n);
    string_of(&out)
}

#[test]
fn chars_and_strings_convert_both_ways() {
    let text = "héllo, wörld \u{1F600}";
    let chars = chars_of(text);
    assert_eq!(chars, text.chars().collect::<Vec<char>>());
    assert_eq!(string_of(&chars), text);
    assert_eq!(string_of(&Vec::new()), "");
}

#[test]
fn join_puts_separator_between_neighbours() {
    let parts = vec!["a".to_string(), "b".to_string(), "c".to_string()];
    assert_eq!(join_strings(&parts, "; "), "a; b; c");
    assert_eq!(join_strings(&vec!["only".to_string()], "; "), "only");
    assert_eq!(join_strings(&Vec::new(), "; "), "");
    assert_eq!(join_strings(&vec![String::new(), String::new()], "\n"), "\n");
}

#[test]
fn whitespace_agrees_with_the_unicode_property() {
    let mut code: u32 = 0;
    while code <= 0x10FFFF {
        if let Some(c) = char::from_u32(code) {
            assert_eq!(whitespace(c), c.is_whitespace(), "U+{:04X}", code);
        }
        code += 1;
    }
}

#[test]
fn blank_texts_hold_only_whitespace() {
    assert!(blank(""));
    assert!(blank(" \t\r\n\u{3000}"));
    assert!(!blank("  x  "));
}

#[test]
fn trim_takes_whitespace_from_both_ends() {
    for text in ["", "   ", "a", "  a", "a  ", " a b ", "\t\r\nfile:///x \u{a0}", "\u{2003}x\u{2003}"] {
        assert_eq!(trimmed(text), text.trim(), "{:?}", text);
    }
    let chars = chars_of("ab  cd  ef");
    let (from, to) = trim_range(&chars, 2, 8);
    assert_eq!((from, to), (4, 6));
}

#[test]
fn numbers_are_written_in_decimal() {
    assert_eq!(decimal(0), "0");
    assert_eq!(decimal(7), "7");
    assert_eq!(decimal(10), "10");
    assert_eq!(decimal(1234567890), "1234567890");
    assert_eq!(decimal(u64::MAX), u64::MAX.to_string());
    assert_eq!(signed(0), "0");
    assert_eq!(signed(-1), "-1");
    assert_eq!(signed(i32::MIN), i32::MIN.to_string());
    assert_eq!(signed(i32::MAX), i32::MAX.to_string());
    let mut out = vec!['x'];
    push_str(&mut out, "yz");
    assert_eq!(string_of(&out), "xyz");
}

#[test]
fn utf16_encoding_agrees_with_std() {
    for text in ["", "abc", "héllo", "日本語", "a\u{1F600}b", "\u{10000}\u{10FFFF}\u{FFFF}\u{E000}\u{D7FF}"] {
        let mut units = Vec::new();
        push_utf16(&mut units, &chars_of(text));
        assert_eq!(units, text.encode_utf16().collect::<Vec<u16>>(), "{:?}", text);
        assert_eq!(string_of(&utf16_to_chars(&units)), text);
    }
    let mut units = vec![7u16];
    push_utf16(&mut units, &chars_of("A"));
    assert_eq!(units, vec![7u16, 65]);
}

#[test]
fn utf16_decoding_replaces_lone_surrogates() {
    let cases: Vec<Vec<u16>> = vec![
        vec![],
        vec![0x41, 0xD800],
        vec![0xD800, 0x41],
        vec![0xDC00, 0x41],
        vec![0xD800, 0xD800, 0xDC00],
        vec![0xD83D, 0xDE00],
        vec![0xDBFF, 0xDFFF],
        vec![0xDC00, 0xD800],
        vec![0xD800, 0xDC00, 0xDC00],
        vec![0x0000, 0xFFFF],
    ];
    for units in cases {
        assert_eq!(
            string_of(&utf16_to_chars(&units)),
            String::from_utf16_lossy(&units),
            "{:?}",
            units
        );
    }
}
