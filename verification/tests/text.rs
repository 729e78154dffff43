//! Lines of input: white space, trimming, and the datagram for a line.

use webtranscat::input::datagram_for_line;
use webtranscat::text::{is_white_space_char, trim_line};

#[test]
fn white_space_is_what_the_standard_library_says() {
    for code in 0..=0x10FFFFu32 {
        if let Some(c) = char::from_u32(code) {
            assert_eq!(is_white_space_char(c), c.is_whitespace(), "U+{code:04X}");
        }
    }
}

#[test]
fn white_space_has_twenty_five_members() {
    let count = (0..=0x10FFFFu32)
        .filter_map(char::from_u32)
        .filter(|c| is_white_space_char(*c))
        .count();
    assert_eq!(count, 25);
    for c in ['\t', '\n', '\u{0B}', '\u{0C}', '\r', ' ', '\u{85}', '\u{A0}', '\u{1680}'] {
        assert!(is_white_space_char(c));
    }
    for c in ['\u{2000}', '\u{200A}', '\u{2028}', '\u{2029}', '\u{202F}', '\u{205F}', '\u{3000}'] {
        assert!(is_white_space_char(c));
    }
    for c in ['a', '0', '\0', '\u{08}', '\u{0E}', '\u{1F}', '\u{200B}', '\u{180E}', '\u{FEFF}'] {
        assert!(!is_white_space_char(c));
    }
}

#[test]
fn trim_line_removes_the_line_terminator() {
    assert_eq!(trim_line("hello\n"), "hello");
    assert_eq!(trim_line("hello\r\n"), "hello");
    assert_eq!(trim_line("hello"), "hello");
}

#[test]
fn trim_line_removes_all_trailing_white_space() {
    assert_eq!(trim_line("hello \t \n"), "hello");
    assert_eq!(trim_line("hello\n\n\n"), "hello");
    assert_eq!(trim_line("hello\u{3000}\u{A0}\u{2028}\n"), "hello");
}

#[test]
fn trim_line_keeps_everything_else() {
    assert_eq!(trim_line("  leading stays\n"), "  leading stays");
    assert_eq!(trim_line("in  the \t middle\n"), "in  the \t middle");
    assert_eq!(trim_line("a\nb\n"), "a\nb");
    assert_eq!(trim_line("z\u{200B}\n"), "z\u{200B}");
}

#[test]
fn trim_line_of_white_space_is_empty() {
    assert_eq!(trim_line(""), "");
    assert_eq!(trim_line("\n"), "");
    assert_eq!(trim_line(" \t\r\n"), "");
    assert_eq!(trim_line("\u{2003}\u{205F}"), "");
}

#[test]
fn trim_line_agrees_with_the_standard_library() {
    let heads = ["", "a", "hello world", " x", "\u{e9}t\u{e9}", "\u{1F980} crab", "tab\there"];
    let tails = ["", "\n", "\r\n", " ", "  \n", "\t\n", "\u{85}", "\u{A0}\n", "\u{1680}", "\u{3000} \n"];
    for head in heads {
        for tail in tails {
            let line = format!("{head}{tail}");
            assert_eq!(trim_line(&line), line.trim_end(), "{line:?}");
        }
    }
}

#[test]
fn trim_line_agrees_with_the_standard_library_on_every_last_char() {
    for code in 0..=0x10FFFFu32 {
        if let Some(c) = char::from_u32(code) {
            let line = format!("ab{c}");
            assert_eq!(trim_line(&line), line.trim_end(), "U+{code:04X}");
        }
    }
}

#[test]
fn datagram_for_line_is_the_trimmed_text_in_utf8() {
    assert_eq!(datagram_for_line("hello\n").to_vec(), b"hello".to_vec());
    assert_eq!(datagram_for_line("hello\r\n").to_vec(), b"hello".to_vec());
    assert_eq!(datagram_for_line("\n").to_vec(), Vec::<u8>::new());
    assert_eq!(datagram_for_line("").to_vec(), Vec::<u8>::new());
    assert_eq!(
        datagram_for_line("gr\u{fc}\u{df}e \u{2713} \n").to_vec(),
        vec![0x67, 0x72, 0xC3, 0xBC, 0xC3, 0x9F, 0x65, 0x20, 0xE2, 0x9C, 0x93]
    );
    assert_eq!(datagram_for_line("\u{1F980}\u{3000}\n").to_vec(), vec![0xF0, 0x9F, 0xA6, 0x80]);
}

#[test]
fn datagram_for_line_begins_the_line() {
    for line in ["hello\n", "  a b  \r\n", "\u{e9}\u{A0}\n", "no end", " \n"] {
        let payload = datagram_for_line(line).to_vec();
        assert!(line.as_bytes().starts_with(&payload));
        let rest = std::str::from_utf8(&line.as_bytes()[payload.len()..]).unwrap();
        assert!(rest.chars().all(char::is_whitespace));
        assert!(!payload.ends_with(b"\n") && !payload.ends_with(b" "));
    }
}
