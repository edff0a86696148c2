use http_type::request::{parse_header_line, parse_target, NextRead};
use http_type::text::{
    all_ascii, chars_of, decimal_string, find_char, find_separator, lower_char, lowercase_ascii,
    parse_usize, same_ignoring_case, same_str, scan_run, string_of, trimmed, whitespace,
};
use http_type::{Headers, Request};

fn chars(s: &str) -> Vec<char> {
    s.chars().collect()
}

#[test]
fn whitespace_is_what_the_standard_library_calls_whitespace() {
    for code in 0..=0x10ffffu32 {
        if let Some(c) = char::from_u32(code) {
            assert_eq!(whitespace(c), c.is_whitespace(), "U+{:04X}", code);
        }
    }
}

#[test]
fn ascii_letters_are_lowered_like_the_standard_library_does() {
    for code in 0..=0x10ffffu32 {
        if let Some(c) = char::from_u32(code) {
            assert_eq!(lower_char(c), c.to_ascii_lowercase());
        }
    }
    assert_eq!(string_of(&lowercase_ascii(&chars("Content-TYPE \u{c9}"))), "content-type \u{c9}");
}

#[test]
fn texts_go_to_characters_and_back() {
    for text in ["", "a", "h\u{e9}llo \u{4e2d}\u{6587} \u{1f600}"] {
        assert_eq!(chars_of(text), chars(text));
        assert_eq!(string_of(&chars_of(text)), text);
    }
}

#[test]
fn texts_are_trimmed_like_the_standard_library_does() {
    for text in ["", " ", "a", "  a b  ", "\r\n", "\t x\u{a0}\u{3000}", "\u{2003}a\u{85}", "a  "] {
        assert_eq!(string_of(&trimmed(&chars(text))), text.trim(), "{:?}", text);
    }
}

#[test]
fn runs_of_blanks_and_words_are_scanned() {
    let line = chars("  ab  c");
    assert_eq!(scan_run(&line, 0, true), 2);
    assert_eq!(scan_run(&line, 2, false), 4);
    assert_eq!(scan_run(&line, 4, true), 6);
    assert_eq!(scan_run(&line, 6, false), 7);
    assert_eq!(scan_run(&line, 7, true), 7);
    assert_eq!(scan_run(&line, 2, true), 2);
}

#[test]
fn characters_and_separators_are_found() {
    assert_eq!(find_char(&chars("/a?b#c?d"), '?'), 2);
    assert_eq!(find_char(&chars("/a?b#c?d"), '#'), 4);
    assert_eq!(find_char(&chars("/a"), '#'), 2);
    assert_eq!(find_separator(&chars("a:b: c: d")), 3);
    assert_eq!(find_separator(&chars("a:b")), 3);
    assert_eq!(find_separator(&chars("a:")), 2);
    assert_eq!(find_separator(&chars(": ")), 0);
}

#[test]
fn numbers_are_read_like_the_standard_library_does() {
    let samples = [
        "", "0", "7", "42", "+42", "++42", "-42", "+", "-", " 42", "42 ", "4 2", "007", "+007",
        "18446744073709551615", "18446744073709551616", "18446744073709551620",
        "99999999999999999999999", "000000000000000000000000000001", "4294967295", "4294967296",
        "12a", "a12", "1_000", "٣", "0x10",
    ];
    for text in samples {
        assert_eq!(parse_usize(&chars(text)), text.parse::<usize>().ok(), "{:?}", text);
    }
}

#[test]
fn numbers_are_written_in_decimal() {
    for n in [0usize, 1, 9, 10, 11, 99, 100, 101, 200, 404, 4096, 65535, 1234567890, usize::MAX] {
        assert_eq!(decimal_string(n), n.to_string());
        assert_eq!(parse_usize(&chars(&decimal_string(n))), Some(n));
    }
}

#[test]
fn texts_are_told_apart() {
    assert!(same_str("abc", "abc"));
    assert!(!same_str("abc", "abd"));
    assert!(!same_str("abc", "ab"));
    assert!(same_str("", ""));
    assert!(same_ignoring_case(&chars("Content-Length"), &chars("cONTENT-lENGTH")));
    assert!(!same_ignoring_case(&chars("\u{c9}"), &chars("\u{e9}")));
    assert!(all_ascii(&chars("plain ~")));
    assert!(!all_ascii(&chars("caf\u{e9}")));
}

#[test]
fn target_is_split_into_its_parts() {
    let parts = |t: &str| parse_target(&chars(t));
    let s = |a: &str, b: &str, c: &str| (a.to_string(), b.to_string(), c.to_string());
    assert_eq!(parts("/a/b?x=1#frag"), s("/a/b", "x=1", "frag"));
    assert_eq!(parts("/a"), s("/a", "", ""));
    assert_eq!(parts("/a?"), s("/a", "", ""));
    assert_eq!(parts("/a#"), s("/a", "", ""));
    assert_eq!(parts("/a?x"), s("/a", "x", ""));
    assert_eq!(parts("/a#x"), s("/a", "", "x"));
    assert_eq!(parts("/a#x?y"), s("/a", "", "x?y"));
    assert_eq!(parts("/a?x?y#z#w"), s("/a", "x?y", "z#w"));
    assert_eq!(parts(""), s("", "", ""));
    assert_eq!(parts("?#"), s("", "", ""));
}

#[test]
fn header_line_is_split_at_its_first_separator() {
    let field = |line: &str| {
        parse_header_line(&chars(line)).map(|(k, v)| (string_of(&k), string_of(&v)))
    };
    assert_eq!(field("Host: h"), Some(("Host".to_string(), "h".to_string())));
    assert_eq!(field("A :  b : c"), Some(("A".to_string(), "b : c".to_string())));
    assert_eq!(field("A: b: c"), Some(("A".to_string(), "b: c".to_string())));
    assert_eq!(field(": v"), Some(("".to_string(), "v".to_string())));
    assert_eq!(field("A:b"), None);
    assert_eq!(field("A:"), None);
    assert_eq!(field("no separator"), None);
    assert_eq!(field(""), None);
}

#[test]
fn header_map_keeps_the_order_of_insertion() {
    let mut headers = Headers::new();
    assert!(headers.is_empty());
    headers.insert("b".to_string(), "1".to_string());
    headers.insert("a".to_string(), "2".to_string());
    headers.insert("b".to_string(), "3".to_string());
    assert_eq!(headers.len(), 2);
    assert_eq!(headers.key_at(0), "b");
    assert_eq!(headers.value_at(0), "3");
    assert_eq!(headers.key_at(1), "a");
    assert_eq!(headers.value_at(1), "2");
    assert!(headers.contains_key("a"));
    assert!(!headers.contains_key("A"));
    assert_eq!(headers.get("b"), Some("3".to_string()));
    assert_eq!(headers.get("c"), None);
    let copy = headers.clone();
    headers.clear();
    assert!(headers.is_empty());
    assert_eq!(copy.to_vec(), vec![
        ("b".to_string(), "3".to_string()),
        ("a".to_string(), "2".to_string()),
    ]);
}

#[test]
fn reader_is_told_what_to_take_next() {
    let next = |s: &str| Request::next_read(s.as_bytes());
    assert_eq!(next(""), NextRead::Line);
    assert_eq!(next("GET / HTTP/1.1\r\n"), NextRead::Line);
    assert_eq!(next("GET / HTTP/1.1\r\nHost: h\r\n"), NextRead::Line);
    assert_eq!(next("GET / HTTP/1.1\r\nHost: h\r\n\r\n"), NextRead::Nothing);
    assert_eq!(next("GET / HTTP/1.1\r\nContent-Length: 5\r\n"), NextRead::Line);
    assert_eq!(next("GET / HTTP/1.1\r\nContent-Length: 5\r\n\r\n"), NextRead::Exact(5));
    assert_eq!(next("GET / HTTP/1.1\r\nContent-Length: 5\r\n\r\nhe"), NextRead::Exact(3));
    assert_eq!(next("GET / HTTP/1.1\r\nContent-Length: 5\r\n\r\nhello"), NextRead::Nothing);
    assert_eq!(next("GET / HTTP/1.1\r\nContent-Length: 5\r\n\r\nhello!"), NextRead::Nothing);
    assert_eq!(next("GET / HTTP/1.1\r\nContent-Length: 2\r\n\r\n\n"), NextRead::Exact(1));
    assert_eq!(next("GET / HT"), NextRead::Nothing);
    assert_eq!(next("BADLINE\r\n"), NextRead::Nothing);
    assert_eq!(next("GET / HTTP/1.1\r\nHost: h"), NextRead::Nothing);
    assert_eq!(next("GET / HTTP/1.1\r\n  "), NextRead::Nothing);
    assert_eq!(Request::next_read(b"GET / HTTP/1.1\r\nX: \xff\r\n"), NextRead::Nothing);
}

#[test]
fn reader_that_follows_the_decoder_ends_with_the_request() {
    let stream: &[u8] = b"POST /p?q#f HTTP/1.1\r\nHost: h\r\nContent-Length: 4\r\n\r\nbodyNEXT";
    let mut taken: Vec<u8> = Vec::new();
    let mut at = 0;
    loop {
        match Request::next_read(&taken) {
            NextRead::Line => {
                let end = stream[at..].iter().position(|b| *b == b'\n').map(|i| at + i + 1);
                let end = end.unwrap_or(stream.len());
                if end == at {
                    break;
                }
                taken.extend_from_slice(&stream[at..end]);
                at = end;
            }
            NextRead::Exact(count) => {
                taken.extend_from_slice(&stream[at..at + count]);
                at += count;
            }
            NextRead::Nothing => break,
        }
    }
    assert_eq!(at, stream.len() - 4);
    let request = Request::new(&taken).unwrap();
    assert_eq!(request.body(), b"body".to_vec());
    assert_eq!(request.path(), "/p");
    assert_eq!(request.host(), "h");
}
