use http_type::{Request, RequestError};

fn decode(text: &str) -> Result<Request, RequestError> {
    Request::new(text.as_bytes())
}

#[test]
fn request_line_and_host_are_decoded() {
    let request = decode("GET /a/b?x=1#frag HTTP/1.1\r\nHost: h\r\n\r\n").unwrap();
    assert_eq!(request.method(), "GET");
    assert_eq!(request.path(), "/a/b");
    assert_eq!(request.query(), "x=1");
    assert_eq!(request.hash(), "frag");
    assert_eq!(request.host(), "h");
    assert_eq!(request.body(), Vec::<u8>::new());
    assert_eq!(request.headers().len(), 1);
    assert_eq!(request.headers().get("Host"), Some("h".to_string()));
}

#[test]
fn declared_body_is_read_exactly() {
    let request = decode("POST /p HTTP/1.1\r\nContent-Length: 5\r\n\r\nhello").unwrap();
    assert_eq!(request.body(), b"hello".to_vec());
    assert_eq!(request.headers().get("Content-Length"), Some("5".to_string()));
}

#[test]
fn bytes_after_the_declared_body_are_left() {
    let request = decode("POST /p HTTP/1.1\r\nContent-Length: 5\r\n\r\nhello world").unwrap();
    assert_eq!(request.body(), b"hello".to_vec());
}

#[test]
fn short_body_is_a_read_error() {
    match decode("POST /p HTTP/1.1\r\nContent-Length: 5\r\n\r\nhell") {
        Err(RequestError::HttpReadError(detail)) => {
            assert_eq!(detail, "failed to fill whole buffer")
        }
        other => panic!("unexpected: {:?}", other),
    }
}

#[test]
fn single_word_request_line_is_invalid() {
    match decode("BADLINE\r\n\r\n") {
        Err(RequestError::InvalidHttpRequest(line)) => assert_eq!(line, "BADLINE\r\n"),
        other => panic!("unexpected: {:?}", other),
    }
}

#[test]
fn two_word_request_line_is_invalid() {
    match decode("GET /\r\n\r\n") {
        Err(RequestError::InvalidHttpRequest(line)) => assert_eq!(line, "GET /\r\n"),
        other => panic!("unexpected: {:?}", other),
    }
}

#[test]
fn empty_stream_is_invalid() {
    match decode("") {
        Err(RequestError::InvalidHttpRequest(line)) => assert_eq!(line, ""),
        other => panic!("unexpected: {:?}", other),
    }
}

#[test]
fn request_line_that_is_not_utf8_is_a_read_error() {
    let stream: Vec<u8> = vec![b'G', b'E', b'T', b' ', 0xff, b' ', b'H', b'\r', b'\n'];
    match Request::new(&stream) {
        Err(RequestError::HttpReadError(detail)) => {
            assert_eq!(detail, "stream did not contain valid UTF-8")
        }
        other => panic!("unexpected: {:?}", other),
    }
}

#[test]
fn header_line_that_is_not_utf8_is_a_read_error() {
    let mut stream: Vec<u8> = b"GET / HTTP/1.1\r\nX: ".to_vec();
    stream.push(0xc3);
    stream.extend_from_slice(b"\r\n\r\n");
    match Request::new(&stream) {
        Err(RequestError::HttpReadError(detail)) => {
            assert_eq!(detail, "stream did not contain valid UTF-8")
        }
        other => panic!("unexpected: {:?}", other),
    }
}

#[test]
fn words_of_the_request_line_are_split_on_any_whitespace() {
    let request = decode("  GET\t\t/x\u{a0}HTTP/1.1 extra\r\n\r\n").unwrap();
    assert_eq!(request.method(), "GET");
    assert_eq!(request.path(), "/x");
}

#[test]
fn target_without_marks_is_all_path() {
    let request = decode("GET /only HTTP/1.1\r\n\r\n").unwrap();
    assert_eq!(request.path(), "/only");
    assert_eq!(request.query(), "");
    assert_eq!(request.hash(), "");
    assert_eq!(request.host(), "");
    assert!(request.headers().is_empty());
}

#[test]
fn fragment_ends_the_query() {
    let request = decode("GET /p?a=1&b=2#f?g#h HTTP/1.1\r\n\r\n").unwrap();
    assert_eq!(request.path(), "/p");
    assert_eq!(request.query(), "a=1&b=2");
    assert_eq!(request.hash(), "f?g#h");
}

#[test]
fn fragment_before_the_question_mark_leaves_no_query() {
    let request = decode("GET /p#f?q=1 HTTP/1.1\r\n\r\n").unwrap();
    assert_eq!(request.path(), "/p");
    assert_eq!(request.query(), "");
    assert_eq!(request.hash(), "f?q=1");
}

#[test]
fn empty_query_and_fragment_are_empty_strings() {
    let request = decode("GET /p?# HTTP/1.1\r\n\r\n").unwrap();
    assert_eq!(request.path(), "/p");
    assert_eq!(request.query(), "");
    assert_eq!(request.hash(), "");
}

#[test]
fn header_names_and_values_are_trimmed() {
    let request = decode("GET / HTTP/1.1\r\n  X-One :   spaced value  \r\n\r\n").unwrap();
    assert_eq!(request.headers().get("X-One"), Some("spaced value".to_string()));
}

#[test]
fn header_line_without_colon_and_space_is_skipped() {
    let request = decode("GET / HTTP/1.1\r\nnocolon\r\nA:b\r\nC: d\r\n\r\n").unwrap();
    assert_eq!(request.headers().len(), 1);
    assert_eq!(request.headers().get("C"), Some("d".to_string()));
}

#[test]
fn header_value_keeps_later_separators() {
    let request = decode("GET / HTTP/1.1\r\nA: b: c\r\n\r\n").unwrap();
    assert_eq!(request.headers().get("A"), Some("b: c".to_string()));
}

#[test]
fn later_header_of_the_same_name_wins() {
    let request = decode("GET / HTTP/1.1\r\nA: 1\r\nB: 2\r\nA: 3\r\n\r\n").unwrap();
    let headers = request.headers();
    assert_eq!(headers.len(), 2);
    assert_eq!(headers.get("A"), Some("3".to_string()));
    assert_eq!(headers.key_at(0), "A");
    assert_eq!(headers.key_at(1), "B");
}

#[test]
fn header_names_are_stored_as_written() {
    let request = decode("GET / HTTP/1.1\r\nhOsT: example\r\n\r\n").unwrap();
    assert_eq!(request.host(), "example");
    assert_eq!(request.headers().get("hOsT"), Some("example".to_string()));
    assert_eq!(request.headers().get("Host"), None);
}

#[test]
fn content_length_is_matched_in_any_case() {
    let request = decode("POST / HTTP/1.1\r\ncontent-LENGTH: 3\r\n\r\nabcdef").unwrap();
    assert_eq!(request.body(), b"abc".to_vec());
}

#[test]
fn content_length_that_is_no_number_means_no_body() {
    let request = decode("POST / HTTP/1.1\r\nContent-Length: five\r\n\r\nhello").unwrap();
    assert_eq!(request.body(), Vec::<u8>::new());
    let request = decode("POST / HTTP/1.1\r\nContent-Length: -1\r\n\r\nhello").unwrap();
    assert_eq!(request.body(), Vec::<u8>::new());
    let request =
        decode("POST / HTTP/1.1\r\nContent-Length: 99999999999999999999999\r\n\r\nhello").unwrap();
    assert_eq!(request.body(), Vec::<u8>::new());
}

#[test]
fn content_length_may_carry_a_plus_sign_and_zeros() {
    let request = decode("POST / HTTP/1.1\r\nContent-Length: +0002\r\n\r\nhello").unwrap();
    assert_eq!(request.body(), b"he".to_vec());
}

#[test]
fn later_content_length_replaces_the_earlier() {
    let request =
        decode("POST / HTTP/1.1\r\nContent-Length: 4\r\nContent-Length: x\r\n\r\nhello").unwrap();
    assert_eq!(request.body(), Vec::<u8>::new());
}

#[test]
fn header_block_may_end_with_the_stream() {
    let request = decode("GET / HTTP/1.1\r\nA: b").unwrap();
    assert_eq!(request.headers().get("A"), Some("b".to_string()));
    let request = decode("GET / HTTP/1.1").unwrap();
    assert!(request.headers().is_empty());
}

#[test]
fn line_of_blanks_ends_the_header_block() {
    let request = decode("GET / HTTP/1.1\r\nA: b\r\n \t \r\nC: d\r\n\r\n").unwrap();
    assert_eq!(request.headers().len(), 1);
}

#[test]
fn bare_line_feed_ends_a_line() {
    let request = decode("GET /x HTTP/1.1\nHost: h\nContent-Length: 2\n\nok").unwrap();
    assert_eq!(request.host(), "h");
    assert_eq!(request.body(), b"ok".to_vec());
}

#[test]
fn body_may_hold_any_bytes() {
    let mut stream: Vec<u8> = b"PUT / HTTP/1.1\r\nContent-Length: 3\r\n\r\n".to_vec();
    stream.extend_from_slice(&[0xff, 0x00, 0x0a]);
    let request = Request::new(&stream).unwrap();
    assert_eq!(request.body(), vec![0xff, 0x00, 0x0a]);
}

#[test]
fn text_beyond_ascii_is_decoded() {
    let request = decode("GET /caf\u{e9}?q=\u{4e2d} HTTP/1.1\r\nX-Name: J\u{fc}rgen\r\n\r\n").unwrap();
    assert_eq!(request.path(), "/caf\u{e9}");
    assert_eq!(request.query(), "q=\u{4e2d}");
    assert_eq!(request.headers().get("X-Name"), Some("J\u{fc}rgen".to_string()));
}

#[test]
fn request_errors_describe_themselves() {
    assert_eq!(
        RequestError::HttpReadError("boom".to_string()).to_string(),
        "Http read error: boom"
    );
    assert_eq!(
        RequestError::InvalidHttpRequest("x".to_string()).to_string(),
        "Invalid http request: x"
    );
    assert_eq!(RequestError::Unknown.to_string(), "Unknown");
}
