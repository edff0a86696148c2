use http_compress::Compress;
use http_type::{HttpVersion, Request, Response, ResponseError};

fn text(bytes: &[u8]) -> String {
    String::from_utf8(bytes.to_vec()).unwrap()
}

fn count(haystack: &str, needle: &str) -> usize {
    haystack.matches(needle).count()
}

#[test]
fn default_response_is_built_with_defaults() {
    let mut response = Response::default();
    let bytes = response.build();
    assert_eq!(
        text(&bytes),
        "HTTP/1.1 200 OK\r\nConnection: keep-alive\r\n\
         Content-Type: text/html; charset=utf-8\r\nContent-Length: 0\r\n\r\n"
    );
}

#[test]
fn default_response_with_body_counts_its_bytes() {
    let mut response = Response::new();
    response.set_body("h\u{e9}llo".as_bytes().to_vec());
    let built = text(&response.build());
    assert!(built.starts_with("HTTP/1.1 200 OK\r\n"));
    assert_eq!(count(&built, "Connection: keep-alive\r\n"), 1);
    assert_eq!(count(&built, "Content-Type: text/html; charset=utf-8\r\n"), 1);
    assert_eq!(count(&built, "Content-Length: 6\r\n"), 1);
    assert!(built.ends_with("\r\n\r\nh\u{e9}llo"));
}

#[test]
fn event_stream_has_no_content_length() {
    let mut response = Response::new();
    response.set_header("Content-Type", "text/event-stream").set_body(b"data: 1\n\n".to_vec());
    let built = text(&response.build());
    assert_eq!(
        built,
        "HTTP/1.1 200 OK\r\ncontent-type: text/event-stream\r\n\
         Connection: keep-alive\r\n\r\ndata: 1\n\n"
    );
    assert_eq!(count(&built.to_lowercase(), "content-length"), 0);
}

#[test]
fn event_stream_is_matched_in_any_case() {
    let mut response = Response::new();
    response.set_header("content-type", "Text/Event-Stream");
    let built = text(&response.build());
    assert_eq!(count(&built.to_lowercase(), "content-length"), 0);
}

#[test]
fn headers_are_sent_in_order_under_lower_case_names() {
    let mut response = Response::new();
    response
        .set_header("X-B", "2")
        .set_header("X-A", "1")
        .set_header("Connection", "close")
        .set_body(b"ok".to_vec());
    assert_eq!(
        text(&response.build()),
        "HTTP/1.1 200 OK\r\nx-b: 2\r\nx-a: 1\r\nconnection: close\r\n\
         Content-Type: text/html; charset=utf-8\r\nContent-Length: 2\r\n\r\nok"
    );
}

#[test]
fn content_length_of_the_caller_is_replaced() {
    let mut response = Response::new();
    response.set_header("Content-Length", "999").set_body(b"abc".to_vec());
    let built = text(&response.build());
    assert_eq!(count(&built, "999"), 0);
    assert_eq!(count(&built.to_lowercase(), "content-length"), 1);
    assert_eq!(count(&built, "Content-Length: 3\r\n"), 1);
}

#[test]
fn names_that_differ_in_case_are_merged() {
    let mut response = Response::new();
    response.set_header("X-Id", "first").set_header("Other", "o").set_header("x-id", "second");
    assert_eq!(
        text(&response.build()),
        "HTTP/1.1 200 OK\r\nx-id: second\r\nother: o\r\nConnection: keep-alive\r\n\
         Content-Type: text/html; charset=utf-8\r\nContent-Length: 0\r\n\r\n"
    );
}

#[test]
fn names_beyond_ascii_are_lowered_by_unicode() {
    let mut response = Response::new();
    response.set_header("X-\u{c9}T\u{c9}", "v");
    let built = text(&response.build());
    assert_eq!(count(&built, "x-\u{e9}t\u{e9}: v\r\n"), 1);
}

#[test]
fn reason_phrase_comes_from_the_status_code() {
    let mut response = Response::new();
    response.set_status_code(404);
    assert_eq!(response.get_reason_phrase(), "");
    let built = text(&response.build());
    assert!(built.starts_with("HTTP/1.1 404 Not Found\r\n"));
    assert_eq!(response.get_reason_phrase(), "Not Found");
}

#[test]
fn reason_phrase_of_an_unregistered_code_is_unknown() {
    let mut response = Response::new();
    response.set_status_code(299);
    assert!(text(&response.build()).starts_with("HTTP/1.1 299 Unknown\r\n"));
}

#[test]
fn reason_phrase_of_the_caller_is_kept() {
    let mut response = Response::new();
    response.set_status_code(404).set_reason_phrase("Nope").set_version(HttpVersion::HTTP1_0);
    assert!(text(&response.build()).starts_with("HTTP/1.0 404 Nope\r\n"));
    assert_eq!(response.get_reason_phrase(), "Nope");
}

#[test]
fn build_empties_the_header_map() {
    let mut response = Response::new();
    response.set_header("A", "b").set_body(b"x".to_vec());
    let first = response.build();
    assert!(response.get_headers().is_empty());
    assert_eq!(response.get_body(), &b"x".to_vec());
    let second = text(&response.build());
    assert_eq!(count(&text(&first), "a: b\r\n"), 1);
    assert_eq!(count(&second, "a: b\r\n"), 0);
}

fn split_head(bytes: &[u8]) -> (String, Vec<u8>) {
    let at = bytes.windows(4).position(|w| w == b"\r\n\r\n").unwrap();
    (text(&bytes[..at + 4]), bytes[at + 4..].to_vec())
}

#[test]
fn gzip_body_is_compressed() {
    let body: Vec<u8> = b"aaaaaaaaaaaaaaaaaaaaaaaaaaaaaaaaaaaaaaaaaaaaaaaaaaaaaaaaaaaaaaaa".to_vec();
    let mut response = Response::new();
    response.set_header("Content-Encoding", "gzip").set_body(body.clone());
    let (head, sent) = split_head(&response.build());
    assert_ne!(sent, body);
    assert_eq!(sent, Compress::Gzip.encode(&body, 4096).into_owned());
    assert_eq!(Compress::Gzip.decode(&sent, 4096).into_owned(), body);
    assert_eq!(count(&head, &format!("Content-Length: {}\r\n", sent.len())), 1);
    assert_eq!(count(&head, "content-encoding: gzip\r\n"), 1);
    assert_eq!(response.get_body(), &body);
}

#[test]
fn coding_name_is_matched_in_any_case() {
    let body: Vec<u8> = vec![7u8; 200];
    let mut response = Response::new();
    response.set_header("content-encoding", "DeFlAtE").set_body(body.clone());
    let (_, sent) = split_head(&response.build());
    assert_eq!(Compress::Deflate.decode(&sent, 4096).into_owned(), body);
    assert_ne!(sent, body);
}

#[test]
fn brotli_body_is_compressed() {
    let body: Vec<u8> = vec![b'z'; 300];
    let mut response = Response::new();
    response.set_header("Content-Encoding", "br").set_body(body.clone());
    let (head, sent) = split_head(&response.build());
    assert_eq!(Compress::Br.decode(&sent, 4096).into_owned(), body);
    assert_eq!(count(&head, &format!("Content-Length: {}\r\n", sent.len())), 1);
}

#[test]
fn unknown_coding_leaves_the_body() {
    let mut response = Response::new();
    response.set_header("Content-Encoding", "zstd").set_body(b"plain".to_vec());
    let (head, sent) = split_head(&response.build());
    assert_eq!(sent, b"plain".to_vec());
    assert_eq!(count(&head, "Content-Length: 5\r\n"), 1);
}

#[test]
fn event_stream_is_never_compressed() {
    let mut response = Response::new();
    response
        .set_header("Content-Encoding", "gzip")
        .set_header("Content-Type", "text/event-stream")
        .set_body(b"data".to_vec());
    let (_, sent) = split_head(&response.build());
    assert_eq!(sent, b"data".to_vec());
}

#[test]
fn header_block_survives_encoding_and_decoding() {
    let mut response = Response::new();
    response
        .set_header("X-Request-Id", "abc: 123")
        .set_header("Content-Type", "application/json")
        .set_header("Set-Cookie", "a=b; Path=/")
        .set_body(b"{}".to_vec());
    let bytes = response.build();
    let decoded = Request::new(&bytes).unwrap();
    let headers = decoded.headers();
    assert_eq!(headers.get("x-request-id"), Some("abc: 123".to_string()));
    assert_eq!(headers.get("content-type"), Some("application/json".to_string()));
    assert_eq!(headers.get("set-cookie"), Some("a=b; Path=/".to_string()));
    assert_eq!(headers.get("Connection"), Some("keep-alive".to_string()));
    assert_eq!(headers.get("Content-Length"), Some("2".to_string()));
    assert_eq!(decoded.body(), b"{}".to_vec());
}

#[test]
fn headers_are_read_back_exactly_as_set() {
    let mut response = Response::new();
    response.set_header("A", "1").set_header("a", "2").set_header("A", "3");
    assert_eq!(response.get_header("A"), Some("3".to_string()));
    assert_eq!(response.get_header("a"), Some("2".to_string()));
    assert_eq!(response.get_header("b"), None);
    assert_eq!(response.get_headers().len(), 2);
    assert_eq!(response.get_headers().to_vec(), vec![
        ("A".to_string(), "3".to_string()),
        ("a".to_string(), "2".to_string()),
    ]);
}

#[test]
fn body_text_replaces_malformed_bytes() {
    let mut response = Response::new();
    response.set_body(b"ok".to_vec());
    assert_eq!(response.get_body_string(), "ok");
    response.set_body(vec![b'a', 0xff, b'b']);
    assert_eq!(response.get_body_string(), "a\u{fffd}b");
}

#[test]
fn summary_lists_the_response() {
    let mut response = Response::new();
    assert_eq!(
        response.get_string(),
        "[Response] => [version]: HTTP/1.1; [status code]: 200; [reason]: ; [headers]: {}; \
         [body]: 0 bytes plain;"
    );
    response
        .set_status_code(500)
        .set_reason_phrase("Oops")
        .set_header("A", "say \"hi\"")
        .set_header("B", "2")
        .set_body(vec![0xff, 0xfe, 0xfd]);
    assert_eq!(
        response.get_string(),
        "[Response] => [version]: HTTP/1.1; [status code]: 500; [reason]: Oops; \
         [headers]: {\"A\": \"say \\\"hi\\\"\", \"B\": \"2\"}; [body]: 3 bytes binary;"
    );
}

#[test]
fn getters_show_what_was_set() {
    let mut response = Response::new();
    assert_eq!(response.get_version(), &HttpVersion::HTTP1_1);
    assert_eq!(response.get_status_code(), 200);
    response.set_version(HttpVersion::HTTP2).set_status_code(204);
    assert_eq!(response.get_version(), &HttpVersion::HTTP2);
    assert_eq!(response.get_status_code(), 204);
}

#[test]
fn response_errors_describe_themselves() {
    assert_eq!(
        ResponseError::ResponseError("closed".to_string()).to_string(),
        "Response Error: closed"
    );
    assert_eq!(ResponseError::Unknown.to_string(), "Unknown");
}

#[test]
fn header_with_an_empty_value_is_not_read_back() {
    let mut response = Response::new();
    response.set_header("X-Empty", "").set_header("X-Full", "v");
    let bytes = response.build();
    assert_eq!(count(&text(&bytes), "x-empty: \r\n"), 1);
    let decoded = Request::new(&bytes).unwrap();
    assert_eq!(decoded.headers().get("x-empty"), None);
    assert_eq!(decoded.headers().get("x-full"), Some("v".to_string()));
}

#[test]
fn later_spelling_of_content_type_decides() {
    let mut response = Response::new();
    response
        .set_header("Content-Type", "text/plain")
        .set_header("content-type", "text/plain")
        .set_header("Content-Type", "text/event-stream");
    let built = text(&response.build());
    assert_eq!(count(&built, "content-type: text/plain\r\n"), 1);
    assert_eq!(count(&built, "Content-Length: 0\r\n"), 1);
}

#[test]
fn response_is_read_back_as_a_message() {
    let mut response = Response::new();
    response.set_status_code(201).set_header("Location", "/things/1").set_body(b"made".to_vec());
    let bytes = response.build();
    assert_eq!(Request::next_read(&bytes), http_type::request::NextRead::Nothing);
    let decoded = Request::new(&bytes).unwrap();
    assert_eq!(decoded.method(), "HTTP/1.1");
    assert_eq!(decoded.path(), "201");
    assert_eq!(decoded.headers().to_vec(), vec![
        ("location".to_string(), "/things/1".to_string()),
        ("Connection".to_string(), "keep-alive".to_string()),
        ("Content-Type".to_string(), "text/html; charset=utf-8".to_string()),
        ("Content-Length".to_string(), "4".to_string()),
    ]);
    assert_eq!(decoded.body(), b"made".to_vec());
}
