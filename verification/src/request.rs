//! Requests, and the decoder that reads one from the bytes of a stream.
//!
//! The stream is modelled by the bytes it will deliver: a line read takes
//! the bytes up to and including the next line feed (or what is left), an
//! exact read takes a given number of bytes or fails.

use vstd::prelude::*;
use vstd::slice::*;
use vstd::string::*;
use vstd::utf8::*;
use crate::headers::{
    distinct_keys, key_position, with_field, Field, Headers, lemma_key_position_from,
    lemma_with_field,
};
use crate::text::{
    chars_of, find_char, find_separator, parse_usize, parsed_usize, position,
    same_ignoring_ascii_case, same_ignoring_case, scan_run, separator_from, string_between,
    string_of, trim, trim_bounds, words, words_from,
    lemma_position_from, lemma_words_from,
};
use crate::trusted::utf8_text;

verus! {

/// Why a request could not be read.
#[derive(Debug)]
pub enum Error {
    /// The stream failed, ended early or held text that is not UTF-8.
    HttpReadError(String),
    /// The request line names fewer than three words; the line is kept.
    InvalidHttpRequest(String),
    /// No further detail is known.
    Unknown,
}

/// An [`Error`] as mathematics sees it.
pub enum ErrorView {
    HttpReadError(Seq<char>),
    InvalidHttpRequest(Seq<char>),
    Unknown,
}

impl View for Error {
    type V = ErrorView;

    open spec fn view(&self) -> ErrorView {
        match self {
            Error::HttpReadError(detail) => ErrorView::HttpReadError(detail@),
            Error::InvalidHttpRequest(detail) => ErrorView::InvalidHttpRequest(detail@),
            Error::Unknown => ErrorView::Unknown,
        }
    }
}

/// The text that describes an error.
pub open spec fn error_text(e: ErrorView) -> Seq<char> {
    match e {
        ErrorView::HttpReadError(detail) => "Http read error: "@ + detail,
        ErrorView::InvalidHttpRequest(detail) => "Invalid http request: "@ + detail,
        ErrorView::Unknown => "Unknown"@,
    }
}

impl Error {
    /// A description of the error, for people to read.
    pub fn to_string(&self) -> (r: String)
        ensures
            r@ == error_text(self@),
    {
        match self {
            Error::HttpReadError(detail) => {
                let mut r = "Http read error: ".to_string();
                r.append(detail.as_str());
                r
            },
            Error::InvalidHttpRequest(detail) => {
                let mut r = "Invalid http request: ".to_string();
                r.append(detail.as_str());
                r
            },
            Error::Unknown => "Unknown".to_string(),
        }
    }
}

/// The detail of the error for a line that is not UTF-8.
pub open spec fn invalid_text_detail() -> Seq<char> {
    "stream did not contain valid UTF-8"@
}

/// The detail of the error for a body that ends early.
pub open spec fn short_body_detail() -> Seq<char> {
    "failed to fill whole buffer"@
}

/// A request as mathematics sees it.
pub struct RequestView {
    pub method: Seq<char>,
    pub host: Seq<char>,
    pub path: Seq<char>,
    pub query: Seq<char>,
    pub hash: Seq<char>,
    pub headers: Seq<Field>,
    pub body: Seq<u8>,
}

/// The three parts of a request target.
pub struct Target {
    pub path: Seq<char>,
    pub query: Seq<char>,
    pub hash: Seq<char>,
}

/// The parts of the request target `t`. The fragment is what follows the
/// first `#`. The path ends before the first `?` or `#`, whichever comes
/// first. The query runs from the first `?` to the fragment mark, and is
/// empty where a fragment mark comes before the first `?`.
pub open spec fn split_target(t: Seq<char>) -> Target {
    let h = position(t, '#');
    let q = position(t, '?');
    Target {
        path: t.subrange(0, if q < h { q } else { h }),
        query: if q < h {
            t.subrange(q + 1, h)
        } else {
            Seq::empty()
        },
        hash: if h < t.len() {
            t.subrange(h + 1, t.len() as int)
        } else {
            Seq::empty()
        },
    }
}

/// The path of a target holds neither mark, and its query no fragment mark;
/// a target without question mark has an empty query, one without fragment
/// mark an empty fragment, and one without either is all path.
pub proof fn law_target_parts(t: Seq<char>)
    ensures
        !split_target(t).path.contains('?'),
        !split_target(t).path.contains('#'),
        !split_target(t).query.contains('#'),
        position(t, '?') == t.len() ==> split_target(t).query.len() == 0,
        position(t, '#') == t.len() ==> split_target(t).hash.len() == 0,
        position(t, '?') == t.len() && position(t, '#') == t.len() ==> split_target(t).path == t,
{
    lemma_position_from(t, '#', 0);
    lemma_position_from(t, '?', 0);
    let h = position(t, '#');
    let q = position(t, '?');
    let path = split_target(t).path;
    let query = split_target(t).query;
    assert forall|i: int| 0 <= i < path.len() implies path[i] != '?' && path[i] != '#' by {
        assert(path[i] == t[i]);
    }
    assert forall|i: int| 0 <= i < query.len() implies query[i] != '#' by {
        assert(query[i] == t[q + 1 + i]);
    }
    if q == t.len() && h == t.len() {
        assert(path == t);
    }
}

/// The field that a header line holds: the trimmed texts before and after
/// its first colon-and-space, or nothing where the line has none. The line
/// itself is taken as trimmed already.
pub open spec fn header_field(line: Seq<char>) -> Option<Field> {
    let i = separator_from(line, 0);
    if i < line.len() {
        Some((trim(line.subrange(0, i)), trim(line.subrange(i + 2, line.len() as int))))
    } else {
        None
    }
}

/// What the header lines read so far have said.
pub struct HeaderBlock {
    pub fields: Seq<Field>,
    pub host: Seq<char>,
    pub content_length: usize,
}

/// The length that a `Content-Length` value declares; 0 where it is no number.
pub open spec fn declared_length(value: Seq<char>) -> usize {
    match parsed_usize(value) {
        Some(n) => n,
        None => 0,
    }
}

/// `block` after one more header line, already trimmed. A line without a
/// field changes nothing. A field is set in the map; `Host` and
/// `Content-Length`, in any case of letters, are noted as well.
pub open spec fn with_header_line(block: HeaderBlock, line: Seq<char>) -> HeaderBlock {
    match header_field(line) {
        None => block,
        Some(field) => HeaderBlock {
            fields: with_field(block.fields, field.0, field.1),
            host: if same_ignoring_ascii_case(field.0, "host"@) {
                field.1
            } else {
                block.host
            },
            content_length: if same_ignoring_ascii_case(field.0, "content-length"@) {
                declared_length(field.1)
            } else {
                block.content_length
            },
        },
    }
}

/// One past the first line feed at or after `from`, or the length of `s`:
/// where a line read that starts at `from` ends.
pub open spec fn line_end(s: Seq<u8>, from: int) -> int
    decreases s.len() - from,
{
    if 0 <= from < s.len() {
        if s[from] == 0x0a {
            from + 1
        } else {
            line_end(s, from + 1)
        }
    } else {
        from
    }
}

/// A line ends within the stream, and after its start unless the stream
/// has ended.
pub proof fn lemma_line_end(s: Seq<u8>, from: int)
    requires
        0 <= from <= s.len(),
    ensures
        from <= line_end(s, from) <= s.len(),
        from < s.len() ==> from < line_end(s, from),
    decreases s.len() - from,
{
    if from < s.len() && s[from] != 0x0a {
        lemma_line_end(s, from + 1);
    }
}

/// The header block read from `s`, starting at `from` with `block` in hand:
/// the block at the first line that is empty once trimmed, or at the end of
/// the stream, with the position after that line. A line that is not UTF-8
/// is an error.
pub open spec fn read_headers(s: Seq<u8>, from: int, block: HeaderBlock) -> Result<
    (HeaderBlock, int),
    ErrorView,
>
    decreases s.len() - from,
{
    if 0 <= from < s.len() {
        let end = line_end(s, from);
        let raw = s.subrange(from, end);
        if !valid_utf8(raw) {
            Err(ErrorView::HttpReadError(invalid_text_detail()))
        } else {
            let line = trim(decode_utf8(raw));
            if line.len() == 0 {
                Ok((block, end))
            } else {
                proof {
                    lemma_line_end(s, from);
                }
                read_headers(s, end, with_header_line(block, line))
            }
        }
    } else {
        Ok((block, from))
    }
}

/// The header block before any line was read.
pub open spec fn empty_block() -> HeaderBlock {
    HeaderBlock { fields: Seq::empty(), host: Seq::empty(), content_length: 0 }
}

/// What a request line says, and where it ends in the stream.
pub struct RequestLine {
    pub method: Seq<char>,
    pub target: Target,
    pub end: int,
}

/// The request line that the stream `s` starts with: its first word is the
/// method, its second the target. A line of fewer than three words is
/// rejected with the line itself, a line that is not UTF-8 as a read error.
pub open spec fn read_request_line(s: Seq<u8>) -> Result<RequestLine, ErrorView> {
    let end = line_end(s, 0);
    let raw = s.subrange(0, end);
    if !valid_utf8(raw) {
        Err(ErrorView::HttpReadError(invalid_text_detail()))
    } else {
        let line = decode_utf8(raw);
        let w = words(line);
        if w.len() < 3 {
            Err(ErrorView::InvalidHttpRequest(line))
        } else {
            Ok(RequestLine { method: w[0], target: split_target(w[1]), end: end })
        }
    }
}

/// The request that the stream `s` holds, or the error that reading it gives.
pub open spec fn decoded(s: Seq<u8>) -> Result<RequestView, ErrorView> {
    match read_request_line(s) {
        Err(e) => Err(e),
        Ok(first) => match read_headers(s, first.end, empty_block()) {
            Err(e) => Err(e),
            Ok((block, body_start)) => {
                if block.content_length > s.len() - body_start {
                    Err(ErrorView::HttpReadError(short_body_detail()))
                } else {
                    Ok(
                        RequestView {
                            method: first.method,
                            host: block.host,
                            path: first.target.path,
                            query: first.target.query,
                            hash: first.target.hash,
                            headers: block.fields,
                            body: s.subrange(body_start, body_start + block.content_length),
                        },
                    )
                }
            },
        },
    }
}

/// Reading header lines keeps the names of the fields distinct, and ends
/// within the stream.
pub proof fn lemma_read_headers_distinct(s: Seq<u8>, from: int, block: HeaderBlock)
    requires
        distinct_keys(block.fields),
        0 <= from <= s.len(),
    ensures
        read_headers(s, from, block) matches Ok(found) ==> distinct_keys(found.0.fields) && from
            <= found.1 <= s.len(),
    decreases s.len() - from,
{
    if 0 <= from < s.len() {
        lemma_line_end(s, from);
        let end = line_end(s, from);
        let raw = s.subrange(from, end);
        if valid_utf8(raw) {
            let line = trim(decode_utf8(raw));
            if line.len() != 0 {
                lemma_line_end(s, from);
                match header_field(line) {
                    Some(field) => {
                        lemma_with_field(block.fields, field.0, field.1);
                    },
                    None => {},
                }
                lemma_read_headers_distinct(s, end, with_header_line(block, line));
            }
        }
    }
}

/// Whether one of `fields` is named `Content-Length`, in any case of letters.
pub open spec fn declares_length(fields: Seq<Field>) -> bool {
    exists|i: int|
        0 <= i < fields.len() && same_ignoring_ascii_case(
            (#[trigger] fields[i]).0,
            "content-length"@,
        )
}

/// Reading header lines notes no content length without a header for it.
pub proof fn lemma_read_headers_length(s: Seq<u8>, from: int, block: HeaderBlock)
    requires
        block.content_length > 0 ==> declares_length(block.fields),
    ensures
        read_headers(s, from, block) matches Ok(found) ==> (found.0.content_length > 0
            ==> declares_length(found.0.fields)),
    decreases s.len() - from,
{
    if 0 <= from < s.len() {
        let end = line_end(s, from);
        let raw = s.subrange(from, end);
        if valid_utf8(raw) {
            let line = trim(decode_utf8(raw));
            if line.len() != 0 {
                lemma_line_end(s, from);
                let next = with_header_line(block, line);
                match header_field(line) {
                    Some(field) => {
                        lemma_key_position_from(block.fields, field.0, 0);
                        let p = key_position(block.fields, field.0);
                        assert(next.fields[p] == field);
                        if declares_length(block.fields) {
                            let i = choose|i: int|
                                0 <= i < block.fields.len() && same_ignoring_ascii_case(
                                    (#[trigger] block.fields[i]).0,
                                    "content-length"@,
                                );
                            assert(next.fields[i].0 == block.fields[i].0);
                        }
                    },
                    None => {},
                }
                lemma_read_headers_length(s, end, next);
            }
        }
    }
}

/// In a request that was decoded, the method is not empty, the path holds
/// neither `?` nor `#`, the query holds no `#`, no two headers share a
/// name, and the body is empty unless a header declares its length.
pub proof fn law_decoded_request(s: Seq<u8>)
    ensures
        decoded(s) matches Ok(request) ==> {
            &&& request.method.len() > 0
            &&& !request.path.contains('?')
            &&& !request.path.contains('#')
            &&& !request.query.contains('#')
            &&& distinct_keys(request.headers)
            &&& (request.body.len() > 0 ==> declares_length(request.headers))
        },
{
    match read_request_line(s) {
        Ok(first) => {
            let line = decode_utf8(s.subrange(0, line_end(s, 0)));
            law_target_parts(words(line)[1]);
            lemma_words_from(line, 0);
            lemma_line_end(s, 0);
            lemma_read_headers_distinct(s, first.end, empty_block());
            lemma_read_headers_length(s, first.end, empty_block());
        },
        Err(_) => {},
    }
}

/// Whether the header lines of `s` from `from` on reach a line that is
/// empty once trimmed: whether the header block is closed within `s`.
pub open spec fn block_closed(s: Seq<u8>, from: int) -> bool
    decreases s.len() - from,
{
    if 0 <= from < s.len() {
        let end = line_end(s, from);
        let raw = s.subrange(from, end);
        if !valid_utf8(raw) {
            false
        } else if trim(decode_utf8(raw)).len() == 0 {
            true
        } else {
            proof {
                lemma_line_end(s, from);
            }
            block_closed(s, end)
        }
    } else {
        false
    }
}

/// What a reader is to take from its stream next.
#[derive(Debug, Clone, Copy, PartialEq, Eq, Structural)]
pub enum NextRead {
    /// One line: the bytes up to and including the next line feed.
    Line,
    /// Exactly this many bytes.
    Exact(usize),
    /// Nothing: what was taken holds the request, or shows the error.
    Nothing,
}

/// Whether the last byte of `s` is a line feed.
pub open spec fn ends_with_line_feed(s: Seq<u8>) -> bool {
    s.len() > 0 && s.last() == 0x0a
}

/// What a reader that has taken `s` from its stream is to take next, so
/// that it ends with the bytes of one request. It takes lines up to the
/// blank line, then the rest of the body that the headers declare. It
/// stops at once where a line is in error, or came without line feed,
/// which shows that the stream has ended.
pub open spec fn next_read(s: Seq<u8>) -> NextRead {
    if s.len() == 0 {
        NextRead::Line
    } else if !ends_with_line_feed(s.subrange(0, line_end(s, 0))) {
        NextRead::Nothing
    } else {
        match read_request_line(s) {
            Err(_) => NextRead::Nothing,
            Ok(first) => match read_headers(s, first.end, empty_block()) {
                Err(_) => NextRead::Nothing,
                Ok((block, body_start)) => {
                    if block_closed(s, first.end) {
                        if block.content_length > s.len() - body_start {
                            NextRead::Exact(
                                (block.content_length - (s.len() - body_start)) as usize,
                            )
                        } else {
                            NextRead::Nothing
                        }
                    } else if ends_with_line_feed(s) {
                        NextRead::Line
                    } else {
                        NextRead::Nothing
                    }
                },
            },
        }
    }
}

/// A request: what its request line and header lines said, and its body.
#[derive(Debug)]
pub struct Request {
    method: String,
    host: String,
    path: String,
    query: String,
    hash: String,
    headers: Headers,
    body: Vec<u8>,
}

impl View for Request {
    type V = RequestView;

    closed spec fn view(&self) -> RequestView {
        RequestView {
            method: self.method@,
            host: self.host@,
            path: self.path@,
            query: self.query@,
            hash: self.hash@,
            headers: self.headers@,
            body: self.body@,
        }
    }
}

/// The path, query and fragment of the request target `target`.
pub fn parse_target(target: &[char]) -> (r: (String, String, String))
    ensures
        r.0@ == split_target(target@).path,
        r.1@ == split_target(target@).query,
        r.2@ == split_target(target@).hash,
{
    let h = find_char(target, '#');
    let q = find_char(target, '?');
    let n = target.len();
    let path = string_between(target, 0, if q < h { q } else { h });
    let query = if q < h {
        string_between(target, q + 1, h)
    } else {
        String::new()
    };
    let hash = if h < n {
        string_between(target, h + 1, n)
    } else {
        String::new()
    };
    (path, query, hash)
}

/// The field of the header line `line`, which is taken as trimmed already.
pub fn parse_header_line(line: &[char]) -> (r: Option<(Vec<char>, Vec<char>)>)
    ensures
        r is Some == header_field(line@) is Some,
        r matches Some(f) ==> header_field(line@) == Some((f.0@, f.1@)),
{
    let i = find_separator(line);
    if i < line.len() {
        let before = slice_subrange(line, 0, i);
        let after = slice_subrange(line, i + 2, line.len());
        let (a, b) = trim_bounds(before);
        let (c, d) = trim_bounds(after);
        let key = crate::text::slice_between(before, a, b);
        let value = crate::text::slice_between(after, c, d);
        Some((key, value))
    } else {
        None
    }
}

/// Where the line that starts at `from` ends.
fn read_line(stream: &[u8], from: usize) -> (r: usize)
    requires
        from <= stream.len(),
    ensures
        r == line_end(stream@, from as int),
        from <= r <= stream.len(),
        from < stream.len() ==> from < r,
{
    let mut i: usize = from;
    while i < stream.len() && stream[i] != 0x0a
        invariant
            from <= i <= stream.len(),
            line_end(stream@, from as int) == line_end(stream@, i as int),
        decreases stream.len() - i,
    {
        i += 1;
    }
    if i < stream.len() {
        i + 1
    } else {
        i
    }
}

/// What the decoder holds while it reads header lines.
struct Block {
    headers: Headers,
    host: String,
    content_length: usize,
}

impl View for Block {
    type V = HeaderBlock;

    closed spec fn view(&self) -> HeaderBlock {
        HeaderBlock {
            fields: self.headers@,
            host: self.host@,
            content_length: self.content_length,
        }
    }
}

/// Takes one trimmed header line into `block`.
fn take_header_line(block: Block, line: &[char]) -> (r: Block)
    ensures
        r@ == with_header_line(block@, line@),
{
    match parse_header_line(line) {
        None => block,
        Some((key, value)) => {
            let Block { headers, host, content_length } = block;
            let mut headers = headers;
            let host_name = chars_of("host");
            let length_name = chars_of("content-length");
            let host = if same_ignoring_case(key.as_slice(), host_name.as_slice()) {
                string_of(value.as_slice())
            } else {
                host
            };
            let content_length = if same_ignoring_case(key.as_slice(), length_name.as_slice()) {
                match parse_usize(value.as_slice()) {
                    Some(n) => n,
                    None => 0,
                }
            } else {
                content_length
            };
            headers.insert(string_of(key.as_slice()), string_of(value.as_slice()));
            Block { headers, host, content_length }
        },
    }
}

/// Reads header lines from `from` on, up to the first blank line or the end
/// of the stream, and gives what they said, the position after them, and
/// whether a blank line closed the block.
fn read_header_block(stream: &[u8], from: usize) -> (r: Result<(Block, usize, bool), Error>)
    requires
        from <= stream.len(),
    ensures
        match r {
            Ok(found) => from <= found.1 <= stream.len() && read_headers(
                stream@,
                from as int,
                empty_block(),
            ) == Ok::<(HeaderBlock, int), ErrorView>((found.0@, found.1 as int)) && found.2
                == block_closed(stream@, from as int),
            Err(e) => read_headers(stream@, from as int, empty_block()) == Err::<
                (HeaderBlock, int),
                ErrorView,
            >(e@),
        },
{
    let mut block = Block { headers: Headers::new(), host: String::new(), content_length: 0 };
    let mut position: usize = from;
    let mut open: bool = true;
    let mut closed: bool = false;
    while open
        invariant
            from <= position <= stream.len(),
            open ==> read_headers(stream@, from as int, empty_block()) == read_headers(
                stream@,
                position as int,
                block@,
            ),
            open ==> !closed && block_closed(stream@, from as int) == block_closed(
                stream@,
                position as int,
            ),
            !open ==> read_headers(stream@, from as int, empty_block()) == Ok::<
                (HeaderBlock, int),
                ErrorView,
            >((block@, position as int)),
            !open ==> closed == block_closed(stream@, from as int),
        decreases stream.len() - position, if open { 1int } else { 0int },
    {
        if position >= stream.len() {
            open = false;
        } else {
            let end = read_line(stream, position);
            let header_line = match utf8_text(slice_subrange(stream, position, end)) {
                Some(text) => text,
                None => {
                    return Err(
                        Error::HttpReadError("stream did not contain valid UTF-8".to_string()),
                    );
                },
            };
            let raw = chars_of(header_line.as_str());
            let (a, b) = trim_bounds(raw.as_slice());
            if a == b {
                open = false;
                closed = true;
            } else {
                block = take_header_line(block, slice_subrange(raw.as_slice(), a, b));
            }
            position = end;
        }
    }
    Ok((block, position, closed))
}

/// What the decoder holds once it has read the request line.
struct FirstLine {
    method: String,
    path: String,
    query: String,
    hash: String,
    end: usize,
}

/// Reads the request line that `stream` starts with.
fn read_first_line(stream: &[u8]) -> (r: Result<FirstLine, Error>)
    ensures
        match r {
            Ok(first) => read_request_line(stream@) == Ok::<RequestLine, ErrorView>(
                RequestLine {
                    method: first.method@,
                    target: Target { path: first.path@, query: first.query@, hash: first.hash@ },
                    end: first.end as int,
                },
            ) && first.end == line_end(stream@, 0) && first.end <= stream.len(),
            Err(e) => read_request_line(stream@) == Err::<RequestLine, ErrorView>(e@),
        },
{
    let end = read_line(stream, 0);
    let request_line = match utf8_text(slice_subrange(stream, 0, end)) {
        Some(text) => text,
        None => {
            return Err(Error::HttpReadError("stream did not contain valid UTF-8".to_string()));
        },
    };
    let line = chars_of(request_line.as_str());
    let n = line.len();
    proof {
        lemma_words_from(line@, 0);
    }
    let a0 = scan_run(line.as_slice(), 0, true);
    if a0 >= n {
        return Err(Error::InvalidHttpRequest(request_line));
    }
    let b0 = scan_run(line.as_slice(), a0 + 1, false);
    proof {
        lemma_words_from(line@, b0 as int);
    }
    let a1 = scan_run(line.as_slice(), b0, true);
    if a1 >= n {
        return Err(Error::InvalidHttpRequest(request_line));
    }
    let b1 = scan_run(line.as_slice(), a1 + 1, false);
    proof {
        lemma_words_from(line@, b1 as int);
    }
    let a2 = scan_run(line.as_slice(), b1, true);
    if a2 >= n {
        return Err(Error::InvalidHttpRequest(request_line));
    }
    let method = string_between(line.as_slice(), a0, b0);
    let (path, query, hash) = parse_target(slice_subrange(line.as_slice(), a1, b1));
    Ok(FirstLine { method, path, query, hash, end })
}

impl Request {
    /// Reads a request from the bytes that a stream delivers.
    ///
    /// The first line is the request line: its first word is the method and
    /// its second the target; with fewer than three words the line is
    /// rejected. Header lines follow up to the first blank line. Where they
    /// declare a content length, that many bytes are the body, and a stream
    /// that ends before them is an error.
    pub fn new(stream: &[u8]) -> (r: Result<Request, Error>)
        ensures
            match r {
                Ok(request) => decoded(stream@) == Ok::<RequestView, ErrorView>(request@),
                Err(e) => decoded(stream@) == Err::<RequestView, ErrorView>(e@),
            },
    {
        let first = match read_first_line(stream) {
            Ok(first) => first,
            Err(e) => {
                return Err(e);
            },
        };
        let FirstLine { method, path, query, hash, end } = first;
        let (block, position, _) = match read_header_block(stream, end) {
            Ok(found) => found,
            Err(e) => {
                return Err(e);
            },
        };
        let length = block.content_length;
        if length > stream.len() - position {
            return Err(Error::HttpReadError("failed to fill whole buffer".to_string()));
        }
        let body = slice_to_vec(slice_subrange(stream, position, position + length));
        let Block { headers, host, content_length: _ } = block;
        Ok(Request { method, host, path, query, hash, headers, body })
    }

    /// What a reader that has taken `received` from its stream is to take
    /// next. A reader that starts with nothing, takes what it is told until
    /// it is told to take nothing, and stops where its stream ends, holds
    /// the bytes to make a request of with [`Request::new`].
    pub fn next_read(received: &[u8]) -> (r: NextRead)
        ensures
            r == next_read(received@),
    {
        let n = received.len();
        if n == 0 {
            return NextRead::Line;
        }
        let first_end = read_line(received, 0);
        if received[first_end - 1] != 0x0a {
            return NextRead::Nothing;
        }
        let first = match read_first_line(received) {
            Ok(first) => first,
            Err(_) => {
                return NextRead::Nothing;
            },
        };
        match read_header_block(received, first.end) {
            Err(_) => NextRead::Nothing,
            Ok((block, position, closed)) => {
                if closed {
                    if block.content_length > n - position {
                        NextRead::Exact(block.content_length - (n - position))
                    } else {
                        NextRead::Nothing
                    }
                } else if received[n - 1] == 0x0a {
                    NextRead::Line
                } else {
                    NextRead::Nothing
                }
            },
        }
    }

    /// The method, as the request line gave it.
    pub fn method(&self) -> (r: String)
        ensures
            r@ == self@.method,
    {
        self.method.clone()
    }

    /// The value of the last `Host` header; empty where there was none.
    pub fn host(&self) -> (r: String)
        ensures
            r@ == self@.host,
    {
        self.host.clone()
    }

    /// The path of the request target, without query and fragment.
    pub fn path(&self) -> (r: String)
        ensures
            r@ == self@.path,
    {
        self.path.clone()
    }

    /// The query of the request target; empty where it had none.
    pub fn query(&self) -> (r: String)
        ensures
            r@ == self@.query,
    {
        self.query.clone()
    }

    /// The fragment of the request target; empty where it had none.
    pub fn hash(&self) -> (r: String)
        ensures
            r@ == self@.hash,
    {
        self.hash.clone()
    }

    /// The header fields.
    pub fn headers(&self) -> (r: Headers)
        ensures
            r@ == self@.headers,
    {
        self.headers.clone()
    }

    /// The body.
    pub fn body(&self) -> (r: Vec<u8>)
        ensures
            r@ == self@.body,
    {
        self.body.clone()
    }
}

} // verus!
