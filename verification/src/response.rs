//! Responses, and the encoder that writes one as the bytes of a message.

use vstd::prelude::*;
use vstd::string::*;
use vstd::utf8::*;
use crate::headers::{has_key, value_of, with_field, Field, Headers};
use crate::http_version::HttpVersion;
use crate::status_code::{reason_phrase, HttpStatus};
use crate::text::{
    all_ascii, ascii_lowercase, chars_of, decimal, decimal_string, is_ascii_text, lowercase_ascii,
    same_ignoring_ascii_case, same_ignoring_case, same_str, string_of,
};
use crate::trusted::{
    coding_named, debug_text, encode_body, encoded_body, lossy_text, parse_coding, quoted,
    to_unicode_lowercase, unicode_lowercase, utf8_text, utf8_text_lossy, Coding,
};

verus! {

/// The size of the working buffer that a content coding is given.
pub const DEFAULT_BUFFER_SIZE: usize = 4096;

/// Why a response could not be sent.
#[derive(Debug)]
pub enum Error {
    /// Writing the response failed; the detail says how.
    ResponseError(String),
    /// No further detail is known.
    Unknown,
}

/// The text that describes an error.
pub open spec fn error_text(e: Error) -> Seq<char> {
    match e {
        Error::ResponseError(detail) => "Response Error: "@ + detail@,
        Error::Unknown => "Unknown"@,
    }
}

impl Error {
    /// A description of the error, for people to read.
    pub fn to_string(&self) -> (r: String)
        ensures
            r@ == error_text(*self),
    {
        match self {
            Error::ResponseError(detail) => {
                let mut r = "Response Error: ".to_string();
                r.append(detail.as_str());
                r
            },
            Error::Unknown => "Unknown".to_string(),
        }
    }
}

/// A response as mathematics sees it.
pub struct ResponseView {
    pub version: HttpVersion,
    pub status_code: usize,
    pub reason_phrase: Seq<char>,
    pub headers: Seq<Field>,
    pub body: Seq<u8>,
}

/// The reason phrase that a response is sent with: its own, or the one that
/// goes with its status code where it has none.
pub open spec fn effective_reason(view: ResponseView) -> Seq<char> {
    if view.reason_phrase.len() == 0 {
        reason_phrase(view.status_code as nat)
    } else {
        view.reason_phrase
    }
}

/// The first line of a response: version, status code and reason phrase.
pub open spec fn status_line(version: Seq<char>, code: nat, reason: Seq<char>) -> Seq<char> {
    version + " "@ + decimal(code) + " "@ + reason + "\r\n"@
}

/// One header line: name, colon and space, value, line break.
pub open spec fn header_line(key: Seq<char>, value: Seq<char>) -> Seq<char> {
    key + ": "@ + value + "\r\n"@
}

/// The name under which a header is sent: the name in lower case. An ASCII
/// name has its capital letters lowered; any other goes by the Unicode case
/// mappings.
pub open spec fn lower_key(key: Seq<char>) -> Seq<char> {
    if is_ascii_text(key) {
        ascii_lowercase(key)
    } else {
        unicode_lowercase(key)
    }
}

/// The fields under their lower-case names: each is set in turn, so that of
/// two names that differ in case only the later value stays, at the place
/// of the earlier.
pub open spec fn lowered(fields: Seq<Field>) -> Seq<Field>
    decreases fields.len(),
{
    if fields.len() == 0 {
        Seq::empty()
    } else {
        with_field(lowered(fields.drop_last()), lower_key(fields.last().0), fields.last().1)
    }
}

/// The header lines of `fields` in order, without any `content-length` field.
pub open spec fn header_lines(fields: Seq<Field>) -> Seq<char>
    decreases fields.len(),
{
    if fields.len() == 0 {
        Seq::empty()
    } else if fields.last().0 == "content-length"@ {
        header_lines(fields.drop_last())
    } else {
        header_lines(fields.drop_last()) + header_line(fields.last().0, fields.last().1)
    }
}

/// Whether the lower-case `fields` declare an event stream, whose length is
/// not known when the head is written.
pub open spec fn is_streaming(fields: Seq<Field>) -> bool {
    match value_of(fields, "content-type"@) {
        Some(value) => same_ignoring_ascii_case(value, "text/event-stream"@),
        None => false,
    }
}

/// The content coding that the lower-case `fields` ask for.
pub open spec fn chosen_coding(fields: Seq<Field>) -> Coding {
    match value_of(fields, "content-encoding"@) {
        Some(value) => coding_named(unicode_lowercase(value)),
        None => Coding::Identity,
    }
}

/// The body as it is sent under the lower-case `fields`: coded where a
/// coding is asked for and the message is no event stream.
pub open spec fn sent_body(fields: Seq<Field>, body: Seq<u8>) -> Seq<u8> {
    if !is_streaming(fields) && chosen_coding(fields) != Coding::Identity {
        encoded_body(chosen_coding(fields), body, DEFAULT_BUFFER_SIZE)
    } else {
        body
    }
}

/// The header lines that the encoder adds after those of the response.
pub open spec fn added_lines(fields: Seq<Field>, body: Seq<u8>) -> Seq<char> {
    (if has_key(fields, "connection"@) {
        Seq::empty()
    } else {
        header_line("Connection"@, "keep-alive"@)
    }) + (if has_key(fields, "content-type"@) {
        Seq::empty()
    } else {
        header_line("Content-Type"@, "text/html; charset=utf-8"@)
    }) + (if is_streaming(fields) {
        Seq::empty()
    } else {
        header_line("Content-Length"@, decimal(sent_body(fields, body).len()))
    })
}

/// The head of the message: status line, header lines and the blank line.
pub open spec fn head(view: ResponseView) -> Seq<char> {
    let fields = lowered(view.headers);
    status_line(view.version.text(), view.status_code as nat, effective_reason(view))
        + header_lines(fields) + added_lines(fields, view.body) + "\r\n"@
}

/// The bytes of the message: the head in UTF-8, then the body as it is sent.
pub open spec fn built(view: ResponseView) -> Seq<u8> {
    encode_utf8(head(view)) + sent_body(lowered(view.headers), view.body)
}

/// The fields as a debug listing: each name and value quoted, joined by
/// a colon, the fields separated by commas.
pub open spec fn fields_listing(fields: Seq<Field>) -> Seq<char>
    decreases fields.len(),
{
    if fields.len() == 0 {
        Seq::empty()
    } else {
        let before = fields_listing(fields.drop_last());
        (if fields.len() > 1 {
            before + ", "@
        } else {
            before
        }) + quoted(fields.last().0) + ": "@ + quoted(fields.last().1)
    }
}

/// A one-line account of a response.
pub open spec fn summary(view: ResponseView) -> Seq<char> {
    "[Response] => [version]: "@ + view.version.text() + "; [status code]: "@ + decimal(
        view.status_code as nat,
    ) + "; [reason]: "@ + view.reason_phrase + "; [headers]: {"@ + fields_listing(view.headers)
        + "}; [body]: "@ + decimal(view.body.len()) + " bytes "@ + (if valid_utf8(view.body) {
        "plain"@
    } else {
        "binary"@
    }) + ";"@
}

/// A response under construction.
#[derive(Debug)]
pub struct Response {
    version: HttpVersion,
    status_code: usize,
    reason_phrase: String,
    headers: Headers,
    body: Vec<u8>,
}

impl View for Response {
    type V = ResponseView;

    closed spec fn view(&self) -> ResponseView {
        ResponseView {
            version: self.version,
            status_code: self.status_code,
            reason_phrase: self.reason_phrase@,
            headers: self.headers@,
            body: self.body@,
        }
    }
}

/// The lower-case form of a header name.
fn lower_key_of(key: &str) -> (r: String)
    ensures
        r@ == lower_key(key@),
{
    let chars = chars_of(key);
    if all_ascii(chars.as_slice()) {
        string_of(lowercase_ascii(chars.as_slice()).as_slice())
    } else {
        to_unicode_lowercase(key)
    }
}

/// The fields of `headers` under their lower-case names.
fn lowered_headers(headers: &Headers) -> (r: Headers)
    ensures
        r@ == lowered(headers@),
{
    let mut r = Headers::new();
    let mut i: usize = 0;
    while i < headers.len()
        invariant
            i <= headers@.len(),
            r@ == lowered(headers@.take(i as int)),
        decreases headers@.len() - i,
    {
        assert(headers@.take(i + 1).drop_last() == headers@.take(i as int));
        r.insert(lower_key_of(headers.key_at(i)), headers.value_at(i).to_string());
        i += 1;
    }
    assert(headers@.take(i as int) == headers@);
    r
}

impl Response {
    /// A response with version HTTP/1.1 and status 200, without reason
    /// phrase, headers or body.
    pub fn new() -> (r: Response)
        ensures
            r@ == (ResponseView {
                version: HttpVersion::HTTP1_1,
                status_code: 200,
                reason_phrase: Seq::empty(),
                headers: Seq::empty(),
                body: Seq::empty(),
            }),
    {
        Response {
            version: HttpVersion::HTTP1_1,
            status_code: 200,
            reason_phrase: String::new(),
            headers: Headers::new(),
            body: Vec::new(),
        }
    }

    /// The protocol version.
    pub fn get_version(&self) -> (r: &HttpVersion)
        ensures
            *r == self@.version,
    {
        &self.version
    }

    /// The status code.
    pub fn get_status_code(&self) -> (r: usize)
        ensures
            r == self@.status_code,
    {
        self.status_code
    }

    /// The reason phrase; empty until one is set or the response is built.
    pub fn get_reason_phrase(&self) -> (r: &str)
        ensures
            r@ == self@.reason_phrase,
    {
        self.reason_phrase.as_str()
    }

    /// The header fields.
    pub fn get_headers(&self) -> (r: &Headers)
        ensures
            r@ == self@.headers,
    {
        &self.headers
    }

    /// The body.
    pub fn get_body(&self) -> (r: &Vec<u8>)
        ensures
            r@ == self@.body,
    {
        &self.body
    }

    /// The value of the header named `key`, exactly as it was set.
    pub fn get_header(&self, key: &str) -> (r: Option<String>)
        ensures
            r is Some == has_key(self@.headers, key@),
            r matches Some(value) ==> Some(value@) == value_of(self@.headers, key@),
    {
        self.headers.get(key)
    }

    /// The body as text: the text it encodes where it is UTF-8, with each
    /// malformed sequence replaced by U+FFFD where it is not.
    pub fn get_body_string(&self) -> (r: String)
        ensures
            r@ == lossy_text(self@.body),
            valid_utf8(self@.body) ==> r@ == decode_utf8(self@.body),
    {
        utf8_text_lossy(self.body.as_slice())
    }

    /// Sets the protocol version.
    pub fn set_version(&mut self, version: HttpVersion) -> (r: &mut Response)
        ensures
            r@ == (ResponseView { version: version, ..old(self)@ }),
            *final(self) == *final(r),
    {
        self.version = version;
        self
    }

    /// Sets the status code.
    pub fn set_status_code(&mut self, status_code: usize) -> (r: &mut Response)
        ensures
            r@ == (ResponseView { status_code: status_code, ..old(self)@ }),
            *final(self) == *final(r),
    {
        self.status_code = status_code;
        self
    }

    /// Sets the header named `key` to `value`; a header of exactly that name
    /// is replaced.
    pub fn set_header(&mut self, key: &str, value: &str) -> (r: &mut Response)
        ensures
            r@ == (ResponseView {
                headers: with_field(old(self)@.headers, key@, value@),
                ..old(self)@
            }),
            *final(self) == *final(r),
    {
        self.headers.insert(key.to_string(), value.to_string());
        self
    }

    /// Sets the body.
    pub fn set_body(&mut self, body: Vec<u8>) -> (r: &mut Response)
        ensures
            r@ == (ResponseView { body: body@, ..old(self)@ }),
            *final(self) == *final(r),
    {
        self.body = body;
        self
    }

    /// Sets the reason phrase.
    pub fn set_reason_phrase(&mut self, reason_phrase: &str) -> (r: &mut Response)
        ensures
            r@ == (ResponseView { reason_phrase: reason_phrase@, ..old(self)@ }),
            *final(self) == *final(r),
    {
        self.reason_phrase = reason_phrase.to_string();
        self
    }

    /// Appends the header line of `key` and `value` to `out`.
    pub(crate) fn push_header(out: &mut String, key: &str, value: &str)
        ensures
            final(out)@ == old(out)@ + header_line(key@, value@),
    {
        out.append(key);
        out.append(": ");
        out.append(value);
        out.append("\r\n");
    }

    /// Appends the status line of the response to `out`.
    pub(crate) fn push_http_response_first_line(&self, out: &mut String)
        ensures
            final(out)@ == old(out)@ + status_line(
                self@.version.text(),
                self@.status_code as nat,
                self@.reason_phrase,
            ),
    {
        out.append(self.version.to_string().as_str());
        out.append(" ");
        out.append(decimal_string(self.status_code).as_str());
        out.append(" ");
        out.append(self.reason_phrase.as_str());
        out.append("\r\n");
    }

    /// Writes the response as the bytes of a message, and empties its header
    /// map.
    ///
    /// A response without reason phrase gets the one that goes with its
    /// status code. The headers are sent under lower-case names, but for
    /// `content-length`, which is left out. `Connection` and `Content-Type`
    /// are added where the response sets neither. Unless the content type
    /// is `text/event-stream`, the body is coded as `content-encoding` asks,
    /// and `Content-Length` is added with the length of the body as sent.
    pub fn build(&mut self) -> (r: Vec<u8>)
        ensures
            r@ == built(old(self)@),
            final(self)@ == (ResponseView {
                reason_phrase: effective_reason(old(self)@),
                headers: Seq::empty(),
                ..old(self)@
            }),
    {
        if self.reason_phrase.as_str().is_empty() {
            self.reason_phrase = HttpStatus::phrase(self.status_code);
        }
        let mut out = String::new();
        self.push_http_response_first_line(&mut out);
        let fields = lowered_headers(&self.headers);
        self.headers = Headers::new();
        let ghost start = out@;
        let mut i: usize = 0;
        while i < fields.len()
            invariant
                i <= fields@.len(),
                out@ == start + header_lines(fields@.take(i as int)),
            decreases fields@.len() - i,
        {
            assert(fields@.take(i + 1).drop_last() == fields@.take(i as int));
            if !same_str(fields.key_at(i), "content-length") {
                Response::push_header(&mut out, fields.key_at(i), fields.value_at(i));
            }
            i += 1;
        }
        assert(fields@.take(i as int) == fields@);
        let streaming = match fields.get("content-type") {
            Some(value) => same_ignoring_case(
                chars_of(value.as_str()).as_slice(),
                chars_of("text/event-stream").as_slice(),
            ),
            None => false,
        };
        let coding = match fields.get("content-encoding") {
            Some(value) => parse_coding(value.as_str()),
            None => Coding::Identity,
        };
        if !fields.contains_key("connection") {
            Response::push_header(&mut out, "Connection", "keep-alive");
        }
        if !fields.contains_key("content-type") {
            Response::push_header(&mut out, "Content-Type", "text/html; charset=utf-8");
        }
        let coded: Option<Vec<u8>> = if !streaming && coding != Coding::Identity {
            Some(encode_body(coding, self.body.as_slice(), DEFAULT_BUFFER_SIZE))
        } else {
            None
        };
        if !streaming {
            let length = match &coded {
                Some(bytes) => bytes.len(),
                None => self.body.len(),
            };
            Response::push_header(&mut out, "Content-Length", decimal_string(length).as_str());
        }
        out.append("\r\n");
        assert(out@ == head(old(self)@));
        let mut bytes = out.as_str().as_bytes_vec();
        match &coded {
            Some(sent) => bytes.extend_from_slice(sent.as_slice()),
            None => bytes.extend_from_slice(self.body.as_slice()),
        }
        bytes
    }

    /// A one-line account of the response: version, status code, reason
    /// phrase, headers, and the size and kind of the body.
    pub fn get_string(&self) -> (r: String)
        ensures
            r@ == summary(self@),
    {
        let mut out = "[Response] => [version]: ".to_string();
        out.append(self.version.to_string().as_str());
        out.append("; [status code]: ");
        out.append(decimal_string(self.status_code).as_str());
        out.append("; [reason]: ");
        out.append(self.reason_phrase.as_str());
        out.append("; [headers]: {");
        let ghost start = out@;
        let mut i: usize = 0;
        while i < self.headers.len()
            invariant
                i <= self.headers@.len(),
                out@ == start + fields_listing(self.headers@.take(i as int)),
            decreases self.headers@.len() - i,
        {
            assert(self.headers@.take(i + 1).drop_last() == self.headers@.take(i as int));
            if i > 0 {
                out.append(", ");
            }
            out.append(debug_text(self.headers.key_at(i)).as_str());
            out.append(": ");
            out.append(debug_text(self.headers.value_at(i)).as_str());
            i += 1;
        }
        assert(self.headers@.take(i as int) == self.headers@);
        out.append("}; [body]: ");
        out.append(decimal_string(self.body.len()).as_str());
        out.append(" bytes ");
        if utf8_text(self.body.as_slice()).is_some() {
            out.append("plain");
        } else {
            out.append("binary");
        }
        out.append(";");
        out
    }
}

impl Default for Response {
    fn default() -> (r: Response)
        ensures
            r@ == (ResponseView {
                version: HttpVersion::HTTP1_1,
                status_code: 200,
                reason_phrase: Seq::empty(),
                headers: Seq::empty(),
                body: Seq::empty(),
            }),
    {
        Response::new()
    }
}

} // verus!
