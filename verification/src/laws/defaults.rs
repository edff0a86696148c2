//! What the encoder adds: a response that sets nothing is written with the
//! three headers that the encoder adds, and an event stream without
//! `Content-Length`.

use vstd::prelude::*;
use vstd::utf8::*;
use crate::headers::{
    Field, distinct_keys, has_key, key_position, with_field, lemma_key_position_from,
    lemma_with_field,
};
use crate::http_version::{HttpVersion};
use crate::laws::fields::{last_value, lines_of, lemma_last_value_at, lemma_set_in_turn};
use crate::laws::round_trip::{lower_all, without_length, lemma_lowered, lemma_without_length};
use crate::response::{
    ResponseView, added_lines, built, chosen_coding, effective_reason, head, header_line,
    header_lines, is_streaming, lower_key, lowered, sent_body, status_line,
};
use crate::status_code::{reason_phrase};
use crate::text::{ascii_lowercase, decimal, is_ascii_text, same_ignoring_ascii_case};
use crate::trusted::{Coding};

verus! {

/// A response that sets nothing but a body is written with status line
/// `HTTP/1.1 200 OK`, one `Connection: keep-alive`, one `Content-Type:
/// text/html; charset=utf-8` and a `Content-Length` that counts the bytes of
/// the body, which follows the blank line unchanged.
pub proof fn law_default_response(body: Seq<u8>)
    ensures
        built(
            ResponseView {
                version: HttpVersion::HTTP1_1,
                status_code: 200,
                reason_phrase: Seq::empty(),
                headers: Seq::empty(),
                body: body,
            },
        ) == encode_utf8(
            status_line("HTTP/1.1"@, 200, "OK"@) + header_line("Connection"@, "keep-alive"@)
                + header_line("Content-Type"@, "text/html; charset=utf-8"@) + header_line(
                "Content-Length"@,
                decimal(body.len()),
            ) + "\r\n"@,
        ) + body,
{
    let none = Seq::<Field>::empty();
    let view = ResponseView {
        version: HttpVersion::HTTP1_1,
        status_code: 200,
        reason_phrase: Seq::empty(),
        headers: none,
        body: body,
    };
    let first = status_line("HTTP/1.1"@, 200, "OK"@);
    let connection = header_line("Connection"@, "keep-alive"@);
    let content_type = header_line("Content-Type"@, "text/html; charset=utf-8"@);
    let content_length = header_line("Content-Length"@, decimal(body.len()));
    assert(lowered(none) == none);
    assert(header_lines(none) == Seq::<char>::empty());
    assert(!has_key(none, "connection"@));
    assert(!has_key(none, "content-type"@));
    assert(!has_key(none, "content-encoding"@));
    assert(!is_streaming(none));
    assert(chosen_coding(none) == Coding::Identity);
    assert(sent_body(none, body) == body);
    assert(reason_phrase(200) == "OK"@);
    assert(effective_reason(view) == "OK"@);
    assert(added_lines(none, body) == connection + content_type + content_length);
    assert(head(view) == first + Seq::<char>::empty() + (connection + content_type
        + content_length) + "\r\n"@);
    assert(head(view) == first + connection + content_type + content_length + "\r\n"@);
}

/// A response whose content type is `text/event-stream`, in any case of
/// letters, is written without any `Content-Length`: none of its own is
/// sent, none is added, and the body follows as it is.
pub proof fn law_event_stream_has_no_length(view: ResponseView)
    requires
        is_streaming(lowered(view.headers)),
    ensures
        built(view) == encode_utf8(
            status_line(view.version.text(), view.status_code as nat, effective_reason(view))
                + lines_of(without_length(lowered(view.headers))) + (if has_key(
                lowered(view.headers),
                "connection"@,
            ) {
                Seq::empty()
            } else {
                header_line("Connection"@, "keep-alive"@)
            }) + "\r\n"@,
        ) + view.body,
        last_value(without_length(lowered(view.headers)), "content-length"@) is None,
{
    lemma_without_length(lowered(view.headers), Seq::empty());
}

/// The lower-case form of `Content-Type` is `content-type`.
pub proof fn lemma_content_type_name()
    ensures
        lower_key("Content-Type"@) == "content-type"@,
{
    reveal_strlit("Content-Type");
    reveal_strlit("content-type");
    assert(is_ascii_text("Content-Type"@));
    assert(ascii_lowercase("Content-Type"@) =~= "content-type"@);
}

/// Setting `Content-Type` to `text/event-stream` makes the response an
/// event stream, which is written without `Content-Length`.
///
/// This holds where no header of another spelling, such as `content-type`,
/// stands for the content type as well.
pub proof fn law_setting_event_stream(headers: Seq<Field>, value: Seq<char>)
    requires
        distinct_keys(headers),
        same_ignoring_ascii_case(value, "text/event-stream"@),
        forall|j: int|
            0 <= j < headers.len() && (#[trigger] headers[j]).0 != "Content-Type"@ ==> lower_key(
                headers[j].0,
            ) != "content-type"@,
    ensures
        is_streaming(lowered(with_field(headers, "Content-Type"@, value))),
{
    let name = "Content-Type"@;
    let after = with_field(headers, name, value);
    lemma_content_type_name();
    lemma_key_position_from(headers, name, 0);
    lemma_with_field(headers, name, value);
    let p = key_position(headers, name);
    assert(after[p] == (name, value));
    let low = lower_all(after);
    assert(low[p] == ("content-type"@, value));
    assert forall|j: int| p < j < low.len() implies (#[trigger] low[j]).0 != low[p].0 by {
        assert(after[j] == headers[j]);
        assert(after[p].0 != after[j].0);
    }
    lemma_last_value_at(low, p);
    lemma_lowered(after);
    lemma_set_in_turn(Seq::empty(), low, "content-type"@);
}

} // verus!
