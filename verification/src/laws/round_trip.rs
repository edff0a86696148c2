//! A header that is written is read back as it was: line by line, as a
//! block of lines, and from the message that a response is built into.

use vstd::prelude::*;
use vstd::utf8::*;
use crate::headers::{Field, distinct_keys, has_key, value_of};
use crate::laws::fields::{
    are_clean, holds_separator, is_clean_name, is_clean_value, last_value, lines_of, set_in_turn,
    lemma_decimal_is_clean, lemma_fields_in_a_row, lemma_last_value_at, lemma_lines_of_one,
    lemma_literal_is_clean, lemma_set_in_turn, lemma_set_in_turn_distinct,
    lemma_set_in_turn_members, lemma_value_of_distinct,
};
use crate::laws::lines::{
    lemma_encode_concat, lemma_encoded_line_is_not_empty, lemma_line_of_text, lemma_trim,
    lemma_trim_of_trimmed,
};
use crate::request::{HeaderBlock, empty_block, header_field, read_headers, with_header_line};
use crate::response::{
    ResponseView, added_lines, built, effective_reason, head, header_line, header_lines,
    is_streaming, lower_key, lowered, sent_body, status_line,
};
use crate::text::{
    ascii_lower, ascii_lowercase, decimal, is_ascii_text, is_whitespace, separator_at,
    separator_from, trim, lemma_blank_run_start, lemma_run_end, lemma_separator_from,
};

verus! {

/// A header line that is written is read back as the field it was written
/// from: the line of a clean name and a clean value, once trimmed, holds
/// that name and that value.
pub proof fn law_header_line_round_trip(key: Seq<char>, value: Seq<char>)
    requires
        is_clean_name(key),
        is_clean_value(value),
    ensures
        trim(header_line(key, value)) == key + ": "@ + value,
        header_field(trim(header_line(key, value))) == Some((key, value)),
{
    reveal_strlit(": ");
    reveal_strlit("\r\n");
    let line = header_line(key, value);
    let kept = key + ": "@ + value;
    let n = kept.len() as int;
    assert(line == kept + "\r\n"@);
    assert(line.len() == n + 2);
    assert(line[n] == '\r' && line[n + 1] == '\n');
    assert(line[n - 1] == value.last());
    if key.len() > 0 {
        assert(line[0] == key[0]);
    } else {
        assert(line[0] == ':');
    }
    lemma_trim(line, 0, n);
    assert(line.subrange(0, n) == kept);
    lemma_separator_from(kept, 0);
    let p = separator_from(kept, 0);
    let m = key.len() as int;
    assert(separator_at(kept, m)) by {
        assert(kept[m] == ':' && kept[m + 1] == ' ');
    }
    if p < m {
        assert(separator_at(kept, p));
        if p + 1 < m {
            assert(key[p] == ':' && key[p + 1] == ' ');
            assert(holds_separator(key));
        } else {
            assert(kept[p + 1] == ':');
        }
    }
    assert(p == m);
    assert(kept.subrange(0, m) == key);
    assert(kept.subrange(m + 2, n) == value);
    lemma_trim_of_trimmed(key);
    lemma_trim_of_trimmed(value);
}

/// The text of a clean field without its line break is a header line as the
/// decoder sees it: trimmed, and holding the field.
pub proof fn lemma_trim_of_kept(key: Seq<char>, value: Seq<char>)
    requires
        is_clean_name(key),
        is_clean_value(value),
    ensures
        header_field(key + ": "@ + value) == Some((key, value)),
        (key + ": "@ + value).len() > 0,
        !(key + ": "@ + value).contains('\n'),
{
    reveal_strlit(": ");
    law_header_line_round_trip(key, value);
    let kept = key + ": "@ + value;
    let m = key.len() as int;
    assert forall|i: int| 0 <= i < kept.len() implies kept[i] != '\n' by {
        if i < m {
            assert(key.contains(key[i]));
        } else if i >= m + 2 {
            assert(value.contains(value[i - m - 2]));
        }
    }
}

/// `block` after the header line of each of `fields` was taken into it in turn.
pub open spec fn absorbed(block: HeaderBlock, fields: Seq<Field>) -> HeaderBlock
    decreases fields.len(),
{
    if fields.len() == 0 {
        block
    } else {
        with_header_line(
            absorbed(block, fields.drop_last()),
            fields.last().0 + ": "@ + fields.last().1,
        )
    }
}

/// Taking the lines of clean fields into a block sets the fields in its map.
pub proof fn lemma_absorbed_fields(block: HeaderBlock, fields: Seq<Field>)
    requires
        are_clean(fields),
    ensures
        absorbed(block, fields).fields == set_in_turn(block.fields, fields),
    decreases fields.len(),
{
    if fields.len() > 0 {
        let last = fields.last();
        assert(are_clean(fields.drop_last())) by {
            assert forall|i: int| 0 <= i < fields.drop_last().len() implies is_clean_name(
                (#[trigger] fields.drop_last()[i]).0,
            ) && is_clean_value(fields.drop_last()[i].1) by {
                assert(fields.drop_last()[i] == fields[i]);
            }
        }
        lemma_absorbed_fields(block, fields.drop_last());
        law_header_line_round_trip(last.0, last.1);
        lemma_trim_of_kept(last.0, last.1);
    }
}

/// Reading header lines passes over the lines of clean fields, and takes
/// each into the block.
pub proof fn lemma_read_lines(s: Seq<u8>, from: int, block: HeaderBlock, fields: Seq<Field>)
    requires
        are_clean(fields),
        0 <= from,
        from + encode_utf8(lines_of(fields)).len() <= s.len(),
        s.subrange(from, from + encode_utf8(lines_of(fields)).len()) == encode_utf8(
            lines_of(fields),
        ),
    ensures
        read_headers(s, from, block) == read_headers(
            s,
            from + encode_utf8(lines_of(fields)).len(),
            absorbed(block, fields),
        ),
    decreases fields.len(),
{
    if fields.len() > 0 {
        let init = fields.drop_last();
        let last = fields.last();
        let kept = last.0 + ": "@ + last.1;
        let before = encode_utf8(lines_of(init));
        let line = encode_utf8(header_line(last.0, last.1));
        let all = encode_utf8(lines_of(fields));
        lemma_encode_concat(lines_of(init), header_line(last.0, last.1));
        assert(all == before + line);
        assert(are_clean(init)) by {
            assert forall|i: int| 0 <= i < init.len() implies is_clean_name(
                (#[trigger] init[i]).0,
            ) && is_clean_value(init[i].1) by {
                assert(init[i] == fields[i]);
            }
        }
        assert(s.subrange(from, from + before.len()) == before) by {
            assert(s.subrange(from, from + before.len()) == s.subrange(
                from,
                from + all.len(),
            ).subrange(0, before.len() as int));
            assert(all.subrange(0, before.len() as int) == before);
        }
        lemma_read_lines(s, from, block, init);
        let p = from + before.len();
        let mid = absorbed(block, init);
        lemma_trim_of_kept(last.0, last.1);
        law_header_line_round_trip(last.0, last.1);
        assert(header_line(last.0, last.1) == kept + "\r\n"@);
        assert(s.subrange(p, p + line.len()) == line) by {
            assert(s.subrange(p, p + line.len()) == s.subrange(from, from + all.len()).subrange(
                before.len() as int,
                all.len() as int,
            ));
            assert(all.subrange(before.len() as int, all.len() as int) == line);
        }
        lemma_line_of_text(s, p, kept);
        lemma_encoded_line_is_not_empty(kept);
        assert(read_headers(s, p, mid) == read_headers(
            s,
            p + line.len(),
            with_header_line(mid, kept),
        ));
    }
}

/// A header block that is written is read back as it was: the decoder reads
/// the lines of clean fields, and the blank line after them, as the fields
/// set in turn, and stops right after the blank line.
pub proof fn law_header_block_round_trip(fields: Seq<Field>, before: Seq<u8>, after: Seq<u8>)
    requires
        are_clean(fields),
    ensures
        ({
            let block = encode_utf8(lines_of(fields) + "\r\n"@);
            let stream = before + block + after;
            read_headers(stream, before.len() as int, empty_block()) matches Ok(found)
                && found.1 == before.len() + block.len() && found.0.fields == set_in_turn(
                Seq::empty(),
                fields,
            )
        }),
        distinct_keys(fields) ==> set_in_turn(Seq::empty(), fields) == fields,
{
    reveal_strlit("\r\n");
    let block = encode_utf8(lines_of(fields) + "\r\n"@);
    let lines = encode_utf8(lines_of(fields));
    let stream = before + block + after;
    let from = before.len() as int;
    lemma_encode_concat(lines_of(fields), "\r\n"@);
    lemma_encoded_line_is_not_empty(lines_of(fields));
    assert(stream.subrange(from, from + block.len()) == block);
    assert(stream.subrange(from, from + lines.len()) == lines) by {
        assert(stream.subrange(from, from + lines.len()) == block.subrange(0, lines.len() as int));
    }
    lemma_read_lines(stream, from, empty_block(), fields);
    let q = from + lines.len();
    let blank = Seq::<char>::empty();
    assert(blank + "\r\n"@ == "\r\n"@);
    assert(stream.subrange(q, q + encode_utf8("\r\n"@).len()) == encode_utf8("\r\n"@)) by {
        assert(stream.subrange(q, q + encode_utf8("\r\n"@).len()) == block.subrange(
            lines.len() as int,
            block.len() as int,
        ));
    }
    assert(!blank.contains('\n'));
    lemma_line_of_text(stream, q, blank);
    lemma_encoded_line_is_not_empty(blank);
    let br = "\r\n"@;
    lemma_run_end(br, 0, true);
    lemma_blank_run_start(br, br.len() as int);
    assert(is_whitespace(br[0]) && is_whitespace(br[1]));
    assert(trim(br).len() == 0);
    lemma_absorbed_fields(empty_block(), fields);
    if distinct_keys(fields) {
        lemma_set_in_turn_distinct(fields);
    }
}

/// `fields` with each name in lower case.
pub open spec fn lower_all(fields: Seq<Field>) -> Seq<Field> {
    Seq::new(fields.len(), |i: int| (lower_key(fields[i].0), fields[i].1))
}

/// The fields under their lower-case names are the fields, each with its
/// name in lower case, set in turn.
pub proof fn lemma_lowered(fields: Seq<Field>)
    ensures
        lowered(fields) == set_in_turn(Seq::empty(), lower_all(fields)),
        distinct_keys(lowered(fields)),
    decreases fields.len(),
{
    if fields.len() > 0 {
        lemma_lowered(fields.drop_last());
        assert(lower_all(fields).drop_last() == lower_all(fields.drop_last()));
        assert(lower_all(fields).last() == (lower_key(fields.last().0), fields.last().1));
    }
    lemma_set_in_turn(Seq::empty(), lower_all(fields), Seq::empty());
}

/// `fields` without those named `content-length`.
pub open spec fn without_length(fields: Seq<Field>) -> Seq<Field>
    decreases fields.len(),
{
    if fields.len() == 0 {
        Seq::empty()
    } else if fields.last().0 == "content-length"@ {
        without_length(fields.drop_last())
    } else {
        without_length(fields.drop_last()).push(fields.last())
    }
}

/// Leaving out `content-length` keeps the other fields, in order, and keeps
/// clean fields clean.
pub proof fn lemma_without_length(fields: Seq<Field>, key: Seq<char>)
    ensures
        header_lines(fields) == lines_of(without_length(fields)),
        key != "content-length"@ ==> last_value(without_length(fields), key) == last_value(
            fields,
            key,
        ),
        last_value(without_length(fields), "content-length"@) is None,
        are_clean(fields) ==> are_clean(without_length(fields)),
    decreases fields.len(),
{
    if fields.len() > 0 {
        let init = fields.drop_last();
        lemma_without_length(init, key);
        if are_clean(fields) {
            assert(are_clean(init)) by {
                assert forall|i: int| 0 <= i < init.len() implies is_clean_name(
                    (#[trigger] init[i]).0,
                ) && is_clean_value(init[i].1) by {
                    assert(init[i] == fields[i]);
                }
            }
            assert(is_clean_name(fields[fields.len() - 1].0));
        }
        if fields.last().0 != "content-length"@ {
            let kept = without_length(init).push(fields.last());
            assert(kept.drop_last() == without_length(init));
            assert(kept.last() == fields.last());
        }
    }
}

/// The fields that the encoder adds after those of the response.
pub open spec fn added_fields(fields: Seq<Field>, body: Seq<u8>) -> Seq<Field> {
    (if has_key(fields, "connection"@) {
        Seq::<Field>::empty()
    } else {
        seq![("Connection"@, "keep-alive"@)]
    }) + (if has_key(fields, "content-type"@) {
        Seq::<Field>::empty()
    } else {
        seq![("Content-Type"@, "text/html; charset=utf-8"@)]
    }) + (if is_streaming(fields) {
        Seq::<Field>::empty()
    } else {
        seq![("Content-Length"@, decimal(sent_body(fields, body).len()))]
    })
}

/// The fields that a response is sent with: its own under lower-case names,
/// without `content-length`, then those that the encoder adds.
pub open spec fn sent_fields(view: ResponseView) -> Seq<Field> {
    without_length(lowered(view.headers)) + added_fields(lowered(view.headers), view.body)
}

/// Whether `key` is one of the names under which the encoder adds a field.
pub open spec fn is_added_name(key: Seq<char>) -> bool {
    key == "Connection"@ || key == "Content-Type"@ || key == "Content-Length"@
}

/// The fields that the encoder adds are clean; their lines are the lines
/// that it adds; and none of them has a name that is not an added name.
pub proof fn lemma_added_fields(fields: Seq<Field>, body: Seq<u8>, key: Seq<char>)
    ensures
        are_clean(added_fields(fields, body)),
        lines_of(added_fields(fields, body)) == added_lines(fields, body),
        !is_added_name(key) ==> last_value(added_fields(fields, body), key) is None,
{
    reveal_strlit("Connection");
    reveal_strlit("keep-alive");
    reveal_strlit("Content-Type");
    reveal_strlit("text/html; charset=utf-8");
    reveal_strlit("Content-Length");
    let none = Seq::<Field>::empty();
    let connection = ("Connection"@, "keep-alive"@);
    let content_type = ("Content-Type"@, "text/html; charset=utf-8"@);
    let content_length = ("Content-Length"@, decimal(sent_body(fields, body).len()));
    let a = if has_key(fields, "connection"@) {
        none
    } else {
        seq![connection]
    };
    let b = if has_key(fields, "content-type"@) {
        none
    } else {
        seq![content_type]
    };
    let c = if is_streaming(fields) {
        none
    } else {
        seq![content_length]
    };
    lemma_decimal_is_clean(sent_body(fields, body).len());
    assert(is_clean_name(connection.0) && is_clean_value(connection.1)) by {
        lemma_literal_is_clean(connection.0);
        lemma_literal_is_clean(connection.1);
    }
    assert(is_clean_name(content_type.0) && is_clean_value(content_type.1)) by {
        lemma_literal_is_clean(content_type.0);
        lemma_literal_is_clean(content_type.1);
    }
    assert(is_clean_name(content_length.0)) by {
        lemma_literal_is_clean(content_length.0);
    }
    assert(are_clean(a) && are_clean(b) && are_clean(c));
    lemma_lines_of_one(connection);
    lemma_lines_of_one(content_type);
    lemma_lines_of_one(content_length);
    lemma_fields_in_a_row(a, b, key);
    lemma_fields_in_a_row(a + b, c, key);
    assert(last_value(none, key) is None);
    if !is_added_name(key) {
        assert(last_value(a, key) is None) by {
            if a.len() > 0 {
                assert(a.drop_last() == none);
            }
        }
        assert(last_value(b, key) is None) by {
            if b.len() > 0 {
                assert(b.drop_last() == none);
            }
        }
        assert(last_value(c, key) is None) by {
            if c.len() > 0 {
                assert(c.drop_last() == none);
            }
        }
    }
}

/// The head of a message is its status line, the lines of the fields it is
/// sent with, and the blank line.
pub proof fn lemma_head(view: ResponseView)
    ensures
        head(view) == status_line(
            view.version.text(),
            view.status_code as nat,
            effective_reason(view),
        ) + (lines_of(sent_fields(view)) + "\r\n"@),
{
    let fields = lowered(view.headers);
    lemma_without_length(fields, Seq::empty());
    lemma_added_fields(fields, view.body, Seq::empty());
    lemma_fields_in_a_row(without_length(fields), added_fields(fields, view.body), Seq::empty());
}

/// Headers survive encoding and decoding: where a response is written and
/// the header block of the message is read back, every header that the
/// response set is found under its lower-case name, with its value.
///
/// This holds of the header that was set last under its lower-case name,
/// where that name is not `content-length`, which the encoder writes anew;
/// and where the names and values can stand on a line of their own.
pub proof fn law_response_headers_round_trip(view: ResponseView, i: int)
    requires
        are_clean(lowered(view.headers)),
        0 <= i < view.headers.len(),
        lower_key(view.headers[i].0) != "content-length"@,
        !is_added_name(lower_key(view.headers[i].0)),
        forall|j: int|
            i < j < view.headers.len() ==> lower_key((#[trigger] view.headers[j]).0) != lower_key(
                view.headers[i].0,
            ),
    ensures
        ({
            let line = encode_utf8(
                status_line(
                    view.version.text(),
                    view.status_code as nat,
                    effective_reason(view),
                ),
            );
            let message = built(view);
            let body = sent_body(lowered(view.headers), view.body);
            &&& read_headers(message, line.len() as int, empty_block()) matches Ok(found)
                && found.1 == message.len() - body.len() && message.subrange(
                found.1,
                message.len() as int,
            ) == body && value_of(found.0.fields, lower_key(view.headers[i].0)) == Some(
                view.headers[i].1,
            )
        }),
{
    let fields = lowered(view.headers);
    let name = lower_key(view.headers[i].0);
    let first = status_line(view.version.text(), view.status_code as nat, effective_reason(view));
    let line = encode_utf8(first);
    let sent = sent_fields(view);
    let body = sent_body(fields, view.body);
    let block = encode_utf8(lines_of(sent) + "\r\n"@);
    lemma_head(view);
    lemma_encode_concat(first, lines_of(sent) + "\r\n"@);
    assert(built(view) == line + block + body);
    lemma_without_length(fields, name);
    lemma_added_fields(fields, view.body, name);
    lemma_fields_in_a_row(without_length(fields), added_fields(fields, view.body), name);
    law_header_block_round_trip(sent, line, body);
    let found = read_headers(line + block + body, line.len() as int, empty_block())->Ok_0;
    assert((line + block + body).subrange(found.1, (line + block + body).len() as int) == body);
    lemma_set_in_turn(Seq::empty(), sent, name);
    lemma_lowered(view.headers);
    lemma_value_of_distinct(fields, name);
    lemma_set_in_turn(Seq::empty(), lower_all(view.headers), name);
    lemma_last_value_at(lower_all(view.headers), i);
    assert(last_value(lower_all(view.headers), name) == Some(view.headers[i].1));
}

/// A clean name of ASCII characters is still clean in lower case, and is
/// then none of the names under which the encoder adds a field.
pub proof fn lemma_ascii_name_stays_clean(key: Seq<char>)
    requires
        is_ascii_text(key),
        is_clean_name(key),
    ensures
        lower_key(key) == ascii_lowercase(key),
        is_clean_name(lower_key(key)),
        !is_added_name(lower_key(key)),
{
    reveal_strlit("Connection");
    reveal_strlit("Content-Type");
    reveal_strlit("Content-Length");
    let low = ascii_lowercase(key);
    assert forall|i: int| 0 <= i < key.len() implies is_whitespace(#[trigger] low[i])
        == is_whitespace(key[i]) && (low[i] == '\n') == (key[i] == '\n') && (low[i] == ':') == (
    key[i] == ':') && (low[i] == ' ') == (key[i] == ' ') && low[i] != 'C' by {
        assert(low[i] == ascii_lower(key[i]));
    }
    if key.len() > 0 {
        assert(low[0] == ascii_lower(key[0]));
        assert(low.last() == low[key.len() - 1]);
    }
    assert(!low.contains('\n')) by {
        if low.contains('\n') {
            let i = choose|i: int| 0 <= i < low.len() && low[i] == '\n';
            assert(key.contains(key[i]));
        }
    }
    assert(!holds_separator(low)) by {
        if holds_separator(low) {
            let i = choose|i: int|
                0 <= i && i + 1 < low.len() && low[i] == ':' && #[trigger] low[i + 1] == ' ';
            assert(key[i] == ':' && key[i + 1] == ' ');
            assert(holds_separator(key));
        }
    }
    if is_added_name(low) {
        assert(low[0] == 'C');
    }
}

/// Headers with clean ASCII names and clean values are sent as clean
/// fields, none under a name that the encoder adds a field under.
pub proof fn lemma_ascii_headers_stay_clean(headers: Seq<Field>)
    requires
        forall|i: int|
            0 <= i < headers.len() ==> is_ascii_text((#[trigger] headers[i]).0) && is_clean_name(
                headers[i].0,
            ) && is_clean_value(headers[i].1),
    ensures
        are_clean(lowered(headers)),
        forall|i: int|
            0 <= i < headers.len() ==> !is_added_name(lower_key((#[trigger] headers[i]).0)),
{
    lemma_lowered(headers);
    let low = lower_all(headers);
    let sent = lowered(headers);
    assert forall|i: int| 0 <= i < headers.len() implies !is_added_name(
        lower_key((#[trigger] headers[i]).0),
    ) by {
        lemma_ascii_name_stays_clean(headers[i].0);
    }
    assert forall|j: int| 0 <= j < sent.len() implies is_clean_name((#[trigger] sent[j]).0)
        && is_clean_value(sent[j].1) by {
        lemma_set_in_turn_members(low, j);
        let i = choose|i: int| 0 <= i < low.len() && sent[j] == #[trigger] low[i];
        assert(low[i] == (lower_key(headers[i].0), headers[i].1));
        lemma_ascii_name_stays_clean(headers[i].0);
    }
}

} // verus!
