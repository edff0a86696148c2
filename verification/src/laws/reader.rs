//! A reader that takes from its stream what the decoder asks for ends with
//! the whole request.

use vstd::prelude::*;
use vstd::utf8::*;
use crate::laws::lines::{lemma_line_ends_with_line_feed, lemma_line_of_prefix};
use crate::request::{
    HeaderBlock, NextRead, block_closed, decoded, empty_block, ends_with_line_feed, line_end,
    next_read, read_headers, read_request_line, with_header_line, lemma_line_end,
    lemma_read_headers_distinct,
};
use crate::text::{trim};

verus! {

/// Where the header block of `s` ends: the position after the line that
/// closes it, or the length of `s` where the head of `s` is in error.
pub open spec fn head_end(s: Seq<u8>) -> int {
    match read_request_line(s) {
        Ok(first) => match read_headers(s, first.end, empty_block()) {
            Ok(found) => found.1,
            Err(_) => s.len() as int,
        },
        Err(_) => s.len() as int,
    }
}

/// A header block that no blank line closes is read up to the end of the
/// stream.
pub proof fn lemma_open_block_ends_with_stream(s: Seq<u8>, from: int, block: HeaderBlock)
    requires
        0 <= from <= s.len(),
        !block_closed(s, from),
    ensures
        read_headers(s, from, block) matches Ok(found) ==> found.1 == s.len(),
    decreases s.len() - from,
{
    if from < s.len() {
        let end = line_end(s, from);
        let raw = s.subrange(from, end);
        lemma_line_end(s, from);
        if valid_utf8(raw) {
            let line = trim(decode_utf8(raw));
            if line.len() != 0 {
                lemma_open_block_ends_with_stream(s, end, with_header_line(block, line));
            }
        }
    }
}

/// A header block that a line with line feed closes is read the same
/// whatever follows in the stream.
pub proof fn lemma_read_headers_of_prefix(
    taken: Seq<u8>,
    more: Seq<u8>,
    from: int,
    block: HeaderBlock,
)
    requires
        0 <= from <= taken.len(),
        block_closed(taken, from),
        read_headers(taken, from, block) matches Ok(found) && 0 < found.1 <= taken.len()
            && taken[found.1 - 1] == 0x0a,
    ensures
        read_headers(taken + more, from, block) == read_headers(taken, from, block),
    decreases taken.len() - from,
{
    let end = line_end(taken, from);
    let raw = taken.subrange(from, end);
    let line = trim(decode_utf8(raw));
    lemma_line_end(taken, from);
    if line.len() == 0 {
        lemma_line_of_prefix(taken, more, from);
    } else {
        assert(block_closed(taken, end));
        lemma_line_ends_with_line_feed(taken, from);
        lemma_line_of_prefix(taken, more, from);
        lemma_read_headers_of_prefix(taken, more, end, with_header_line(block, line));
    }
}

/// A reader that is told to take nothing more holds the whole request:
/// whatever else its stream delivers, the request is the one decoded from
/// what was taken.
///
/// This holds where the blank line under the header block came with its
/// line feed; without it the stream has ended, and nothing else is
/// delivered.
pub proof fn law_taken_request_is_whole(taken: Seq<u8>, more: Seq<u8>)
    requires
        next_read(taken) == NextRead::Nothing,
        decoded(taken) is Ok,
        ends_with_line_feed(taken.subrange(0, head_end(taken))),
    ensures
        decoded(taken + more) == decoded(taken),
{
    let first = read_request_line(taken)->Ok_0;
    let found = read_headers(taken, first.end, empty_block())->Ok_0;
    let end = head_end(taken);
    let all = taken + more;
    lemma_line_end(taken, 0);
    lemma_read_headers_distinct(taken, first.end, empty_block());
    assert(taken.subrange(0, end).last() == taken[end - 1]);
    if first.end < taken.len() {
        lemma_line_ends_with_line_feed(taken, 0);
    } else {
        assert(found.1 == taken.len());
    }
    lemma_line_of_prefix(taken, more, 0);
    assert(read_request_line(all) == read_request_line(taken));
    if block_closed(taken, first.end) {
        lemma_read_headers_of_prefix(taken, more, first.end, empty_block());
        let n = found.0.content_length as int;
        assert(all.subrange(found.1, found.1 + n) == taken.subrange(found.1, found.1 + n));
    } else {
        lemma_open_block_ends_with_stream(taken, first.end, empty_block());
        assert(taken.subrange(0, end) == taken);
        assert(taken.subrange(0, first.end).last() == taken[first.end - 1]);
    }
}

} // verus!
