//! Lines of text as bytes: how the UTF-8 form of a text is cut into lines,
//! and how trimming treats a line.

use vstd::prelude::*;
use vstd::utf8::*;
use crate::laws::fields::{is_trimmed};
use crate::request::{line_end, lemma_line_end};
use crate::text::{
    blank_run_start, is_whitespace, run_end, trim, lemma_blank_run_start, lemma_run_end,
};

verus! {

/// Trimming takes the blanks off both ends and nothing else.
pub proof fn lemma_trim(s: Seq<char>, a: int, b: int)
    requires
        0 <= a < b <= s.len(),
        forall|k: int| 0 <= k < a ==> is_whitespace(#[trigger] s[k]),
        forall|k: int| b <= k < s.len() ==> is_whitespace(#[trigger] s[k]),
        !is_whitespace(s[a]),
        !is_whitespace(s[b - 1]),
    ensures
        trim(s) == s.subrange(a, b),
{
    lemma_run_end(s, 0, true);
    lemma_blank_run_start(s, s.len() as int);
    let x = run_end(s, 0, true);
    let y = blank_run_start(s, s.len() as int);
    if x < a {
        assert(is_whitespace(s[x]));
    }
    if x > a {
        assert(is_whitespace(s[a]));
    }
    if y > b {
        assert(is_whitespace(s[y - 1]));
    }
    if y < b {
        assert(is_whitespace(s[b - 1]));
    }
}

/// A text without whitespace at its ends is its own trimmed form.
pub proof fn lemma_trim_of_trimmed(s: Seq<char>)
    requires
        is_trimmed(s),
    ensures
        trim(s) == s,
{
    if s.len() == 0 {
        lemma_run_end(s, 0, true);
        lemma_blank_run_start(s, 0);
    } else {
        lemma_trim(s, 0, s.len() as int);
        assert(s.subrange(0, s.len() as int) == s);
    }
}

/// A byte with its high bit set is no line feed.
proof fn lemma_high_bytes(x: u8)
    by (bit_vector)
    ensures
        0x80u8 | x != 0x0au8,
        0xC0u8 | x != 0x0au8,
        0xE0u8 | x != 0x0au8,
        0xF0u8 | x != 0x0au8,
{
}

/// The low seven bits of a scalar below 128 are the scalar.
proof fn lemma_low_byte(s: u32)
    by (bit_vector)
    requires
        s <= 0x7Fu32,
    ensures
        (s & 0x7Fu32) as u8 as u32 == s,
{
}

/// The UTF-8 form of a character is not empty, and holds the line feed byte
/// only where the character is the line feed, whose form is that one byte.
pub proof fn lemma_encoded_char(c: char)
    ensures
        encode_scalar(c as u32).len() >= 1,
        forall|i: int|
            0 <= i < encode_scalar(c as u32).len() && #[trigger] encode_scalar(c as u32)[i]
                == 0x0a ==> c == '\n',
        c as u32 <= 0x7F ==> encode_scalar(c as u32) == seq![c as u8],
{
    let s = c as u32;
    let bytes = encode_scalar(s);
    lemma_high_bytes(((s >> 6) & 0x1F) as u8);
    lemma_high_bytes(((s >> 12) & 0x0F) as u8);
    lemma_high_bytes(((s >> 18) & 0x7) as u8);
    lemma_high_bytes((s & 0x3F) as u8);
    lemma_high_bytes(((s >> 6) & 0x3F) as u8);
    lemma_high_bytes(((s >> 12) & 0x3F) as u8);
    if s <= 0x7F {
        lemma_low_byte(s);
        assert(bytes == seq![c as u8]);
    }
}

/// The UTF-8 form of two texts in a row is the two forms in a row.
pub proof fn lemma_encode_concat(a: Seq<char>, b: Seq<char>)
    ensures
        encode_utf8(a + b) == encode_utf8(a) + encode_utf8(b),
    decreases a.len(),
{
    if a.len() == 0 {
        assert(a + b == b);
        assert(encode_utf8(a) + encode_utf8(b) == encode_utf8(b));
    } else {
        lemma_encode_concat(a.drop_first(), b);
        assert((a + b).drop_first() == a.drop_first() + b);
        assert((a + b)[0] == a[0]);
        assert(encode_utf8(a + b) == encode_scalar(a[0] as u32) + (encode_utf8(a.drop_first())
            + encode_utf8(b)));
    }
}

/// The UTF-8 form of a text without line feed holds no line feed byte.
pub proof fn lemma_encode_without_line_feed(a: Seq<char>)
    requires
        !a.contains('\n'),
    ensures
        forall|i: int| 0 <= i < encode_utf8(a).len() ==> #[trigger] encode_utf8(a)[i] != 0x0a,
    decreases a.len(),
{
    if a.len() > 0 {
        let first = encode_scalar(a[0] as u32);
        let rest = encode_utf8(a.drop_first());
        lemma_encoded_char(a[0]);
        assert(a.contains(a[0]));
        assert forall|k: int| 0 <= k < a.drop_first().len() implies a.drop_first()[k] != '\n' by {
            assert(a.contains(a[k + 1]));
        }
        lemma_encode_without_line_feed(a.drop_first());
        assert forall|i: int| 0 <= i < encode_utf8(a).len() implies #[trigger] encode_utf8(a)[i]
            != 0x0a by {
            if i < first.len() {
                assert(encode_utf8(a)[i] == first[i]);
            } else {
                assert(encode_utf8(a)[i] == rest[i - first.len()]);
            }
        }
    }
}

/// A line read passes over bytes that are no line feed.
pub proof fn lemma_line_end_passes(s: Seq<u8>, from: int, to: int)
    requires
        0 <= from <= to <= s.len(),
        forall|k: int| from <= k < to ==> #[trigger] s[k] != 0x0a,
    ensures
        line_end(s, from) == line_end(s, to),
    decreases to - from,
{
    if from < to {
        lemma_line_end_passes(s, from + 1, to);
    }
}

/// Where the bytes from `from` on are the UTF-8 form of a text without line
/// feed, then a line break, the line read at `from` takes just these bytes.
pub proof fn lemma_line_of_text(s: Seq<u8>, from: int, text: Seq<char>)
    requires
        !text.contains('\n'),
        0 <= from,
        from + encode_utf8(text + "\r\n"@).len() <= s.len(),
        s.subrange(from, from + encode_utf8(text + "\r\n"@).len()) == encode_utf8(text + "\r\n"@),
    ensures
        line_end(s, from) == from + encode_utf8(text + "\r\n"@).len(),
        valid_utf8(s.subrange(from, line_end(s, from))),
        decode_utf8(s.subrange(from, line_end(s, from))) == text + "\r\n"@,
{
    reveal_strlit("\r\n");
    let line = text + "\r\n"@;
    let head = encode_utf8(text);
    let all = encode_utf8(line);
    lemma_encode_concat(text, "\r\n"@);
    lemma_encode_without_line_feed(text);
    let br = "\r\n"@;
    assert(encode_utf8(br) == seq![0x0du8, 0x0au8]) by {
        lemma_encoded_char('\r');
        lemma_encoded_char('\n');
        assert(br.drop_first() == seq!['\n']);
        assert(br.drop_first().drop_first() == Seq::<char>::empty());
        assert(encode_utf8(br.drop_first().drop_first()) == Seq::<u8>::empty());
        assert(encode_utf8(br.drop_first()) == encode_scalar('\n' as u32) + encode_utf8(
            br.drop_first().drop_first(),
        ));
        assert(encode_utf8(br) == encode_scalar('\r' as u32) + encode_utf8(br.drop_first()));
    }
    assert(all == head + seq![0x0du8, 0x0au8]);
    let n = head.len() as int;
    assert forall|k: int| from <= k < from + n + 1 implies #[trigger] s[k] != 0x0a by {
        assert(s[k] == s.subrange(from, from + all.len())[k - from]);
        assert(all[k - from] == if k - from < n {
            head[k - from]
        } else {
            0x0du8
        });
    }
    lemma_line_end_passes(s, from, from + n + 1);
    assert(s[from + n + 1] == s.subrange(from, from + all.len())[n + 1]);
    assert(all[n + 1] == 0x0au8);
    assert(line_end(s, from + n + 1) == from + n + 2);
    encode_utf8_valid_utf8(line);
    encode_utf8_decode_utf8(line);
}

/// The UTF-8 form of a line with its line break has two bytes or more.
pub proof fn lemma_encoded_line_is_not_empty(text: Seq<char>)
    ensures
        encode_utf8(text + "\r\n"@).len() >= encode_utf8(text).len() + 2,
{
    reveal_strlit("\r\n");
    lemma_encode_concat(text, "\r\n"@);
    let br = "\r\n"@;
    lemma_encoded_char('\r');
    lemma_encoded_char('\n');
    assert(br.drop_first().len() == 1);
    assert(encode_utf8(br.drop_first()).len() >= 1);
}

/// A line that ends before the end of the stream ends with a line feed.
pub proof fn lemma_line_ends_with_line_feed(s: Seq<u8>, from: int)
    requires
        0 <= from < s.len(),
        line_end(s, from) < s.len(),
    ensures
        s[line_end(s, from) - 1] == 0x0a,
    decreases s.len() - from,
{
    if s[from] != 0x0a {
        if from + 1 < s.len() {
            lemma_line_ends_with_line_feed(s, from + 1);
        } else {
            assert(line_end(s, from + 1) == from + 1);
        }
    }
}

/// A line that ends with a line feed is the same line whatever follows
/// in the stream.
pub proof fn lemma_line_of_prefix(taken: Seq<u8>, more: Seq<u8>, from: int)
    requires
        0 <= from < taken.len(),
        taken[line_end(taken, from) - 1] == 0x0a,
    ensures
        line_end(taken + more, from) == line_end(taken, from),
        (taken + more).subrange(from, line_end(taken, from)) == taken.subrange(
            from,
            line_end(taken, from),
        ),
    decreases taken.len() - from,
{
    lemma_line_end(taken, from);
    assert((taken + more)[from] == taken[from]);
    if taken[from] != 0x0a {
        lemma_line_end(taken, from + 1);
        lemma_line_of_prefix(taken, more, from + 1);
    }
}

} // verus!
