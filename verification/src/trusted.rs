//! The calls that leave this crate: functions of the standard library of
//! which the verifier knows nothing by itself, and functions of the `hex` and
//! `http_compress` crates. Each is wrapped once; the contract under each
//! wrapper is taken on trust from the callee's documentation or source, and
//! everything else in the crate is proved from these contracts.

use vstd::prelude::*;
use vstd::utf8::*;
use http_compress::Compress;

verus! {

/// Calls `String::push`, which appends the character `c` to the end of `s`.
#[verifier::external_body]
pub(crate) fn push_char(s: &mut String, c: char)
    ensures
        final(s)@ == old(s)@.push(c),
{
    s.push(c);
}

/// Calls `String::from_utf8`, which succeeds exactly on well-formed UTF-8 and
/// then yields the text that the bytes encode.
#[verifier::external_body]
pub(crate) fn utf8_text(bytes: &[u8]) -> (r: Option<String>)
    ensures
        r is Some <==> valid_utf8(bytes@),
        r matches Some(t) ==> t@ == decode_utf8(bytes@),
{
    String::from_utf8(bytes.to_vec()).ok()
}

/// The text that `String::from_utf8_lossy` makes of `bytes`: the decoded text
/// with each malformed sequence replaced by U+FFFD.
pub uninterp spec fn lossy_text(bytes: Seq<u8>) -> Seq<char>;

/// Calls `String::from_utf8_lossy`. On well-formed UTF-8 the result is the
/// text that the bytes encode, as the function's documentation states.
#[verifier::external_body]
pub(crate) fn utf8_text_lossy(bytes: &[u8]) -> (r: String)
    ensures
        r@ == lossy_text(bytes@),
        valid_utf8(bytes@) ==> r@ == decode_utf8(bytes@),
{
    String::from_utf8_lossy(bytes).into_owned()
}

/// The lower-case form that `str::to_lowercase` gives a text, by the Unicode
/// case mappings.
pub uninterp spec fn unicode_lowercase(s: Seq<char>) -> Seq<char>;

/// Calls `str::to_lowercase`.
#[verifier::external_body]
pub(crate) fn to_unicode_lowercase(s: &str) -> (r: String)
    ensures
        r@ == unicode_lowercase(s@),
{
    s.to_lowercase()
}

/// What the `Debug` format of `str` writes for a text: the text between double
/// quotes, with quotes, backslashes and unprintable characters escaped.
pub uninterp spec fn quoted(s: Seq<char>) -> Seq<char>;

/// Formats `s` with the `Debug` format of `str`.
#[verifier::external_body]
pub(crate) fn debug_text(s: &str) -> (r: String)
    ensures
        r@ == quoted(s@),
{
    format!("{:?}", s)
}

/// The character that stands for the value `d` of a hexadecimal digit.
pub open spec fn hex_digit(d: int) -> char {
    if d < 10 {
        (0x30 + d) as char
    } else {
        (0x61 + d - 10) as char
    }
}

/// Two lower-case hexadecimal digits for each byte, the high half first.
pub open spec fn hex_text(bytes: Seq<u8>) -> Seq<char> {
    Seq::new(
        2 * bytes.len(),
        |i: int|
            if i % 2 == 0 {
                hex_digit(bytes[i / 2] as int / 16)
            } else {
                hex_digit(bytes[i / 2] as int % 16)
            },
    )
}

/// Calls `hex::encode`, which writes each byte as two lower-case hexadecimal
/// digits.
#[verifier::external_body]
pub(crate) fn hex_encode(bytes: &[u8]) -> (r: String)
    ensures
        r@ == hex_text(bytes@),
{
    hex::encode(bytes)
}

/// A content coding that can be applied to a message body.
#[derive(Clone, Copy, Debug, PartialEq, Eq, Structural)]
pub enum Coding {
    Gzip,
    Deflate,
    Br,
    /// No coding, or one that is not known: the body stays as it is.
    Identity,
}

/// The coding that a lower-case name stands for.
pub open spec fn coding_named(name: Seq<char>) -> Coding {
    if name == "gzip"@ {
        Coding::Gzip
    } else if name == "deflate"@ {
        Coding::Deflate
    } else if name == "br"@ {
        Coding::Br
    } else {
        Coding::Identity
    }
}

/// Calls the `FromStr` implementation of `http_compress::Compress`, which
/// lowers the case of `value` with `str::to_lowercase` and matches the result
/// against the three coding names; it never fails.
#[verifier::external_body]
pub(crate) fn parse_coding(value: &str) -> (r: Coding)
    ensures
        r == coding_named(unicode_lowercase(value@)),
{
    match value.parse::<Compress>().unwrap_or_default() {
        Compress::Gzip => Coding::Gzip,
        Compress::Deflate => Coding::Deflate,
        Compress::Br => Coding::Br,
        Compress::Unknown => Coding::Identity,
    }
}

/// The bytes that `http_compress::Compress::encode` makes of `data` under
/// `coding`, with a working buffer of `buffer_size` bytes.
pub uninterp spec fn encoded_body(coding: Coding, data: Seq<u8>, buffer_size: usize) -> Seq<u8>;

/// Calls `http_compress::Compress::encode`. Under `Identity` the data comes
/// back unchanged; the other codings compress it, and yield no bytes at all
/// where the compressor fails. The buffer is allocated at once, so its size
/// is kept small.
#[verifier::external_body]
pub(crate) fn encode_body(coding: Coding, data: &[u8], buffer_size: usize) -> (r: Vec<u8>)
    requires
        0 < buffer_size <= 0x10_0000,
    ensures
        r@ == encoded_body(coding, data@, buffer_size),
        coding == Coding::Identity ==> r@ == data@,
{
    let scheme = match coding {
        Coding::Gzip => Compress::Gzip,
        Coding::Deflate => Compress::Deflate,
        Coding::Br => Compress::Br,
        Coding::Identity => Compress::Unknown,
    };
    scheme.encode(data, buffer_size).into_owned()
}

} // verus!
