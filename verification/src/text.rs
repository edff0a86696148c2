//! Text as sequences of characters: the scanning, trimming, case folding and
//! number formats that the message grammar is written in.
//!
//! Every definition here speaks of `Seq<char>`; the executable functions
//! work on slices of `char` and are proved against those definitions.

use vstd::prelude::*;
use vstd::string::*;
use crate::trusted::push_char;

verus! {

/// Whether `c` has the Unicode property White_Space.
pub open spec fn is_whitespace(c: char) -> bool {
    let n = c as u32;
    ||| 0x09 <= n <= 0x0d
    ||| n == 0x20
    ||| n == 0x85
    ||| n == 0xa0
    ||| n == 0x1680
    ||| 0x2000 <= n <= 0x200a
    ||| n == 0x2028
    ||| n == 0x2029
    ||| n == 0x202f
    ||| n == 0x205f
    ||| n == 0x3000
}

/// Tells whether `c` is a whitespace character.
pub fn whitespace(c: char) -> (r: bool)
    ensures
        r == is_whitespace(c),
{
    let n: u32 = c as u32;
    (0x09 <= n && n <= 0x0d) || n == 0x20 || n == 0x85 || n == 0xa0 || n == 0x1680 || (0x2000 <= n
        && n <= 0x200a) || n == 0x2028 || n == 0x2029 || n == 0x202f || n == 0x205f || n == 0x3000
}

/// The first position at or after `i` whose character is whitespace exactly
/// when `blank` is false, or the length of `s` where there is none: the end
/// of the run of blanks (`blank`) or of non-blanks (`!blank`) that starts at `i`.
pub open spec fn run_end(s: Seq<char>, i: int, blank: bool) -> int
    decreases s.len() - i,
{
    if 0 <= i < s.len() && is_whitespace(s[i]) == blank {
        run_end(s, i + 1, blank)
    } else {
        i
    }
}

/// The start of the run of whitespace that ends just before `j`.
pub open spec fn blank_run_start(s: Seq<char>, j: int) -> int
    decreases j,
{
    if 0 < j <= s.len() && is_whitespace(s[j - 1]) {
        blank_run_start(s, j - 1)
    } else {
        j
    }
}

/// `s` without its leading and trailing whitespace.
pub open spec fn trim(s: Seq<char>) -> Seq<char> {
    let a = run_end(s, 0, true);
    let b = blank_run_start(s, s.len() as int);
    if a < b {
        s.subrange(a, b)
    } else {
        Seq::empty()
    }
}

/// A run ends within the text; every character of it is of its kind, and the
/// character after it, if there is one, is not.
pub proof fn lemma_run_end(s: Seq<char>, i: int, blank: bool)
    requires
        0 <= i <= s.len(),
    ensures
        i <= run_end(s, i, blank) <= s.len(),
        forall|k: int| i <= k < run_end(s, i, blank) ==> is_whitespace(#[trigger] s[k]) == blank,
        run_end(s, i, blank) < s.len() ==> is_whitespace(s[run_end(s, i, blank)]) != blank,
    decreases s.len() - i,
{
    if i < s.len() && is_whitespace(s[i]) == blank {
        lemma_run_end(s, i + 1, blank);
    }
}

/// A run of blanks before `j` starts within the text; every character of it
/// is a blank, and the character before it, if there is one, is not.
pub proof fn lemma_blank_run_start(s: Seq<char>, j: int)
    requires
        0 <= j <= s.len(),
    ensures
        0 <= blank_run_start(s, j) <= j,
        forall|k: int| blank_run_start(s, j) <= k < j ==> is_whitespace(#[trigger] s[k]),
        blank_run_start(s, j) > 0 ==> !is_whitespace(s[blank_run_start(s, j) - 1]),
    decreases j,
{
    if 0 < j && is_whitespace(s[j - 1]) {
        lemma_blank_run_start(s, j - 1);
    }
}

/// The whitespace-separated words of `s` that start at or after `i`.
pub open spec fn words_from(s: Seq<char>, i: int) -> Seq<Seq<char>>
    decreases s.len() - i,
{
    let a = run_end(s, i, true);
    if 0 <= i <= s.len() && a < s.len() {
        let b = run_end(s, a + 1, false);
        proof {
            lemma_run_end(s, i, true);
            lemma_run_end(s, a + 1, false);
        }
        seq![s.subrange(a, b)].add(words_from(s, b))
    } else {
        Seq::empty()
    }
}

/// The whitespace-separated words of `s`, in order; none of them is empty.
pub open spec fn words(s: Seq<char>) -> Seq<Seq<char>> {
    words_from(s, 0)
}

/// The words from `i` on are none where only blanks are left; else the word
/// that starts after the blanks, then the words that follow it.
pub proof fn lemma_words_from(s: Seq<char>, i: int)
    requires
        0 <= i <= s.len(),
    ensures
        run_end(s, i, true) >= s.len() ==> words_from(s, i) == Seq::<Seq<char>>::empty(),
        run_end(s, i, true) < s.len() ==> {
            let a = run_end(s, i, true);
            let b = run_end(s, a + 1, false);
            &&& i <= a < b <= s.len()
            &&& words_from(s, i) == seq![s.subrange(a, b)].add(words_from(s, b))
            &&& words_from(s, i).len() == 1 + words_from(s, b).len()
            &&& words_from(s, i)[0] == s.subrange(a, b)
        },
{
    lemma_run_end(s, i, true);
    let a = run_end(s, i, true);
    if a < s.len() {
        lemma_run_end(s, a + 1, false);
    }
}

/// The first position at or after `i` that holds `c`, or the length of `s`.
pub open spec fn position_from(s: Seq<char>, c: char, i: int) -> int
    decreases s.len() - i,
{
    if 0 <= i < s.len() && s[i] != c {
        position_from(s, c, i + 1)
    } else {
        i
    }
}

/// The first position of `c` in `s`, or the length of `s` where `c` does not occur.
pub open spec fn position(s: Seq<char>, c: char) -> int {
    position_from(s, c, 0)
}

/// The position found lies within the text or at its end; no character
/// before it is `c`, and the character at it, if there is one, is `c`.
pub proof fn lemma_position_from(s: Seq<char>, c: char, i: int)
    requires
        0 <= i <= s.len(),
    ensures
        i <= position_from(s, c, i) <= s.len(),
        forall|k: int| i <= k < position_from(s, c, i) ==> #[trigger] s[k] != c,
        position_from(s, c, i) < s.len() ==> s[position_from(s, c, i)] == c,
    decreases s.len() - i,
{
    if i < s.len() && s[i] != c {
        lemma_position_from(s, c, i + 1);
    }
}

/// Whether a colon followed by a space stands at `i`.
pub open spec fn separator_at(s: Seq<char>, i: int) -> bool {
    0 <= i && i + 1 < s.len() && s[i] == ':' && s[i + 1] == ' '
}

/// The first position at or after `i` where a colon and a space stand, or the length of `s`.
pub open spec fn separator_from(s: Seq<char>, i: int) -> int
    decreases s.len() - i,
{
    if 0 <= i < s.len() && !separator_at(s, i) {
        separator_from(s, i + 1)
    } else {
        i
    }
}

/// The position found lies within the text or at its end; no colon and
/// space stand before it, and they stand at it where it is within the text.
pub proof fn lemma_separator_from(s: Seq<char>, i: int)
    requires
        0 <= i <= s.len(),
    ensures
        i <= separator_from(s, i) <= s.len(),
        forall|k: int| i <= k < separator_from(s, i) ==> !#[trigger] separator_at(s, k),
        separator_from(s, i) < s.len() ==> separator_at(s, separator_from(s, i)),
    decreases s.len() - i,
{
    if i < s.len() && !separator_at(s, i) {
        lemma_separator_from(s, i + 1);
    }
}

/// The lower-case form of an ASCII capital letter; any other character itself.
pub open spec fn ascii_lower(c: char) -> char {
    if 'A' <= c <= 'Z' {
        ((c as u8) + 32) as char
    } else {
        c
    }
}

/// `s` with each ASCII capital letter replaced by its lower-case form.
pub open spec fn ascii_lowercase(s: Seq<char>) -> Seq<char> {
    Seq::new(s.len(), |i: int| ascii_lower(s[i]))
}

/// Whether `a` and `b` differ at most in the case of ASCII letters.
pub open spec fn same_ignoring_ascii_case(a: Seq<char>, b: Seq<char>) -> bool {
    ascii_lowercase(a) == ascii_lowercase(b)
}

/// Whether every character of `s` is an ASCII character.
pub open spec fn is_ascii_text(s: Seq<char>) -> bool {
    forall|i: int| 0 <= i < s.len() ==> (#[trigger] s[i] as u32) < 128
}


/// The characters of `s`.
pub fn chars_of(s: &str) -> (v: Vec<char>)
    ensures
        v@ == s@,
{
    let mut v: Vec<char> = Vec::new();
    for c in it: s.chars()
        invariant
            v@ == s@.take(it.index() as int),
            it.seq() == s@,
    {
        v.push(c);
    }
    v
}

/// The string that holds the characters of `v`.
pub fn string_of(v: &[char]) -> (s: String)
    ensures
        s@ == v@,
{
    let mut s = String::new();
    let mut i: usize = 0;
    while i < v.len()
        invariant
            i <= v.len(),
            s@ == v@.take(i as int),
        decreases v.len() - i,
    {
        push_char(&mut s, v[i]);
        i += 1;
    }
    s
}

/// The string that holds the characters of `v` from `from` up to `to`.
pub fn string_between(v: &[char], from: usize, to: usize) -> (s: String)
    requires
        from <= to <= v.len(),
    ensures
        s@ == v@.subrange(from as int, to as int),
{
    let mut s = String::new();
    let mut i: usize = from;
    while i < to
        invariant
            from <= i <= to <= v.len(),
            s@ == v@.subrange(from as int, i as int),
        decreases to - i,
    {
        push_char(&mut s, v[i]);
        i += 1;
    }
    s
}

/// Whether `a` and `b` hold the same characters.
pub fn same_text(a: &[char], b: &[char]) -> (r: bool)
    ensures
        r == (a@ == b@),
{
    if a.len() != b.len() {
        return false;
    }
    let mut i: usize = 0;
    while i < a.len()
        invariant
            i <= a.len() == b.len(),
            a@.take(i as int) == b@.take(i as int),
        decreases a.len() - i,
    {
        if a[i] != b[i] {
            return false;
        }
        i += 1;
    }
    assert(a@ == a@.take(a.len() as int));
    assert(b@ == b@.take(b.len() as int));
    true
}

/// Whether the strings `a` and `b` hold the same characters.
pub fn same_str(a: &str, b: &str) -> (r: bool)
    ensures
        r == (a@ == b@),
{
    let x = chars_of(a);
    let y = chars_of(b);
    same_text(x.as_slice(), y.as_slice())
}

/// The lower-case form of `c` where it is an ASCII capital letter, else `c`.
pub fn lower_char(c: char) -> (r: char)
    ensures
        r == ascii_lower(c),
{
    if 'A' <= c && c <= 'Z' {
        ((c as u8) + 32) as char
    } else {
        c
    }
}

/// `v` with each ASCII capital letter in lower case.
pub fn lowercase_ascii(v: &[char]) -> (r: Vec<char>)
    ensures
        r@ == ascii_lowercase(v@),
{
    let mut r: Vec<char> = Vec::new();
    let mut i: usize = 0;
    while i < v.len()
        invariant
            i <= v.len(),
            r@ == ascii_lowercase(v@).take(i as int),
        decreases v.len() - i,
    {
        r.push(lower_char(v[i]));
        i += 1;
    }
    r
}

/// Whether `a` and `b` are the same but for the case of ASCII letters.
pub fn same_ignoring_case(a: &[char], b: &[char]) -> (r: bool)
    ensures
        r == same_ignoring_ascii_case(a@, b@),
{
    let x = lowercase_ascii(a);
    let y = lowercase_ascii(b);
    same_text(x.as_slice(), y.as_slice())
}

/// Whether every character of `v` is an ASCII character.
pub fn all_ascii(v: &[char]) -> (r: bool)
    ensures
        r == is_ascii_text(v@),
{
    let mut i: usize = 0;
    while i < v.len()
        invariant
            i <= v.len(),
            forall|k: int| 0 <= k < i ==> (#[trigger] v@[k] as u32) < 128,
        decreases v.len() - i,
    {
        if v[i] as u32 >= 128 {
            return false;
        }
        i += 1;
    }
    true
}

/// The end of the run of blanks, or of non-blanks, that starts at `from`.
pub fn scan_run(v: &[char], from: usize, blank: bool) -> (r: usize)
    requires
        from <= v.len(),
    ensures
        r == run_end(v@, from as int, blank),
        from <= r <= v.len(),
{
    let mut i: usize = from;
    while i < v.len() && whitespace(v[i]) == blank
        invariant
            from <= i <= v.len(),
            run_end(v@, from as int, blank) == run_end(v@, i as int, blank),
        decreases v.len() - i,
    {
        i += 1;
    }
    i
}

/// The bounds of `v` without its leading and trailing whitespace: the pair
/// `(a, b)` with `a <= b` for which `v[a..b]` is the trimmed text.
pub fn trim_bounds(v: &[char]) -> (r: (usize, usize))
    ensures
        r.0 <= r.1 <= v.len(),
        v@.subrange(r.0 as int, r.1 as int) == trim(v@),
{
    let a = scan_run(v, 0, true);
    let mut b: usize = v.len();
    while b > 0 && whitespace(v[b - 1])
        invariant
            b <= v.len(),
            blank_run_start(v@, v.len() as int) == blank_run_start(v@, b as int),
        decreases b,
    {
        b -= 1;
    }
    if a < b {
        (a, b)
    } else {
        (a, a)
    }
}

/// `v` without its leading and trailing whitespace.
pub fn trimmed(v: &[char]) -> (r: Vec<char>)
    ensures
        r@ == trim(v@),
{
    let (a, b) = trim_bounds(v);
    slice_between(v, a, b)
}

/// The characters of `v` from `from` up to `to`.
pub fn slice_between(v: &[char], from: usize, to: usize) -> (r: Vec<char>)
    requires
        from <= to <= v.len(),
    ensures
        r@ == v@.subrange(from as int, to as int),
{
    let mut r: Vec<char> = Vec::new();
    let mut i: usize = from;
    while i < to
        invariant
            from <= i <= to <= v.len(),
            r@ == v@.subrange(from as int, i as int),
        decreases to - i,
    {
        r.push(v[i]);
        i += 1;
    }
    r
}

/// The first position of `c` in `v`, or the length of `v`.
pub fn find_char(v: &[char], c: char) -> (r: usize)
    ensures
        r == position(v@, c),
        r <= v.len(),
{
    let mut i: usize = 0;
    while i < v.len() && v[i] != c
        invariant
            i <= v.len(),
            position(v@, c) == position_from(v@, c, i as int),
        decreases v.len() - i,
    {
        i += 1;
    }
    i
}

/// The first position in `v` where a colon and a space stand, or the length of `v`.
pub fn find_separator(v: &[char]) -> (r: usize)
    ensures
        r == separator_from(v@, 0),
        r <= v.len(),
        r < v.len() ==> r + 2 <= v.len(),
{
    let mut i: usize = 0;
    while i < v.len() && !(v[i] == ':' && i + 1 < v.len() && v[i + 1] == ' ')
        invariant
            i <= v.len(),
            separator_from(v@, 0) == separator_from(v@, i as int),
        decreases v.len() - i,
    {
        i += 1;
    }
    i
}


/// Whether `c` is one of the ten decimal digits.
pub open spec fn is_digit(c: char) -> bool {
    '0' <= c <= '9'
}

/// Whether `s` holds decimal digits only.
pub open spec fn all_digits(s: Seq<char>) -> bool {
    forall|i: int| 0 <= i < s.len() ==> is_digit(#[trigger] s[i])
}

/// The number that the decimal digits `s` write.
pub open spec fn digits_value(s: Seq<char>) -> nat
    decreases s.len(),
{
    if s.len() == 0 {
        0
    } else {
        (digits_value(s.drop_last()) * 10 + (s.last() as u32 - 0x30)) as nat
    }
}

/// The digits of a text that writes a number: the text itself, or what follows its plus sign.
pub open spec fn unsigned_digits(s: Seq<char>) -> Seq<char> {
    if s.len() > 0 && s[0] == '+' {
        s.drop_first()
    } else {
        s
    }
}

/// The number that `s` writes in decimal, where it writes one that a `usize`
/// can hold: one digit or more, after at most one plus sign.
pub open spec fn parsed_usize(s: Seq<char>) -> Option<usize> {
    let d = unsigned_digits(s);
    if d.len() > 0 && all_digits(d) && digits_value(d) <= usize::MAX {
        Some(digits_value(d) as usize)
    } else {
        None
    }
}

/// The decimal digit that stands for `d`.
pub open spec fn digit_char(d: nat) -> char {
    (0x30 + d) as char
}

/// The decimal form of `n`, without leading zeros.
pub open spec fn decimal(n: nat) -> Seq<char>
    decreases n,
{
    if n < 10 {
        seq![digit_char(n)]
    } else {
        decimal(n / 10).push(digit_char(n % 10))
    }
}

/// Digits appended to digits write a number that is not smaller.
pub proof fn lemma_digits_value_grows(s: Seq<char>, k: int)
    requires
        0 <= k <= s.len(),
        all_digits(s),
    ensures
        digits_value(s.take(k)) <= digits_value(s),
    decreases s.len() - k,
{
    if k < s.len() {
        lemma_digits_value_grows(s, k + 1);
        let t = s.take(k + 1);
        assert(t.drop_last() == s.take(k));
    } else {
        assert(s.take(k) == s);
    }
}

/// The decimal form of a number is made of digits, and writes that number.
pub proof fn lemma_decimal_value(n: nat)
    ensures
        decimal(n).len() > 0,
        all_digits(decimal(n)),
        digits_value(decimal(n)) == n,
        decimal(n)[0] != '+',
    decreases n,
{
    if n < 10 {
        let s = decimal(n);
        assert(digits_value(s.drop_last()) == 0);
    } else {
        lemma_decimal_value(n / 10);
        let s = decimal(n);
        assert(s.drop_last() == decimal(n / 10));
    }
}

/// Reading back the decimal form of a number gives the number.
pub proof fn law_decimal_round_trip(n: usize)
    ensures
        parsed_usize(decimal(n as nat)) == Some(n),
{
    lemma_decimal_value(n as nat);
}

/// The number that `v` writes in decimal, if it writes one that fits.
pub fn parse_usize(v: &[char]) -> (r: Option<usize>)
    ensures
        r == parsed_usize(v@),
{
    let start: usize = if v.len() > 0 && v[0] == '+' {
        1
    } else {
        0
    };
    let ghost d = unsigned_digits(v@);
    if start == v.len() {
        return None;
    }
    let mut acc: usize = 0;
    let mut i: usize = start;
    while i < v.len()
        invariant
            start <= i <= v.len(),
            start < v.len(),
            d == unsigned_digits(v@),
            d == v@.subrange(start as int, v.len() as int),
            all_digits(d.take(i - start)),
            acc == digits_value(d.take(i - start)),
        decreases v.len() - i,
    {
        let c = v[i];
        let ghost next = d.take(i - start + 1);
        assert(next.drop_last() == d.take(i - start));
        if !('0' <= c && c <= '9') {
            assert(!is_digit(d[i - start]));
            return None;
        }
        let digit: usize = (c as u32 - 0x30) as usize;
        if acc > (usize::MAX - digit) / 10 {
            proof {
                if all_digits(d) {
                    lemma_digits_value_grows(d, i - start + 1);
                }
            }
            return None;
        }
        acc = acc * 10 + digit;
        i += 1;
    }
    assert(d.take(i - start) == d);
    Some(acc)
}

/// Appends the decimal form of `n` to `out`.
pub fn push_decimal(out: &mut Vec<char>, n: usize)
    ensures
        final(out)@ == old(out)@ + decimal(n as nat),
    decreases n,
{
    if n >= 10 {
        push_decimal(out, n / 10);
    }
    let digit: u8 = (n % 10) as u8;
    out.push((0x30 + digit) as char);
}

/// The decimal form of `n`.
pub fn decimal_string(n: usize) -> (s: String)
    ensures
        s@ == decimal(n as nat),
{
    let mut out: Vec<char> = Vec::new();
    push_decimal(&mut out, n);
    string_of(out.as_slice())
}

} // verus!
