//! Lists of header fields: which names and values can stand on a header
//! line, what the lines of a list are, and what a map holds once the fields
//! of a list were set in it.

use vstd::prelude::*;
use vstd::utf8::*;
use crate::headers::{
    Field, distinct_keys, key_position, value_of, with_field, lemma_key_position_from,
    lemma_with_field,
};
use crate::response::{header_line};
use crate::text::{decimal, is_digit, is_whitespace, lemma_decimal_value};

verus! {

/// Whether `s` has no whitespace at either end.
pub open spec fn is_trimmed(s: Seq<char>) -> bool {
    s.len() == 0 || (!is_whitespace(s[0]) && !is_whitespace(s.last()))
}

/// Whether a colon followed by a space stands somewhere in `s`.
pub open spec fn holds_separator(s: Seq<char>) -> bool {
    exists|i: int| 0 <= i && i + 1 < s.len() && s[i] == ':' && #[trigger] s[i + 1] == ' '
}

/// Whether `key` can stand as a header name on a line of its own: no
/// whitespace at its ends, no line feed and no colon-and-space inside.
pub open spec fn is_clean_name(key: Seq<char>) -> bool {
    is_trimmed(key) && !key.contains('\n') && !holds_separator(key)
}

/// Whether `value` can stand as a header value on a line of its own: not
/// empty, no whitespace at its ends and no line feed inside.
pub open spec fn is_clean_value(value: Seq<char>) -> bool {
    value.len() > 0 && is_trimmed(value) && !value.contains('\n')
}

/// Whether every name and value of `fields` can stand on a header line.
pub open spec fn are_clean(fields: Seq<Field>) -> bool {
    forall|i: int|
        0 <= i < fields.len() ==> is_clean_name((#[trigger] fields[i]).0) && is_clean_value(
            fields[i].1,
        )
}

/// Whether `s` is made of letters, digits and the marks `-`, `/`, `;`, `=`,
/// with single spaces inside at most.
pub open spec fn is_plain(s: Seq<char>) -> bool {
    &&& s.len() > 0
    &&& s[0] != ' '
    &&& s.last() != ' '
    &&& forall|i: int|
        0 <= i < s.len() ==> {
            let c = #[trigger] s[i];
            ('a' <= c <= 'z') || ('A' <= c <= 'Z') || ('0' <= c <= '9') || c == '-' || c == '/'
                || c == ';' || c == '=' || c == ' '
        }
}

/// A plain text is clean both as a name and as a value.
pub proof fn lemma_literal_is_clean(s: Seq<char>)
    requires
        is_plain(s),
    ensures
        is_clean_name(s),
        is_clean_value(s),
{
    assert(!is_whitespace(s[0]));
    assert(!is_whitespace(s[s.len() - 1]));
    assert forall|i: int| 0 <= i < s.len() implies s[i] != '\n' by {
        let c = s[i];
    }
    assert(!holds_separator(s)) by {
        if holds_separator(s) {
            let i = choose|i: int| 0 <= i && i + 1 < s.len() && s[i] == ':' && #[trigger] s[i + 1] == ' ';
            let c = s[i];
            assert(false);
        }
    }
}

/// A decimal number is a clean header value.
pub proof fn lemma_decimal_is_clean(n: nat)
    ensures
        is_clean_value(decimal(n)),
{
    lemma_decimal_value(n);
    let d = decimal(n);
    assert(is_digit(d[0]) && is_digit(d[d.len() - 1]));
    assert forall|i: int| 0 <= i < d.len() implies d[i] != '\n' by {
        assert(is_digit(d[i]));
    }
}

/// The header lines of `fields` in order, one line for each field.
pub open spec fn lines_of(fields: Seq<Field>) -> Seq<char>
    decreases fields.len(),
{
    if fields.len() == 0 {
        Seq::empty()
    } else {
        lines_of(fields.drop_last()) + header_line(fields.last().0, fields.last().1)
    }
}

/// The lines of one field are its header line.
pub proof fn lemma_lines_of_one(field: Field)
    ensures
        lines_of(seq![field]) == header_line(field.0, field.1),
        lines_of(Seq::<Field>::empty()) == Seq::<char>::empty(),
{
    let one = seq![field];
    assert(one.drop_last() == Seq::<Field>::empty());
    assert(lines_of(one.drop_last()) == Seq::<char>::empty());
    assert(one.last() == field);
}

/// `start` after each of `fields` was set in it in turn.
pub open spec fn set_in_turn(start: Seq<Field>, fields: Seq<Field>) -> Seq<Field>
    decreases fields.len(),
{
    if fields.len() == 0 {
        start
    } else {
        with_field(set_in_turn(start, fields.drop_last()), fields.last().0, fields.last().1)
    }
}

/// The value of the last of `fields` that is named `key`.
pub open spec fn last_value(fields: Seq<Field>, key: Seq<char>) -> Option<Seq<char>>
    decreases fields.len(),
{
    if fields.len() == 0 {
        None
    } else if fields.last().0 == key {
        Some(fields.last().1)
    } else {
        last_value(fields.drop_last(), key)
    }
}

/// In a map with distinct names, the value found under a name is the value
/// of the one field of that name.
pub proof fn lemma_value_of_distinct(fields: Seq<Field>, key: Seq<char>)
    requires
        distinct_keys(fields),
    ensures
        value_of(fields, key) == last_value(fields, key),
    decreases fields.len(),
{
    lemma_key_position_from(fields, key, 0);
    if fields.len() > 0 {
        let init = fields.drop_last();
        assert(distinct_keys(init)) by {
            assert forall|i: int, j: int| 0 <= i < j < init.len() implies (#[trigger] init[i]).0
                != (#[trigger] init[j]).0 by {
                assert(init[i] == fields[i] && init[j] == fields[j]);
            }
        }
        lemma_value_of_distinct(init, key);
        lemma_key_position_from(init, key, 0);
        let p = key_position(fields, key);
        let q = key_position(init, key);
        if fields.last().0 == key {
            if p < fields.len() - 1 {
                assert(fields[p].0 != fields[fields.len() - 1].0);
            }
        } else {
            if q < init.len() {
                assert(init[q] == fields[q]);
            }
            if p < fields.len() {
                assert(init[p] == fields[p]);
            }
        }
    }
}

/// Setting fields in turn keeps the names distinct, and leaves under each
/// name the value that was set last, or the value that the map held before.
pub proof fn lemma_set_in_turn(start: Seq<Field>, fields: Seq<Field>, key: Seq<char>)
    requires
        distinct_keys(start),
    ensures
        distinct_keys(set_in_turn(start, fields)),
        value_of(set_in_turn(start, fields), key) == match last_value(fields, key) {
            Some(value) => Some(value),
            None => value_of(start, key),
        },
    decreases fields.len(),
{
    if fields.len() > 0 {
        lemma_set_in_turn(start, fields.drop_last(), key);
        lemma_with_field(set_in_turn(start, fields.drop_last()), fields.last().0, fields.last().1);
    }
}

/// Setting fields with distinct names in an empty map gives the fields.
pub proof fn lemma_set_in_turn_distinct(fields: Seq<Field>)
    requires
        distinct_keys(fields),
    ensures
        set_in_turn(Seq::empty(), fields) == fields,
    decreases fields.len(),
{
    if fields.len() > 0 {
        let init = fields.drop_last();
        let last = fields.last();
        assert(distinct_keys(init)) by {
            assert forall|i: int, j: int| 0 <= i < j < init.len() implies (#[trigger] init[i]).0
                != (#[trigger] init[j]).0 by {
                assert(init[i] == fields[i] && init[j] == fields[j]);
            }
        }
        lemma_set_in_turn_distinct(init);
        lemma_key_position_from(init, last.0, 0);
        let p = key_position(init, last.0);
        if p < init.len() {
            assert(init[p] == fields[p]);
            assert(fields[p].0 != fields[fields.len() - 1].0);
        }
        assert(init.push(last) == fields);
    }
}

/// Every field of a map that was filled by setting fields in turn is one
/// of the fields that were set.
pub proof fn lemma_set_in_turn_members(fields: Seq<Field>, j: int)
    requires
        0 <= j < set_in_turn(Seq::empty(), fields).len(),
    ensures
        exists|i: int| 0 <= i < fields.len() && set_in_turn(Seq::empty(), fields)[j] == #[trigger] fields[i],
    decreases fields.len(),
{
    if fields.len() > 0 {
        let init = fields.drop_last();
        let before = set_in_turn(Seq::empty(), init);
        let last = fields.last();
        let after = set_in_turn(Seq::empty(), fields);
        lemma_key_position_from(before, last.0, 0);
        let p = key_position(before, last.0);
        if (p < before.len() && j == p) || (p >= before.len() && j == before.len()) {
            assert(after[j] == fields[fields.len() - 1]);
        } else {
            assert(after[j] == before[j]);
            lemma_set_in_turn_members(init, j);
            let i = choose|i: int| 0 <= i < init.len() && before[j] == #[trigger] init[i];
            assert(init[i] == fields[i]);
        }
    }
}

/// The value set last under a name is that of the last field of that name.
pub proof fn lemma_last_value_at(fields: Seq<Field>, i: int)
    requires
        0 <= i < fields.len(),
        forall|j: int| i < j < fields.len() ==> (#[trigger] fields[j]).0 != fields[i].0,
    ensures
        last_value(fields, fields[i].0) == Some(fields[i].1),
    decreases fields.len(),
{
    if i < fields.len() - 1 {
        let init = fields.drop_last();
        assert(fields[fields.len() - 1].0 != fields[i].0);
        assert(init[i] == fields[i]);
        assert forall|j: int| i < j < init.len() implies (#[trigger] init[j]).0 != init[i].0 by {
            assert(init[j] == fields[j]);
        }
        lemma_last_value_at(init, i);
    }
}

/// The lines of two lists of fields in a row are the lines of the lists in a
/// row, and the value set last is found in the second list before the first.
pub proof fn lemma_fields_in_a_row(a: Seq<Field>, b: Seq<Field>, key: Seq<char>)
    ensures
        lines_of(a + b) == lines_of(a) + lines_of(b),
        last_value(a + b, key) == match last_value(b, key) {
            Some(value) => Some(value),
            None => last_value(a, key),
        },
        are_clean(a) && are_clean(b) ==> are_clean(a + b),
    decreases b.len(),
{
    if b.len() == 0 {
        assert(a + b == a);
    } else {
        lemma_fields_in_a_row(a, b.drop_last(), key);
        assert((a + b).drop_last() == a + b.drop_last());
        assert((a + b).last() == b.last());
        if are_clean(a) && are_clean(b) {
            assert forall|i: int| 0 <= i < (a + b).len() implies is_clean_name(
                (#[trigger] (a + b)[i]).0,
            ) && is_clean_value((a + b)[i].1) by {
                if i < a.len() {
                    assert((a + b)[i] == a[i]);
                } else {
                    assert((a + b)[i] == b[i - a.len()]);
                }
            }
        }
    }
}

} // verus!
