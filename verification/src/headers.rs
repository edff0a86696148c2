//! Header fields: an insertion-ordered map from names to values.
//!
//! A name occurs at most once. Setting a name that is present replaces its
//! value in place; a new name goes to the end.

use vstd::prelude::*;
use vstd::string::*;
use crate::text::same_str;

verus! {

/// One header field as mathematics sees it: the name and the value.
pub type Field = (Seq<char>, Seq<char>);

/// The first position at or after `i` whose field is named `key`, or the length of `fields`.
pub open spec fn key_position_from(fields: Seq<Field>, key: Seq<char>, i: int) -> int
    decreases fields.len() - i,
{
    if 0 <= i < fields.len() && fields[i].0 != key {
        key_position_from(fields, key, i + 1)
    } else {
        i
    }
}

/// The first position whose field is named `key`, or the length of `fields`.
pub open spec fn key_position(fields: Seq<Field>, key: Seq<char>) -> int {
    key_position_from(fields, key, 0)
}

/// Whether a field named `key` is among `fields`.
pub open spec fn has_key(fields: Seq<Field>, key: Seq<char>) -> bool {
    key_position(fields, key) < fields.len()
}

/// The value of the first field named `key`.
pub open spec fn value_of(fields: Seq<Field>, key: Seq<char>) -> Option<Seq<char>> {
    if has_key(fields, key) {
        Some(fields[key_position(fields, key)].1)
    } else {
        None
    }
}

/// `fields` after `key` was set to `value`: replaced where the name is
/// present, appended where it is not.
pub open spec fn with_field(fields: Seq<Field>, key: Seq<char>, value: Seq<char>) -> Seq<Field> {
    if has_key(fields, key) {
        fields.update(key_position(fields, key), (key, value))
    } else {
        fields.push((key, value))
    }
}

/// Whether no two of `fields` share a name.
pub open spec fn distinct_keys(fields: Seq<Field>) -> bool {
    forall|i: int, j: int|
        0 <= i < j < fields.len() ==> (#[trigger] fields[i]).0 != (#[trigger] fields[j]).0
}

/// The position found lies within the fields or at their end; no field
/// before it is named `key`, and the field at it, if there is one, is.
pub proof fn lemma_key_position_from(fields: Seq<Field>, key: Seq<char>, i: int)
    requires
        0 <= i <= fields.len(),
    ensures
        i <= key_position_from(fields, key, i) <= fields.len(),
        forall|k: int|
            i <= k < key_position_from(fields, key, i) ==> (#[trigger] fields[k]).0 != key,
        key_position_from(fields, key, i) < fields.len() ==> fields[key_position_from(
            fields,
            key,
            i,
        )].0 == key,
    decreases fields.len() - i,
{
    if i < fields.len() && fields[i].0 != key {
        lemma_key_position_from(fields, key, i + 1);
    }
}

/// Setting a field keeps the names distinct, makes the name present with the
/// value given, and leaves every other name as it was.
pub proof fn lemma_with_field(fields: Seq<Field>, key: Seq<char>, value: Seq<char>)
    requires
        distinct_keys(fields),
    ensures
        distinct_keys(with_field(fields, key, value)),
        value_of(with_field(fields, key, value), key) == Some(value),
        forall|other: Seq<char>|
            other != key ==> value_of(with_field(fields, key, value), other) == value_of(
                fields,
                other,
            ),
{
    let after = with_field(fields, key, value);
    lemma_key_position_from(fields, key, 0);
    lemma_key_position_from(after, key, 0);
    let p = key_position(fields, key);
    assert(after[p] == (key, value));
    assert forall|other: Seq<char>| other != key implies value_of(after, other) == value_of(
        fields,
        other,
    ) by {
        lemma_key_position_from(fields, other, 0);
        lemma_key_position_from(after, other, 0);
        let a = key_position(fields, other);
        if a < fields.len() {
            assert(after[a] == fields[a]);
        }
    }
}

/// An insertion-ordered map from header names to header values.
#[derive(Debug)]
pub struct Headers {
    entries: Vec<(String, String)>,
}

/// The fields that a vector of string pairs stands for.
pub open spec fn fields_of(entries: Seq<(String, String)>) -> Seq<Field> {
    Seq::new(entries.len(), |i: int| (entries[i].0@, entries[i].1@))
}

impl View for Headers {
    type V = Seq<Field>;

    closed spec fn view(&self) -> Seq<Field> {
        fields_of(self.entries@)
    }
}

impl Headers {
    /// No two fields of a header map share a name.
    #[verifier::type_invariant]
    pub open spec fn well_formed(&self) -> bool {
        distinct_keys(self@)
    }

    /// A map without fields.
    pub fn new() -> (r: Headers)
        ensures
            r@ == Seq::<Field>::empty(),
    {
        Headers { entries: Vec::new() }
    }

    /// The number of fields.
    pub fn len(&self) -> (r: usize)
        ensures
            r == self@.len(),
    {
        self.entries.len()
    }

    /// Whether the map has no field.
    pub fn is_empty(&self) -> (r: bool)
        ensures
            r == (self@.len() == 0),
    {
        self.entries.len() == 0
    }

    /// The position of the field named `key`, or the number of fields.
    fn find(&self, key: &str) -> (r: usize)
        ensures
            r == key_position(self@, key@),
            r <= self@.len(),
    {
        let mut i: usize = 0;
        while i < self.entries.len() && !same_str(self.entries[i].0.as_str(), key)
            invariant
                i <= self.entries@.len(),
                self@.len() == self.entries@.len(),
                forall|k: int| 0 <= k < self.entries@.len() ==> (#[trigger] self@[k]).0 == self.entries@[k].0@,
                key_position(self@, key@) == key_position_from(self@, key@, i as int),
            decreases self.entries@.len() - i,
        {
            i += 1;
        }
        i
    }

    /// Whether a field named `key` is present.
    pub fn contains_key(&self, key: &str) -> (r: bool)
        ensures
            r == has_key(self@, key@),
    {
        self.find(key) < self.entries.len()
    }

    /// The value of the field named `key`.
    pub fn get(&self, key: &str) -> (r: Option<String>)
        ensures
            r is Some == has_key(self@, key@),
            r matches Some(v) ==> Some(v@) == value_of(self@, key@),
    {
        let i = self.find(key);
        if i < self.entries.len() {
            Some(self.entries[i].1.clone())
        } else {
            None
        }
    }

    /// The name of the field at position `i`.
    pub fn key_at(&self, i: usize) -> (r: &str)
        requires
            i < self@.len(),
        ensures
            r@ == self@[i as int].0,
    {
        self.entries[i].0.as_str()
    }

    /// The value of the field at position `i`.
    pub fn value_at(&self, i: usize) -> (r: &str)
        requires
            i < self@.len(),
        ensures
            r@ == self@[i as int].1,
    {
        self.entries[i].1.as_str()
    }

    /// Sets the field named `key` to `value`.
    pub fn insert(&mut self, key: String, value: String)
        ensures
            final(self)@ == with_field(old(self)@, key@, value@),
    {
        proof {
            use_type_invariant(&*self);
            lemma_with_field(self@, key@, value@);
        }
        let i = self.find(key.as_str());
        let mut taken = Headers::new();
        std::mem::swap(self, &mut taken);
        let Headers { entries } = taken;
        let mut entries = entries;
        if i < entries.len() {
            entries.set(i, (key, value));
        } else {
            entries.push((key, value));
        }
        assert(fields_of(entries@) == with_field(old(self)@, key@, value@));
        *self = Headers { entries };
    }

    /// Removes every field.
    pub fn clear(&mut self)
        ensures
            final(self)@ == Seq::<Field>::empty(),
    {
        *self = Headers::new();
    }

    /// The fields in order, each as a pair of name and value.
    pub fn to_vec(&self) -> (r: Vec<(String, String)>)
        ensures
            r@.len() == self@.len(),
            forall|i: int| 0 <= i < r@.len() ==> (#[trigger] r@[i]).0@ == self@[i].0 && r@[i].1@ == self@[i].1,
    {
        let mut r: Vec<(String, String)> = Vec::new();
        let mut i: usize = 0;
        while i < self.entries.len()
            invariant
                i <= self.entries@.len(),
                self@.len() == self.entries@.len(),
                r@.len() == i,
                forall|k: int| 0 <= k < i ==> (#[trigger] r@[k]).0@ == self@[k].0 && r@[k].1@ == self@[k].1,
            decreases self.entries@.len() - i,
        {
            r.push((self.entries[i].0.clone(), self.entries[i].1.clone()));
            i += 1;
        }
        r
    }
}

impl Clone for Headers {
    fn clone(&self) -> (r: Headers)
        ensures
            r@ == self@,
    {
        proof {
            use_type_invariant(self);
        }
        let mut entries: Vec<(String, String)> = Vec::new();
        let mut i: usize = 0;
        while i < self.entries.len()
            invariant
                i <= self.entries@.len(),
                entries@.len() == i,
                forall|k: int| 0 <= k < i ==> (#[trigger] entries@[k]).0@ == self.entries@[k].0@ && entries@[k].1@ == self.entries@[k].1@,
            decreases self.entries@.len() - i,
        {
            entries.push((self.entries[i].0.clone(), self.entries[i].1.clone()));
            i += 1;
        }
        assert(fields_of(entries@) == self@);
        Headers { entries }
    }
}

} // verus!
