//! A table from names to values that remembers the order in which names
//! first came in.
use crate::text::str_eq;
use vstd::prelude::*;

verus! {

/// The index of the first entry of `d` at or after `i` whose name is `key`.
pub open spec fn index_from<T>(d: Seq<(Seq<char>, T)>, key: Seq<char>, i: int) -> Option<int>
    decreases d.len() - i,
{
    if i < 0 || i >= d.len() {
        None
    } else if d[i].0 == key {
        Some(i)
    } else {
        index_from(d, key, i + 1)
    }
}

/// The index of the first entry of `d` whose name is `key`.
pub open spec fn dict_index<T>(d: Seq<(Seq<char>, T)>, key: Seq<char>) -> Option<int> {
    index_from(d, key, 0)
}

/// The value that `d` holds under `key`.
pub open spec fn dict_get<T>(d: Seq<(Seq<char>, T)>, key: Seq<char>) -> Option<T> {
    match dict_index(d, key) {
        Some(i) => Some(d[i].1),
        None => None,
    }
}

/// `d` with `value` under `key`: in the place of the entry that `key` had, or
/// behind all others if it had none.
pub open spec fn dict_insert<T>(d: Seq<(Seq<char>, T)>, key: Seq<char>, value: T) -> Seq<
    (Seq<char>, T),
> {
    match dict_index(d, key) {
        Some(i) => d.update(i, (key, value)),
        None => d.push((key, value)),
    }
}

/// `d` without the entry of `key`.
pub open spec fn dict_remove<T>(d: Seq<(Seq<char>, T)>, key: Seq<char>) -> Seq<(Seq<char>, T)> {
    match dict_index(d, key) {
        Some(i) => d.remove(i),
        None => d,
    }
}

/// No name occurs twice in `d`.
pub open spec fn distinct_keys<T>(d: Seq<(Seq<char>, T)>) -> bool {
    forall|i: int, j: int| 0 <= i < j < d.len() ==> (#[trigger] d[i]).0 != (#[trigger] d[j]).0
}

/// What `index_from` finds is the first entry at or after `i` with that name.
pub proof fn lemma_index_from<T>(d: Seq<(Seq<char>, T)>, key: Seq<char>, i: int)
    requires
        0 <= i,
    ensures
        match index_from(d, key, i) {
            Some(k) => i <= k < d.len() && d[k].0 == key && forall|j: int|
                i <= j < k ==> (#[trigger] d[j]).0 != key,
            None => forall|j: int| i <= j < d.len() ==> (#[trigger] d[j]).0 != key,
        },
    decreases d.len() - i,
{
    if i < d.len() && d[i].0 != key {
        lemma_index_from(d, key, i + 1);
    }
}

/// An entry that is the first with its name is the one that `index_from` finds.
pub proof fn lemma_index_from_is<T>(d: Seq<(Seq<char>, T)>, key: Seq<char>, i: int, k: int)
    requires
        0 <= i <= k < d.len(),
        d[k].0 == key,
        forall|j: int| i <= j < k ==> (#[trigger] d[j]).0 != key,
    ensures
        index_from(d, key, i) == Some(k),
    decreases k - i,
{
    if i < k {
        lemma_index_from_is(d, key, i + 1, k);
    }
}

/// Where no entry at or after `i` has the name, `index_from` finds none.
pub proof fn lemma_index_from_none<T>(d: Seq<(Seq<char>, T)>, key: Seq<char>, i: int)
    requires
        0 <= i,
        forall|j: int| i <= j < d.len() ==> (#[trigger] d[j]).0 != key,
    ensures
        index_from(d, key, i) is None,
    decreases d.len() - i,
{
    if i < d.len() {
        lemma_index_from_none(d, key, i + 1);
    }
}

/// After an insertion the name holds the new value, and every other name
/// holds what it held before: the last writer wins.
pub proof fn lemma_get_after_insert<T>(
    d: Seq<(Seq<char>, T)>,
    key: Seq<char>,
    value: T,
    other: Seq<char>,
)
    ensures
        dict_get(dict_insert(d, key, value), other) == if other == key {
            Some(value)
        } else {
            dict_get(d, other)
        },
{
    let e = dict_insert(d, key, value);
    lemma_index_from(d, key, 0);
    lemma_index_from(d, other, 0);
    match dict_index(d, key) {
        Some(i) => {
            if other == key {
                lemma_index_from_is(e, other, 0, i);
            } else {
                match dict_index(d, other) {
                    Some(k) => {
                        lemma_index_from_is(e, other, 0, k);
                    },
                    None => {
                        lemma_index_from_none(e, other, 0);
                    },
                }
            }
        },
        None => {
            if other == key {
                lemma_index_from_is(e, other, 0, d.len() as int);
            } else {
                match dict_index(d, other) {
                    Some(k) => {
                        lemma_index_from_is(e, other, 0, k);
                    },
                    None => {
                        lemma_index_from_none(e, other, 0);
                    },
                }
            }
        },
    }
}

/// An insertion into a table in which no name occurs twice leaves one in
/// which no name occurs twice.
pub proof fn lemma_insert_keeps_distinct<T>(d: Seq<(Seq<char>, T)>, key: Seq<char>, value: T)
    requires
        distinct_keys(d),
    ensures
        distinct_keys(dict_insert(d, key, value)),
{
    lemma_index_from(d, key, 0);
}

/// A removal from a table in which no name occurs twice leaves one in
/// which no name occurs twice, and the name is gone from it.
pub proof fn lemma_remove_keeps_distinct<T>(d: Seq<(Seq<char>, T)>, key: Seq<char>)
    requires
        distinct_keys(d),
    ensures
        distinct_keys(dict_remove(d, key)),
        dict_get(dict_remove(d, key), key) is None,
{
    lemma_index_from(d, key, 0);
    let e = dict_remove(d, key);
    match dict_index(d, key) {
        Some(i) => {
            assert forall|a: int, b: int| 0 <= a < b < e.len() implies (#[trigger] e[a]).0 != (
            #[trigger] e[b]).0 by {
                let a0 = if a < i {
                    a
                } else {
                    a + 1
                };
                let b0 = if b < i {
                    b
                } else {
                    b + 1
                };
                assert(e[a] == d[a0] && e[b] == d[b0]);
            }
            assert forall|j: int| 0 <= j < e.len() implies (#[trigger] e[j]).0 != key by {
                let j0 = if j < i {
                    j
                } else {
                    j + 1
                };
                assert(e[j] == d[j0]);
                if j0 > i {
                    assert(d[i].0 != d[j0].0);
                }
            }
            lemma_index_from_none(e, key, 0);
        },
        None => {},
    }
}

/// A table from names to values, in the order in which the names first
/// came. No name occurs twice in it.
#[derive(Debug, PartialEq)]
pub struct Dict<V: View> {
    entries: Vec<(String, V)>,
}

impl<V: View> View for Dict<V> {
    type V = Seq<(Seq<char>, V::V)>;

    closed spec fn view(&self) -> Seq<(Seq<char>, V::V)> {
        Seq::new(self.entries@.len(), |i: int| (self.entries@[i].0@, self.entries@[i].1@))
    }
}

impl<V: View> Dict<V> {
    /// No name occurs twice in a table.
    #[verifier::type_invariant]
    closed spec fn no_name_twice(&self) -> bool {
        distinct_keys(self@)
    }

    /// The empty table.
    pub fn new() -> (r: Self)
        ensures
            r@ == Seq::<(Seq<char>, V::V)>::empty(),
    {
        let entries: Vec<(String, V)> = Vec::new();
        assert(Seq::new(entries@.len(), |i: int| (entries@[i].0@, entries@[i].1@)) =~= Seq::<
            (Seq<char>, V::V),
        >::empty());
        Dict { entries }
    }

    /// The number of names, none of which occurs twice.
    pub fn len(&self) -> (n: usize)
        ensures
            n == self@.len(),
            distinct_keys(self@),
    {
        proof {
            use_type_invariant(self);
        }
        self.entries.len()
    }

    pub fn is_empty(&self) -> (b: bool)
        ensures
            b == (self@.len() == 0),
    {
        self.entries.len() == 0
    }

    /// The name at place `i`.
    pub fn key_at(&self, i: usize) -> (k: &String)
        requires
            i < self@.len(),
        ensures
            k@ == self@[i as int].0,
    {
        &self.entries[i].0
    }

    /// The value at place `i`.
    pub fn value_at(&self, i: usize) -> (v: &V)
        requires
            i < self@.len(),
        ensures
            v@ == self@[i as int].1,
    {
        &self.entries[i].1
    }

    fn place(entries: &Vec<(String, V)>, key: &str) -> (r: Option<usize>)
        ensures
            match dict_index(
                Seq::new(entries@.len(), |i: int| (entries@[i].0@, entries@[i].1@)),
                key@,
            ) {
                Some(i) => r matches Some(k) && k == i && k < entries@.len(),
                None => r is None,
            },
    {
        let ghost d = Seq::new(entries@.len(), |i: int| (entries@[i].0@, entries@[i].1@));
        let mut i: usize = 0;
        while i < entries.len()
            invariant
                i <= entries.len(),
                d == Seq::new(entries@.len(), |i: int| (entries@[i].0@, entries@[i].1@)),
                index_from(d, key@, 0) == index_from(d, key@, i as int),
            decreases entries.len() - i,
        {
            if str_eq(entries[i].0.as_str(), key) {
                return Some(i);
            }
            i += 1;
        }
        None
    }

    /// The place of `key`, if the table holds it.
    pub fn find(&self, key: &str) -> (r: Option<usize>)
        ensures
            match dict_index(self@, key@) {
                Some(i) => r matches Some(k) && k == i && k < self@.len(),
                None => r is None,
            },
    {
        Self::place(&self.entries, key)
    }

    pub fn contains_key(&self, key: &str) -> (b: bool)
        ensures
            b == dict_get(self@, key@).is_some(),
    {
        self.find(key).is_some()
    }

    /// The value under `key`.
    pub fn get(&self, key: &str) -> (r: Option<&V>)
        ensures
            match dict_get(self@, key@) {
                Some(v) => r matches Some(x) && x@ == v,
                None => r is None,
            },
    {
        assert(self@.len() == self.entries@.len());
        match self.find(key) {
            Some(i) => Some(&self.entries[i].1),
            None => None,
        }
    }

    /// Puts `value` under `key`, in place of what `key` held.
    pub fn insert(&mut self, key: String, value: V)
        ensures
            final(self)@ == dict_insert(old(self)@, key@, value@),
            distinct_keys(final(self)@),
    {
        assert(self@.len() == self.entries@.len());
        proof {
            use_type_invariant(&*self);
            lemma_insert_keeps_distinct(self@, key@, value@);
        }
        let ghost after = dict_insert(self@, key@, value@);
        let mut entries: Vec<(String, V)> = Vec::new();
        core::mem::swap(&mut self.entries, &mut entries);
        match Self::place(&entries, key.as_str()) {
            Some(i) => {
                entries.set(i, (key, value));
            },
            None => {
                entries.push((key, value));
            },
        }
        assert(Seq::new(entries@.len(), |i: int| (entries@[i].0@, entries@[i].1@)) =~= after);
        self.entries = entries;
    }

    /// Takes out what `key` holds.
    pub fn remove(&mut self, key: &str) -> (r: Option<V>)
        ensures
            final(self)@ == dict_remove(old(self)@, key@),
            distinct_keys(final(self)@),
            match dict_get(old(self)@, key@) {
                Some(v) => r matches Some(x) && x@ == v,
                None => r is None,
            },
    {
        assert(self@.len() == self.entries@.len());
        proof {
            use_type_invariant(&*self);
            lemma_remove_keeps_distinct(self@, key@);
        }
        let ghost after = dict_remove(self@, key@);
        let mut entries: Vec<(String, V)> = Vec::new();
        core::mem::swap(&mut self.entries, &mut entries);
        let r = match Self::place(&entries, key) {
            Some(i) => {
                let entry = entries.remove(i);
                Some(entry.1)
            },
            None => None,
        };
        assert(Seq::new(entries@.len(), |i: int| (entries@[i].0@, entries@[i].1@)) =~= after);
        self.entries = entries;
        r
    }
}

} // verus!
