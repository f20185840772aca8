//! A small keyed table: text keys in insertion order, each with one value.
//!
//! The broker's registries are tables of this kind. A table is read as a
//! `Map` from a key's characters to the value's view, together with the
//! sequence of its keys in the order in which they were first inserted.

use vstd::prelude::*;
use vstd::string::StringExecFns;
use crate::keys::{first_unused, lemma_longest, lemma_without, longest, padded, without};

verus! {

/// One row of a table.
pub struct Entry<V> {
    pub key: String,
    pub value: V,
}

/// A table of rows in which no key occurs twice.
pub struct Keyed<V> {
    pub entries: Vec<Entry<V>>,
}

impl<V: View> View for Keyed<V> {
    type V = Map<Seq<char>, V::V>;

    open spec fn view(&self) -> Map<Seq<char>, V::V> {
        Map::new(
            |k: Seq<char>| self.keys().contains(k),
            |k: Seq<char>| self.entries@[self.keys().index_of(k)].value@,
        )
    }
}

impl<V: View> Keyed<V> {
    /// The keys, oldest first.
    pub open spec fn keys(&self) -> Seq<Seq<char>> {
        Seq::new(self.entries@.len(), |i: int| self.entries@[i].key@)
    }

    /// No key occurs twice.
    pub open spec fn wf(&self) -> bool {
        self.keys().no_duplicates()
    }

    /// The row of a key is the only row that holds it.
    pub proof fn lemma_row(&self, i: int)
        requires
            self.wf(),
            0 <= i < self.entries@.len(),
        ensures
            self.keys().contains(self.entries@[i].key@),
            self.keys().index_of(self.entries@[i].key@) == i,
            self@.contains_key(self.entries@[i].key@),
            self@[self.entries@[i].key@] == self.entries@[i].value@,
    {
        let keys = self.keys();
        assert(keys[i] == self.entries@[i].key@);
    }

    /// A table without rows.
    pub fn new() -> (table: Self)
        ensures
            table.wf(),
            table@ == Map::<Seq<char>, V::V>::empty(),
            table.keys() == Seq::<Seq<char>>::empty(),
            table.entries@.len() == 0,
    {
        let table = Keyed { entries: Vec::new() };
        assert(table.keys() =~= Seq::<Seq<char>>::empty());
        assert(table@ =~= Map::<Seq<char>, V::V>::empty());
        table
    }

    /// How many rows the table has.
    pub fn len(&self) -> (n: usize)
        ensures
            n == self.keys().len(),
    {
        self.entries.len()
    }

    /// The row that holds `key`, if any.
    pub fn position(&self, key: &String) -> (found: Option<usize>)
        requires
            self.wf(),
        ensures
            match found {
                Some(i) => i < self.entries@.len() && self.keys()[i as int] == key@
                    && self.keys().contains(key@) && self.keys().index_of(key@) == i,
                None => !self.keys().contains(key@),
            },
    {
        let mut i: usize = 0;
        while i < self.entries.len()
            invariant
                i <= self.entries@.len(),
                self.wf(),
                forall|j: int| 0 <= j < i ==> self.keys()[j] != key@,
            decreases self.entries@.len() - i,
        {
            if self.entries[i].key == *key {
                proof {
                    self.lemma_row(i as int);
                }
                return Some(i);
            }
            i = i + 1;
        }
        None
    }

    /// Whether a row holds `key`.
    pub fn contains_key(&self, key: &String) -> (found: bool)
        requires
            self.wf(),
        ensures
            found == self@.contains_key(key@),
    {
        self.position(key).is_some()
    }

    /// The value in the row of `key`, if there is one.
    pub fn get(&self, key: &String) -> (found: Option<&V>)
        requires
            self.wf(),
        ensures
            match found {
                Some(value) => self@.contains_key(key@) && value@ == self@[key@],
                None => !self@.contains_key(key@),
            },
    {
        match self.position(key) {
            Some(i) => Some(&self.entries[i].value),
            None => None,
        }
    }

    /// A key that is not in the table: `candidate` itself where it is free,
    /// else `candidate` with as many `0` behind it as it takes.
    pub fn unused_key(&self, candidate: String) -> (key: String)
        requires
            self.wf(),
        ensures
            first_unused(self@.dom(), candidate@, key@),
            !self@.contains_key(key@),
            !self@.contains_key(candidate@) ==> key@ == candidate@,
    {
        let ghost start = candidate@;
        let ghost mut n: nat = 0;
        let mut key = candidate;
        proof {
            assert(padded(start, 0) =~= start);
        }
        while self.contains_key(&key)
            invariant
                self.wf(),
                key@ == padded(start, n),
                forall|m: nat| m < n ==> self@.contains_key(#[trigger] padded(start, m)),
            decreases longest(self.keys()) + 1 - key@.len(),
        {
            proof {
                lemma_longest(self.keys(), self.keys().index_of(key@));
                reveal_strlit("0");
            }
            key.append("0");
            proof {
                n = n + 1;
                assert(key@ =~= padded(start, n));
            }
        }
        key
    }

    /// Stores `value` under `key`: in place where the key is present, as the
    /// newest row where it is not.
    pub fn set(&mut self, key: String, value: V)
        requires
            old(self).wf(),
        ensures
            final(self).wf(),
            final(self)@ == old(self)@.insert(key@, value@),
            final(self).keys() == if old(self)@.contains_key(key@) {
                old(self).keys()
            } else {
                old(self).keys().push(key@)
            },
    {
        let ghost before = *self;
        let ghost k = key@;
        let ghost v = value@;
        match self.position(&key) {
            Some(i) => {
                self.entries.set(i, Entry { key, value });
                assert(self.keys() =~= before.keys());
                assert forall|q: Seq<char>| self@.contains_key(q) implies #[trigger] self@[q]
                    == before@.insert(k, v)[q] by {
                    let j = self.keys().index_of(q);
                    if q != k {
                        assert(j != i);
                    }
                }
                assert(self@ =~= before@.insert(k, v));
            },
            None => {
                self.entries.push(Entry { key, value });
                assert(self.keys() =~= before.keys().push(k));
                let ghost n = before.keys().len() as int;
                assert forall|q: Seq<char>| self.keys().contains(q) <==> (q == k
                    || before.keys().contains(q)) by {
                    if q == k {
                        assert(self.keys()[n] == q);
                    }
                    if before.keys().contains(q) {
                        let j = before.keys().index_of(q);
                        assert(self.keys()[j] == q);
                    }
                }
                assert forall|q: Seq<char>| self@.contains_key(q) implies #[trigger] self@[q]
                    == before@.insert(k, v)[q] by {
                    let j = self.keys().index_of(q);
                    if q != k {
                        let j0 = before.keys().index_of(q);
                        assert(self.keys()[j0] == q);
                        assert(j == j0);
                    } else {
                        assert(self.keys()[n] == q);
                        assert(j == n);
                    }
                }
                assert(self@ =~= before@.insert(k, v));
            },
        }
    }

    /// Takes the row of `key` out and hands its value back.
    pub fn remove(&mut self, key: &String) -> (removed: Option<V>)
        requires
            old(self).wf(),
        ensures
            final(self).wf(),
            final(self)@ == old(self)@.remove(key@),
            final(self).keys() == without(old(self).keys(), key@),
            match removed {
                Some(value) => old(self)@.contains_key(key@) && value@ == old(self)@[key@],
                None => !old(self)@.contains_key(key@),
            },
    {
        let ghost before = *self;
        let ghost k = key@;
        proof {
            lemma_without(before.keys(), k);
        }
        match self.position(key) {
            Some(i) => {
                let row = self.entries.remove(i);
                assert(self.keys() =~= before.keys().remove(i as int));
                assert forall|q: Seq<char>| self@.contains_key(q) implies #[trigger] self@[q]
                    == before@.remove(k)[q] by {
                    let j = self.keys().index_of(q);
                    let j0: int = if j < i {
                        j
                    } else {
                        j + 1
                    };
                    assert(before.keys()[j0] == q);
                    assert(before.keys().index_of(q) == j0);
                }
                assert(self@ =~= before@.remove(k));
                Some(row.value)
            },
            None => {
                assert(self@ =~= before@.remove(k));
                None
            },
        }
    }
}

} // verus!
