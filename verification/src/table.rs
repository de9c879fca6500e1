//! A table of entries, each found by its key.

use crate::ledger::Bytes32;
use vstd::prelude::*;

verus! {

/// A value that a table can be searched for.
pub trait TableKey: Copy {
    fn same(&self, other: &Self) -> (r: bool)
        ensures
            r == (*self == *other),
    ;
}

impl TableKey for u64 {
    fn same(&self, other: &Self) -> (r: bool) {
        *self == *other
    }
}

impl TableKey for Bytes32 {
    fn same(&self, other: &Self) -> (r: bool) {
        *self == *other
    }
}

/// A value that can be stored in a table and read back as a copy.
pub trait Record: View + Sized {
    fn duplicate(&self) -> (copy: Self)
        ensures
            copy@ == self@,
    ;
}

impl Record for u64 {
    fn duplicate(&self) -> (copy: Self) {
        *self
    }
}

impl Record for u128 {
    fn duplicate(&self) -> (copy: Self) {
        *self
    }
}

impl Record for Vec<u64> {
    fn duplicate(&self) -> (copy: Self) {
        let copy = self.clone();
        assert(copy@ =~= self@);
        copy
    }
}

/// Entries of type `V`, at most one for each key.
#[derive(Debug)]
pub struct Table<K: TableKey, V: Record> {
    entries: Vec<(K, V)>,
}

/// The map that the entries up to the last one make, a later entry taking
/// the place of an earlier one.
spec fn entries_map<K: TableKey, V: Record>(entries: Seq<(K, V)>) -> Map<K, V::V>
    decreases entries.len(),
{
    if entries.len() == 0 {
        Map::empty()
    } else {
        entries_map(entries.drop_last()).insert(entries.last().0, entries.last().1@)
    }
}

impl<K: TableKey, V: Record> View for Table<K, V> {
    type V = Map<K, V::V>;

    closed spec fn view(&self) -> Map<K, V::V> {
        entries_map(self.entries@)
    }
}

impl<K: TableKey, V: Record> Table<K, V> {
    /// A table without entries.
    pub fn new() -> (r: Self)
        ensures
            r@ == Map::<K, V::V>::empty(),
    {
        Table { entries: Vec::new() }
    }

    /// The entry for `key`.
    pub fn get(&self, key: &K) -> (r: Option<&V>)
        ensures
            r is Some <==> self@.contains_key(*key),
            r matches Some(value) ==> value@ == self@[*key],
    {
        let mut i: usize = self.entries.len();
        proof {
            assert(self.entries@.take(i as int) =~= self.entries@);
        }
        while i > 0
            invariant
                i <= self.entries.len(),
                entries_map(self.entries@).contains_key(*key) <==> entries_map(
                    self.entries@.take(i as int),
                ).contains_key(*key),
                entries_map(self.entries@).contains_key(*key) ==> entries_map(self.entries@)[*key]
                    == entries_map(self.entries@.take(i as int))[*key],
            decreases i,
        {
            i = i - 1;
            proof {
                assert(self.entries@.take(i + 1).drop_last() =~= self.entries@.take(i as int));
            }
            if self.entries[i].0.same(key) {
                return Some(&self.entries[i].1);
            }
        }
        None
    }

    /// Makes `value` the entry for `key`.
    pub fn insert(&mut self, key: K, value: V)
        ensures
            final(self)@ == old(self)@.insert(key, value@),
    {
        self.remove(&key);
        let ghost before = self.entries@;
        self.entries.push((key, value));
        proof {
            assert(self.entries@.drop_last() =~= before);
            assert(self@ =~= old(self)@.insert(key, value@));
        }
    }

    /// Removes the entry for `key`, if there is one.
    pub fn remove(&mut self, key: &K)
        ensures
            final(self)@ == old(self)@.remove(*key),
    {
        let mut i: usize = self.entries.len();
        while i > 0
            invariant
                i <= self.entries.len(),
                self@.remove(*key) == old(self)@.remove(*key),
                forall|j: int| i <= j < self.entries.len() ==> self.entries@[j].0 != *key,
            decreases i,
        {
            i = i - 1;
            if self.entries[i].0.same(key) {
                proof {
                    lemma_entry_removed(self.entries@, i as int);
                }
                self.entries.remove(i);
            }
        }
        proof {
            lemma_entry_absent(self.entries@, *key);
            assert(self@ =~= self@.remove(*key));
        }
    }

    /// A copy of the table.
    pub fn duplicate(&self) -> (copy: Self)
        ensures
            copy@ == self@,
    {
        let mut entries: Vec<(K, V)> = Vec::new();
        let mut i: usize = 0;
        while i < self.entries.len()
            invariant
                i <= self.entries.len(),
                entries_map(entries@) == entries_map(self.entries@.take(i as int)),
            decreases self.entries.len() - i,
        {
            let ghost copied = entries@;
            entries.push((self.entries[i].0, self.entries[i].1.duplicate()));
            i = i + 1;
            proof {
                assert(entries@.drop_last() =~= copied);
                assert(self.entries@.take(i as int).drop_last() =~= self.entries@.take(i - 1));
            }
        }
        proof {
            assert(self.entries@.take(i as int) =~= self.entries@);
        }
        Table { entries }
    }
}

/// Taking out one entry for a key changes the map at that key only.
proof fn lemma_entry_removed<K: TableKey, V: Record>(entries: Seq<(K, V)>, i: int)
    requires
        0 <= i < entries.len(),
    ensures
        entries_map(entries.remove(i)).remove(entries[i].0) == entries_map(entries).remove(
            entries[i].0,
        ),
    decreases entries.len(),
{
    let key = entries[i].0;
    let rest = entries.drop_last();
    if i == entries.len() - 1 {
        assert(entries.remove(i) =~= rest);
    } else {
        lemma_entry_removed(rest, i);
        assert(entries.remove(i).drop_last() =~= rest.remove(i));
        assert(entries.remove(i).last() == entries.last());
        let last = entries.last();
        if last.0 != key {
            assert(entries_map(entries).remove(key) =~= entries_map(rest).remove(key).insert(
                last.0,
                last.1@,
            ));
            assert(entries_map(entries.remove(i)).remove(key) =~= entries_map(
                rest.remove(i),
            ).remove(key).insert(last.0, last.1@));
        } else {
            assert(entries_map(entries).remove(key) =~= entries_map(rest).remove(key));
            assert(entries_map(entries.remove(i)).remove(key) =~= entries_map(
                rest.remove(i),
            ).remove(key));
        }
    }
    assert(entries_map(entries.remove(i)).remove(key) =~= entries_map(entries).remove(key));
}

/// A key that no entry carries is not in the map.
proof fn lemma_entry_absent<K: TableKey, V: Record>(entries: Seq<(K, V)>, key: K)
    requires
        forall|j: int| 0 <= j < entries.len() ==> entries[j].0 != key,
    ensures
        !entries_map(entries).contains_key(key),
    decreases entries.len(),
{
    if entries.len() > 0 {
        lemma_entry_absent(entries.drop_last(), key);
    }
}

} // verus!
