//! A map kept as a list of entries with distinct keys, in the order in which the keys
//! were first inserted.

use vstd::prelude::*;

verus! {

/// A key that can be told apart from another at run time.
pub trait Key: Sized {
    /// Whether `self` and `other` are the same key.
    fn same_key(&self, other: &Self) -> (same: bool)
        ensures
            same == (*self == *other),
    ;
}

/// No key stands in two entries.
pub open spec fn distinct_keys<K, V>(entries: Seq<(K, V)>) -> bool {
    forall|i: int, j: int|
        0 <= i < j < entries.len() ==> (#[trigger] entries[i]).0 != (#[trigger] entries[j]).0
}

/// Some entry holds `key`.
pub open spec fn has_key<K, V>(entries: Seq<(K, V)>, key: K) -> bool {
    exists|i: int| 0 <= i < entries.len() && (#[trigger] entries[i]).0 == key
}

/// The place of an entry that holds `key`, where there is one.
pub open spec fn position<K, V>(entries: Seq<(K, V)>, key: K) -> int
    recommends
        has_key(entries, key),
{
    choose|i: int| 0 <= i < entries.len() && (#[trigger] entries[i]).0 == key
}

/// The mapping from keys to values that a list of entries stands for.
pub open spec fn entries_map<K, V>(entries: Seq<(K, V)>) -> Map<K, V> {
    Map::new(|key: K| has_key(entries, key), |key: K| entries[position(entries, key)].1)
}

/// The entries after `key` is bound to `value`: the entry that holds the key is
/// overwritten in place, and a new key goes to the end.
pub open spec fn entries_insert<K, V>(entries: Seq<(K, V)>, key: K, value: V) -> Seq<(K, V)> {
    if has_key(entries, key) {
        entries.update(position(entries, key), (key, value))
    } else {
        entries.push((key, value))
    }
}

/// The entries after `key` is unbound: the entry that holds it leaves, and the others
/// keep their order.
pub open spec fn entries_remove<K, V>(entries: Seq<(K, V)>, key: K) -> Seq<(K, V)> {
    if has_key(entries, key) {
        entries.remove(position(entries, key))
    } else {
        entries
    }
}

/// Among distinct keys an entry is found by its key.
pub proof fn lemma_position_unique<K, V>(entries: Seq<(K, V)>, i: int)
    requires
        distinct_keys(entries),
        0 <= i < entries.len(),
    ensures
        has_key(entries, entries[i].0),
        position(entries, entries[i].0) == i,
        entries_map(entries).contains_key(entries[i].0),
        entries_map(entries)[entries[i].0] == entries[i].1,
{
    let key = entries[i].0;
    let p = position(entries, key);
    assert(0 <= p < entries.len() && entries[p].0 == key);
    if p < i {
        assert(entries[p].0 != entries[i].0);
    } else if i < p {
        assert(entries[i].0 != entries[p].0);
    }
}

/// Binding a key changes the mapping as an insertion does, and keeps the keys distinct.
pub proof fn lemma_entries_insert<K, V>(entries: Seq<(K, V)>, key: K, value: V)
    requires
        distinct_keys(entries),
    ensures
        distinct_keys(entries_insert(entries, key, value)),
        entries_map(entries_insert(entries, key, value)) == entries_map(entries).insert(key, value),
{
    let after = entries_insert(entries, key, value);
    if has_key(entries, key) {
        let p = position(entries, key);
        assert(after.len() == entries.len());
        assert forall|i: int| 0 <= i < after.len() implies (#[trigger] after[i]).0
            == entries[i].0 by {}
        assert forall|i: int, j: int| 0 <= i < j < after.len() implies (#[trigger] after[i]).0 != (
        #[trigger] after[j]).0 by {
            assert(entries[i].0 != entries[j].0);
        }
        assert forall|k: K| has_key(after, k) == #[trigger] has_key(entries, k) by {
            if has_key(after, k) {
                let q = position(after, k);
                assert(entries[q].0 == k);
            }
            if has_key(entries, k) {
                let q = position(entries, k);
                assert(after[q].0 == k);
            }
        }
        assert forall|k: K| has_key(after, k) implies #[trigger] entries_map(after)[k]
            == entries_map(entries).insert(key, value)[k] by {
            let q = position(after, k);
            lemma_position_unique(after, q);
            if k != key {
                lemma_position_unique(entries, q);
            }
        }
        assert(entries_map(after) =~= entries_map(entries).insert(key, value));
    } else {
        let last = entries.len() as int;
        assert(after[last].0 == key);
        assert forall|i: int, j: int| 0 <= i < j < after.len() implies (#[trigger] after[i]).0 != (
        #[trigger] after[j]).0 by {
            if j < last {
                assert(entries[i].0 != entries[j].0);
            } else {
                assert(entries[i].0 != key);
            }
        }
        assert forall|k: K| #[trigger] has_key(after, k) == (k == key || has_key(entries, k)) by {
            if has_key(after, k) {
                let q = position(after, k);
                if q < last {
                    assert(entries[q].0 == k);
                }
            }
            if has_key(entries, k) {
                let q = position(entries, k);
                assert(after[q].0 == k);
            }
        }
        assert forall|k: K| has_key(after, k) implies #[trigger] entries_map(after)[k]
            == entries_map(entries).insert(key, value)[k] by {
            let q = position(after, k);
            lemma_position_unique(after, q);
            if k != key {
                assert(q < last);
                lemma_position_unique(entries, q);
            }
        }
        assert(entries_map(after) =~= entries_map(entries).insert(key, value));
    }
}

/// Unbinding a key changes the mapping as a removal does, and keeps the keys distinct.
pub proof fn lemma_entries_remove<K, V>(entries: Seq<(K, V)>, key: K)
    requires
        distinct_keys(entries),
    ensures
        distinct_keys(entries_remove(entries, key)),
        entries_map(entries_remove(entries, key)) == entries_map(entries).remove(key),
        !has_key(entries_remove(entries, key), key),
{
    let after = entries_remove(entries, key);
    if has_key(entries, key) {
        let p = position(entries, key);
        assert(0 <= p < entries.len() && entries[p].0 == key);
        assert forall|i: int| 0 <= i < after.len() implies #[trigger] after[i] == entries[if i
            < p {
            i
        } else {
            i + 1
        }] by {}
        assert forall|i: int, j: int| 0 <= i < j < after.len() implies (#[trigger] after[i]).0 != (
        #[trigger] after[j]).0 by {
            let i0 = if i < p { i } else { i + 1 };
            let j0 = if j < p { j } else { j + 1 };
            assert(entries[i0].0 != entries[j0].0);
        }
        assert forall|k: K| #[trigger] has_key(after, k) == (k != key && has_key(entries, k)) by {
            if has_key(after, k) {
                let q = position(after, k);
                let q0 = if q < p { q } else { q + 1 };
                assert(entries[q0].0 == k);
                if k == key {
                    lemma_position_unique(entries, q0);
                }
            }
            if k != key && has_key(entries, k) {
                let q0 = position(entries, k);
                let q = if q0 < p { q0 } else { q0 - 1 };
                assert(after[q].0 == k);
            }
        }
        assert forall|k: K| has_key(after, k) implies #[trigger] entries_map(after)[k]
            == entries_map(entries).remove(key)[k] by {
            let q = position(after, k);
            let q0 = if q < p { q } else { q + 1 };
            lemma_position_unique(after, q);
            lemma_position_unique(entries, q0);
        }
        assert(entries_map(after) =~= entries_map(entries).remove(key));
    } else {
        assert(entries_map(after) =~= entries_map(entries).remove(key));
    }
}

/// A map from keys to values.
#[derive(Debug)]
pub struct ListMap<K, V> {
    entries: Vec<(K, V)>,
}

impl<K, V> View for ListMap<K, V> {
    type V = Map<K, V>;

    open spec fn view(&self) -> Map<K, V> {
        entries_map(self.entries())
    }
}

impl<K, V> ListMap<K, V> {
    /// The entries in the order in which their keys were first inserted.
    pub closed spec fn entries(&self) -> Seq<(K, V)> {
        self.entries@
    }

    /// No key stands in two entries.
    pub open spec fn wf(&self) -> bool {
        distinct_keys(self.entries())
    }
}

impl<K: Key, V> ListMap<K, V> {
    /// Creates a map without entries.
    pub fn new() -> (map: Self)
        ensures
            map.wf(),
            map.entries() == Seq::<(K, V)>::empty(),
            map@ == Map::<K, V>::empty(),
    {
        let map = ListMap { entries: Vec::new() };
        assert(map@ =~= Map::<K, V>::empty());
        map
    }

    /// The number of entries.
    pub fn len(&self) -> (len: usize)
        ensures
            len == self.entries().len(),
    {
        self.entries.len()
    }

    /// Whether the map holds no entry.
    pub fn is_empty(&self) -> (empty: bool)
        ensures
            empty == (self.entries().len() == 0),
            empty == (self@ == Map::<K, V>::empty()),
    {
        proof {
            if self.entries@.len() == 0 {
                assert(self@ =~= Map::<K, V>::empty());
            } else {
                assert(has_key(self.entries@, self.entries@[0].0));
                assert(self@.contains_key(self.entries@[0].0));
            }
        }
        self.entries.len() == 0
    }

    /// The place of the entry that holds `key`, if there is one.
    fn find(&self, key: &K) -> (found: Option<usize>)
        ensures
            match found {
                Some(i) => i < self.entries().len() && self.entries()[i as int].0 == *key,
                None => !has_key(self.entries(), *key),
            },
    {
        let mut i: usize = 0;
        while i < self.entries.len()
            invariant
                i <= self.entries.len(),
                forall|j: int| 0 <= j < i ==> (#[trigger] self.entries@[j]).0 != *key,
            decreases self.entries.len() - i,
        {
            if self.entries[i].0.same_key(key) {
                return Some(i);
            }
            i += 1;
        }
        None
    }

    /// Whether `key` is bound.
    pub fn contains_key(&self, key: &K) -> (bound: bool)
        ensures
            bound == has_key(self.entries(), *key),
            bound == self@.contains_key(*key),
    {
        self.find(key).is_some()
    }

    /// The value that `key` is bound to, if it is bound.
    pub fn get(&self, key: &K) -> (value: Option<&V>)
        requires
            self.wf(),
        ensures
            match value {
                Some(value) => self@.contains_key(*key) && *value == self@[*key],
                None => !self@.contains_key(*key),
            },
    {
        match self.find(key) {
            Some(i) => {
                proof {
                    lemma_position_unique(self.entries@, i as int);
                }
                Some(&self.entries[i].1)
            },
            None => None,
        }
    }

    /// The entry at place `i`.
    pub fn entry_at(&self, i: usize) -> (entry: &(K, V))
        requires
            i < self.entries().len(),
        ensures
            *entry == self.entries()[i as int],
    {
        &self.entries[i]
    }

    /// Binds `key` to `value`, in place of what it was bound to before.
    pub fn insert(&mut self, key: K, value: V)
        requires
            old(self).wf(),
        ensures
            final(self).wf(),
            final(self).entries() == entries_insert(old(self).entries(), key, value),
            final(self)@ == old(self)@.insert(key, value),
    {
        proof {
            lemma_entries_insert(self.entries@, key, value);
        }
        match self.find(&key) {
            Some(i) => {
                proof {
                    lemma_position_unique(self.entries@, i as int);
                }
                self.entries[i] = (key, value);
            },
            None => {
                self.entries.push((key, value));
            },
        }
    }

    /// Unbinds `key`, if it is bound.
    pub fn remove(&mut self, key: &K)
        requires
            old(self).wf(),
        ensures
            final(self).wf(),
            final(self).entries() == entries_remove(old(self).entries(), *key),
            final(self)@ == old(self)@.remove(*key),
    {
        proof {
            lemma_entries_remove(self.entries@, *key);
        }
        match self.find(key) {
            Some(i) => {
                proof {
                    lemma_position_unique(self.entries@, i as int);
                }
                let _ = self.entries.remove(i);
            },
            None => {},
        }
    }
}

} // verus!
