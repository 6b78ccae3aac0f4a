//! A finite map kept in a vector, for keys that can only be compared.

use vstd::prelude::*;
use crate::ident::Key;

verus! {

/// One key of a table with the value kept under it.
pub struct Entry<K, V> {
    pub key: K,
    pub value: V,
}

/// A finite map from `K` to `V`. No key is held twice.
pub struct Table<K: Key, V> {
    entries: Vec<Entry<K, V>>,
}

/// Whether `i` is a position of `entries` that holds `key`.
spec fn holds_at<K, V>(entries: Seq<Entry<K, V>>, key: K, i: int) -> bool {
    0 <= i < entries.len() && entries[i].key == key
}

/// Whether no two positions of `entries` hold the same key.
spec fn distinct_keys<K, V>(entries: Seq<Entry<K, V>>) -> bool {
    forall|i: int, j: int|
        0 <= i < j < entries.len() ==> entries[i].key != entries[j].key
}

/// The map that a sequence of entries with distinct keys stands for.
spec fn as_map<K, V>(entries: Seq<Entry<K, V>>) -> Map<K, V> {
    Map::new(
        |k: K| exists|i: int| holds_at(entries, k, i),
        |k: K| entries[choose|i: int| holds_at(entries, k, i)].value,
    )
}

proof fn lemma_entry_in_map<K, V>(entries: Seq<Entry<K, V>>, i: int)
    requires
        distinct_keys(entries),
        0 <= i < entries.len(),
    ensures
        as_map(entries).contains_key(entries[i].key),
        as_map(entries)[entries[i].key] == entries[i].value,
{
    let k = entries[i].key;
    assert(holds_at(entries, k, i));
    let j = choose|j: int| holds_at(entries, k, j);
    assert(holds_at(entries, k, j));
    assert(i == j);
}

proof fn lemma_push<K, V>(entries: Seq<Entry<K, V>>, e: Entry<K, V>)
    requires
        distinct_keys(entries),
        !as_map(entries).contains_key(e.key),
    ensures
        distinct_keys(entries.push(e)),
        as_map(entries.push(e)) == as_map(entries).insert(e.key, e.value),
{
    let after = entries.push(e);
    assert forall|i: int, j: int| 0 <= i < j < after.len() implies after[i].key
        != after[j].key by {
        if j == entries.len() {
            assert(holds_at(entries, entries[i].key, i));
        }
    }
    assert forall|k: K| #[trigger]
        as_map(after).contains_key(k) == as_map(entries).insert(e.key, e.value).contains_key(
            k,
        ) by {
        if as_map(after).contains_key(k) {
            let i = choose|i: int| holds_at(after, k, i);
            if i < entries.len() {
                assert(holds_at(entries, k, i));
            }
        }
        if as_map(entries).contains_key(k) {
            let i = choose|i: int| holds_at(entries, k, i);
            assert(holds_at(after, k, i));
        }
        if k == e.key {
            assert(holds_at(after, k, entries.len() as int));
        }
    }
    assert forall|k: K| #[trigger]
        as_map(after).contains_key(k) implies as_map(after)[k] == as_map(entries).insert(
        e.key,
        e.value,
    )[k] by {
        let i = choose|i: int| holds_at(after, k, i);
        lemma_entry_in_map(after, i);
        if i < entries.len() {
            lemma_entry_in_map(entries, i);
        }
    }
    assert(as_map(after) =~= as_map(entries).insert(e.key, e.value));
}

proof fn lemma_update<K, V>(entries: Seq<Entry<K, V>>, i: int, e: Entry<K, V>)
    requires
        distinct_keys(entries),
        0 <= i < entries.len(),
        entries[i].key == e.key,
    ensures
        distinct_keys(entries.update(i, e)),
        as_map(entries.update(i, e)) == as_map(entries).insert(e.key, e.value),
{
    let after = entries.update(i, e);
    assert forall|a: int, b: int| 0 <= a < b < after.len() implies after[a].key
        != after[b].key by {
        assert(after[a].key == entries[a].key);
        assert(after[b].key == entries[b].key);
    }
    assert forall|k: K| #[trigger]
        as_map(after).contains_key(k) == as_map(entries).insert(e.key, e.value).contains_key(
            k,
        ) by {
        if as_map(after).contains_key(k) {
            let j = choose|j: int| holds_at(after, k, j);
            assert(holds_at(entries, k, j));
        }
        if as_map(entries).contains_key(k) {
            let j = choose|j: int| holds_at(entries, k, j);
            assert(holds_at(after, k, j));
        }
        if k == e.key {
            assert(holds_at(after, k, i));
        }
    }
    assert forall|k: K| #[trigger]
        as_map(after).contains_key(k) implies as_map(after)[k] == as_map(entries).insert(
        e.key,
        e.value,
    )[k] by {
        let j = choose|j: int| holds_at(after, k, j);
        lemma_entry_in_map(after, j);
        lemma_entry_in_map(entries, j);
    }
    assert(as_map(after) =~= as_map(entries).insert(e.key, e.value));
}

proof fn lemma_remove<K, V>(entries: Seq<Entry<K, V>>, i: int)
    requires
        distinct_keys(entries),
        0 <= i < entries.len(),
    ensures
        distinct_keys(entries.remove(i)),
        as_map(entries.remove(i)) == as_map(entries).remove(entries[i].key),
{
    let after = entries.remove(i);
    let gone = entries[i].key;
    assert forall|a: int| 0 <= a < after.len() implies #[trigger] after[a] == entries[if a
        < i {
        a
    } else {
        a + 1
    }] by {}
    assert forall|a: int, b: int| 0 <= a < b < after.len() implies after[a].key
        != after[b].key by {
        let a0 = if a < i { a } else { a + 1 };
        let b0 = if b < i { b } else { b + 1 };
        assert(after[a] == entries[a0]);
        assert(after[b] == entries[b0]);
    }
    assert forall|k: K| #[trigger]
        as_map(after).contains_key(k) == as_map(entries).remove(gone).contains_key(k) by {
        if as_map(after).contains_key(k) {
            let j = choose|j: int| holds_at(after, k, j);
            let j0 = if j < i { j } else { j + 1 };
            assert(after[j] == entries[j0]);
            assert(holds_at(entries, k, j0));
        }
        if as_map(entries).contains_key(k) && k != gone {
            let j = choose|j: int| holds_at(entries, k, j);
            let j1 = if j < i { j } else { j - 1 };
            assert(after[j1] == entries[j]);
            assert(holds_at(after, k, j1));
        }
    }
    assert forall|k: K| #[trigger]
        as_map(after).contains_key(k) implies as_map(after)[k] == as_map(entries).remove(
        gone,
    )[k] by {
        let j = choose|j: int| holds_at(after, k, j);
        let j0 = if j < i { j } else { j + 1 };
        assert(after[j] == entries[j0]);
        lemma_entry_in_map(after, j);
        lemma_entry_in_map(entries, j0);
    }
    assert(as_map(after) =~= as_map(entries).remove(gone));
}

impl<K: Key, V> View for Table<K, V> {
    type V = Map<K, V>;

    closed spec fn view(&self) -> Map<K, V> {
        as_map(self.entries@)
    }
}

impl<K: Key, V> Table<K, V> {
    #[verifier::type_invariant]
    spec fn well_formed(self) -> bool {
        distinct_keys(self.entries@)
    }

    /// The empty table.
    pub fn new() -> (t: Self)
        ensures
            t@ == Map::<K, V>::empty(),
    {
        let t = Table { entries: Vec::new() };
        assert(t@ =~= Map::<K, V>::empty());
        t
    }

    /// The position of `key`, if the table holds it.
    fn position(&self, key: &K) -> (at: Option<usize>)
        ensures
            match at {
                Some(i) => holds_at(self.entries@, *key, i as int),
                None => !self@.contains_key(*key),
            },
    {
        let mut i: usize = 0;
        while i < self.entries.len()
            invariant
                i <= self.entries.len(),
                forall|j: int| 0 <= j < i ==> self.entries@[j].key != *key,
            decreases self.entries.len() - i,
        {
            if self.entries[i].key.same(key) {
                return Some(i);
            }
            i = i + 1;
        }
        assert forall|j: int| !holds_at(self.entries@, *key, j) by {}
        None
    }

    /// Whether the table holds `key`.
    pub fn contains_key(&self, key: &K) -> (found: bool)
        ensures
            found == self@.contains_key(*key),
    {
        proof {
            use_type_invariant(self);
        }
        match self.position(key) {
            Some(i) => {
                proof {
                    lemma_entry_in_map(self.entries@, i as int);
                }
                true
            },
            None => false,
        }
    }

    /// The value kept under `key`, if there is one.
    pub fn get(&self, key: &K) -> (found: Option<&V>)
        ensures
            found == (if self@.contains_key(*key) {
                Some(&self@[*key])
            } else {
                None
            }),
    {
        proof {
            use_type_invariant(self);
        }
        match self.position(key) {
            Some(i) => {
                proof {
                    lemma_entry_in_map(self.entries@, i as int);
                }
                Some(&self.entries[i].value)
            },
            None => None,
        }
    }

    /// Puts `value` under `key`, in place of what was kept there.
    pub fn insert(&mut self, key: K, value: V)
        ensures
            final(self)@ == old(self)@.insert(key, value),
    {
        proof {
            use_type_invariant(&*self);
        }
        let at = self.position(&key);
        let mut entries: Vec<Entry<K, V>> = Vec::new();
        std::mem::swap(&mut entries, &mut self.entries);
        match at {
            Some(i) => {
                proof {
                    lemma_update(entries@, i as int, Entry { key, value });
                }
                entries.set(i, Entry { key, value });
            },
            None => {
                proof {
                    lemma_push(entries@, Entry { key, value });
                }
                entries.push(Entry { key, value });
            },
        }
        self.entries = entries;
    }

    /// Takes `key` out of the table and returns what was kept under it.
    pub fn remove(&mut self, key: &K) -> (taken: Option<V>)
        ensures
            final(self)@ == old(self)@.remove(*key),
            taken == (if old(self)@.contains_key(*key) {
                Some(old(self)@[*key])
            } else {
                None
            }),
    {
        proof {
            use_type_invariant(&*self);
        }
        match self.position(key) {
            Some(i) => {
                let mut entries: Vec<Entry<K, V>> = Vec::new();
                std::mem::swap(&mut entries, &mut self.entries);
                proof {
                    lemma_entry_in_map(entries@, i as int);
                    lemma_remove(entries@, i as int);
                }
                let gone = entries.remove(i);
                self.entries = entries;
                Some(gone.value)
            },
            None => {
                assert(self@ =~= old(self)@.remove(*key));
                None
            },
        }
    }

    /// Empties the table.
    pub fn clear(&mut self)
        ensures
            final(self)@ == Map::<K, V>::empty(),
    {
        self.entries = Vec::new();
        assert(self@ =~= Map::<K, V>::empty());
    }
}

impl<K: Key + Copy, V> Table<K, V> {
    /// The keys of the table, each once.
    pub fn keys(&self) -> (keys: Vec<K>)
        ensures
            keys@.no_duplicates(),
            forall|k: K| keys@.contains(k) <==> self@.contains_key(k),
    {
        proof {
            use_type_invariant(self);
        }
        let mut keys: Vec<K> = Vec::new();
        let mut i: usize = 0;
        while i < self.entries.len()
            invariant
                i <= self.entries.len(),
                keys@.len() == i,
                forall|j: int| 0 <= j < i ==> keys@[j] == self.entries@[j].key,
            decreases self.entries.len() - i,
        {
            keys.push(self.entries[i].key);
            i = i + 1;
        }
        assert(keys@.no_duplicates()) by {
            assert forall|a: int, b: int|
                0 <= a < keys@.len() && 0 <= b < keys@.len() && a != b implies keys@[a]
                != keys@[b] by {
                if a < b {
                    assert(self.entries@[a].key != self.entries@[b].key);
                } else {
                    assert(self.entries@[b].key != self.entries@[a].key);
                }
            }
        }
        assert forall|k: K| keys@.contains(k) <==> self@.contains_key(k) by {
            if keys@.contains(k) {
                let j = choose|j: int| 0 <= j < keys@.len() && keys@[j] == k;
                assert(holds_at(self.entries@, k, j));
            }
            if self@.contains_key(k) {
                let j = choose|j: int| holds_at(self.entries@, k, j);
                assert(keys@[j] == k);
            }
        }
        keys
    }
}

} // verus!
