//! A small keyed store used by the pallets for their per-account and
//! per-content state.

use vstd::prelude::*;

verus! {

/// True when entry `i` of `entries` is stored under `key`.
spec fn stored_at<V>(entries: Seq<(String, V)>, key: Seq<char>, i: int) -> bool {
    0 <= i < entries.len() && entries[i].0@ == key
}

/// True when no two entries share a key.
spec fn distinct_keys<V>(entries: Seq<(String, V)>) -> bool {
    forall|i: int, j: int|
        #![trigger entries[i], entries[j]]
        0 <= i < j < entries.len() ==> entries[i].0@ != entries[j].0@
}

/// The map that a list of entries stands for: each key leads to the value
/// stored beside it.
spec fn entries_map<V>(entries: Seq<(String, V)>) -> Map<Seq<char>, V> {
    Map::new(
        |key: Seq<char>| exists|i: int| stored_at(entries, key, i),
        |key: Seq<char>| entries[choose|i: int| stored_at(entries, key, i)].1,
    )
}

/// With distinct keys, every entry is found in the map under its own key.
proof fn lemma_entry_in_map<V>(entries: Seq<(String, V)>, i: int)
    requires
        distinct_keys(entries),
        0 <= i < entries.len(),
    ensures
        entries_map(entries).contains_key(entries[i].0@),
        entries_map(entries)[entries[i].0@] == entries[i].1,
{
    assert(stored_at(entries, entries[i].0@, i));
}

/// Overwriting the entry stored under a key is an insertion into the map.
proof fn lemma_replace<V>(entries: Seq<(String, V)>, i: int, key: String, value: V)
    requires
        distinct_keys(entries),
        stored_at(entries, key@, i),
    ensures
        distinct_keys(entries.update(i, (key, value))),
        entries_map(entries.update(i, (key, value))) == entries_map(entries).insert(key@, value),
{
    let after = entries.update(i, (key, value));
    assert forall|k: Seq<char>| #[trigger]
        entries_map(after).contains_key(k) == entries_map(entries).insert(
            key@,
            value,
        ).contains_key(k) by {
        if entries_map(after).contains_key(k) {
            let j = choose|j: int| stored_at(after, k, j);
            assert(stored_at(entries, k, j));
        }
        if entries_map(entries).contains_key(k) {
            let j = choose|j: int| stored_at(entries, k, j);
            assert(stored_at(after, k, j));
        }
    }
    assert forall|k: Seq<char>| #[trigger] entries_map(after).contains_key(k) implies entries_map(
        after,
    )[k] == entries_map(entries).insert(key@, value)[k] by {
        let j = choose|j: int| stored_at(after, k, j);
        lemma_entry_in_map(after, j);
        if j != i {
            lemma_entry_in_map(entries, j);
        }
    }
    assert(entries_map(after) =~= entries_map(entries).insert(key@, value));
}

/// Appending an entry under a key that is not stored yet is an insertion
/// into the map.
proof fn lemma_append<V>(entries: Seq<(String, V)>, key: String, value: V)
    requires
        distinct_keys(entries),
        forall|i: int| !stored_at(entries, key@, i),
    ensures
        distinct_keys(entries.push((key, value))),
        entries_map(entries.push((key, value))) == entries_map(entries).insert(key@, value),
{
    let after = entries.push((key, value));
    let last = entries.len() as int;
    assert forall|i: int, j: int| 0 <= i < j < after.len() implies after[i].0@
        != after[j].0@ by {
        if j == last {
            assert(!stored_at(entries, key@, i));
        }
    }
    assert forall|k: Seq<char>| #[trigger]
        entries_map(after).contains_key(k) == entries_map(entries).insert(
            key@,
            value,
        ).contains_key(k) by {
        if entries_map(after).contains_key(k) {
            let j = choose|j: int| stored_at(after, k, j);
            if j != last {
                assert(stored_at(entries, k, j));
            }
        }
        if entries_map(entries).contains_key(k) {
            let j = choose|j: int| stored_at(entries, k, j);
            assert(stored_at(after, k, j));
        }
        assert(stored_at(after, key@, last));
    }
    assert forall|k: Seq<char>| #[trigger] entries_map(after).contains_key(k) implies entries_map(
        after,
    )[k] == entries_map(entries).insert(key@, value)[k] by {
        let j = choose|j: int| stored_at(after, k, j);
        lemma_entry_in_map(after, j);
        if j != last {
            lemma_entry_in_map(entries, j);
        }
    }
    assert(entries_map(after) =~= entries_map(entries).insert(key@, value));
}

/// Deleting an entry removes its key from the map.
proof fn lemma_delete<V>(entries: Seq<(String, V)>, i: int)
    requires
        distinct_keys(entries),
        0 <= i < entries.len(),
    ensures
        distinct_keys(entries.remove(i)),
        entries_map(entries.remove(i)) == entries_map(entries).remove(entries[i].0@),
{
    let after = entries.remove(i);
    let key = entries[i].0@;
    // Entry `j` of `after` is entry `shifted(j)` of `entries`.
    let shifted = |j: int| if j < i { j } else { j + 1 };
    assert forall|a: int, b: int| 0 <= a < b < after.len() implies after[a].0@
        != after[b].0@ by {
        assert(entries[shifted(a)].0@ != entries[shifted(b)].0@);
    }
    assert forall|k: Seq<char>| #[trigger]
        entries_map(after).contains_key(k) == entries_map(entries).remove(key).contains_key(
            k,
        ) by {
        if entries_map(after).contains_key(k) {
            let j = choose|j: int| stored_at(after, k, j);
            assert(stored_at(entries, k, shifted(j)));
            if shifted(j) < i {
                assert(entries[shifted(j)].0@ != entries[i].0@);
            } else {
                assert(entries[i].0@ != entries[shifted(j)].0@);
            }
        }
        if entries_map(entries).remove(key).contains_key(k) {
            let j = choose|j: int| stored_at(entries, k, j);
            assert(stored_at(after, k, if j < i { j } else { j - 1 }));
        }
    }
    assert forall|k: Seq<char>| #[trigger] entries_map(after).contains_key(k) implies entries_map(
        after,
    )[k] == entries_map(entries).remove(key)[k] by {
        let j = choose|j: int| stored_at(after, k, j);
        lemma_entry_in_map(after, j);
        lemma_entry_in_map(entries, shifted(j));
    }
    assert(entries_map(after) =~= entries_map(entries).remove(key));
}

/// A map from text keys to values, stored as a list of entries whose keys
/// are pairwise distinct.
///
/// Its view is the finite `Map` from each stored key (as a sequence of
/// characters) to its value.
#[derive(Debug)]
pub struct StorageMap<V> {
    entries: Vec<(String, V)>,
}

impl<V> View for StorageMap<V> {
    type V = Map<Seq<char>, V>;

    closed spec fn view(&self) -> Map<Seq<char>, V> {
        entries_map(self.entries@)
    }
}

impl<V> StorageMap<V> {
    #[verifier::type_invariant]
    spec fn well_formed(self) -> bool {
        distinct_keys(self.entries@)
    }

    /// An empty map.
    pub fn new() -> (map: Self)
        ensures
            map@ == Map::<Seq<char>, V>::empty(),
    {
        let map = StorageMap { entries: Vec::new() };
        assert(map@ =~= Map::<Seq<char>, V>::empty());
        map
    }

    /// The index of the entry stored under `key`, if there is one.
    fn position(&self, key: &String) -> (found: Option<usize>)
        ensures
            match found {
                Some(i) => stored_at(self.entries@, key@, i as int),
                None => forall|i: int| !stored_at(self.entries@, key@, i),
            },
    {
        let mut i: usize = 0;
        while i < self.entries.len()
            invariant
                i <= self.entries.len(),
                forall|j: int| 0 <= j < i ==> !stored_at(self.entries@, key@, j),
            decreases self.entries.len() - i,
        {
            if self.entries[i].0 == *key {
                return Some(i);
            }
            i = i + 1;
        }
        None
    }

    /// The value stored under `key`, if any.
    pub fn get(&self, key: &String) -> (found: Option<&V>)
        ensures
            match found {
                Some(value) => self@.contains_key(key@) && *value == self@[key@],
                None => !self@.contains_key(key@),
            },
    {
        proof {
            use_type_invariant(self);
        }
        match self.position(key) {
            Some(i) => {
                proof {
                    lemma_entry_in_map(self.entries@, i as int);
                }
                Some(&self.entries[i].1)
            },
            None => None,
        }
    }

    /// Stores `value` under `key`, replacing what was stored there before.
    pub fn insert(&mut self, key: String, value: V)
        ensures
            final(self)@ == old(self)@.insert(key@, value),
    {
        proof {
            use_type_invariant(&*self);
        }
        let found = self.position(&key);
        // The entries leave the map while they change, so that the map
        // never holds a list that is halfway through an update.
        let mut entries: Vec<(String, V)> = Vec::new();
        core::mem::swap(&mut self.entries, &mut entries);
        match found {
            Some(i) => {
                proof {
                    lemma_replace(entries@, i as int, key, value);
                }
                entries[i] = (key, value);
            },
            None => {
                proof {
                    lemma_append(entries@, key, value);
                }
                entries.push((key, value));
            },
        }
        self.entries = entries;
    }

    /// Removes whatever is stored under `key`.
    pub fn remove(&mut self, key: &String)
        ensures
            final(self)@ == old(self)@.remove(key@),
    {
        proof {
            use_type_invariant(&*self);
        }
        match self.position(key) {
            Some(i) => {
                let mut entries: Vec<(String, V)> = Vec::new();
                core::mem::swap(&mut self.entries, &mut entries);
                proof {
                    lemma_delete(entries@, i as int);
                }
                let _ = entries.remove(i);
                self.entries = entries;
            },
            None => {
                assert(self@ =~= old(self)@.remove(key@));
            },
        }
    }
}

} // verus!
