//! The record store: at most one record lives at an address.

use crate::errors::CustomError;
use crate::identity::Identity;
use vstd::prelude::*;

verus! {

/// One record and the address it lives at.
struct Entry<T> {
    key: Identity,
    record: T,
}

/// The records of one kind, each at an address of its own.
pub struct RecordStore<T> {
    entries: Vec<Entry<T>>,
}

/// Whether some entry of `entries` lives at `key`.
spec fn occupied<T>(entries: Seq<Entry<T>>, key: Identity) -> bool {
    exists|i: int| 0 <= i < entries.len() && (#[trigger] entries[i]).key == key
}

/// The place in `entries` of the entry that lives at `key`.
spec fn place<T>(entries: Seq<Entry<T>>, key: Identity) -> int {
    choose|i: int| 0 <= i < entries.len() && (#[trigger] entries[i]).key == key
}

/// No two entries of `entries` live at one address.
spec fn distinct<T>(entries: Seq<Entry<T>>) -> bool {
    forall|i: int, j: int|
        0 <= i < entries.len() && 0 <= j < entries.len() && (#[trigger] entries[i]).key == (
        #[trigger] entries[j]).key ==> i == j
}

/// The map from addresses to records that `entries` stand for.
spec fn as_map<T>(entries: Seq<Entry<T>>) -> Map<Identity, T> {
    Map::new(
        |key: Identity| occupied(entries, key),
        |key: Identity| entries[place(entries, key)].record,
    )
}

/// In `entries` without duplicates, the entry at place `i` is the one found
/// under its own address.
proof fn lemma_place<T>(entries: Seq<Entry<T>>, i: int)
    requires
        distinct(entries),
        0 <= i < entries.len(),
    ensures
        occupied(entries, entries[i].key),
        place(entries, entries[i].key) == i,
{
}

/// Adding an entry at a free address adds one binding to the map.
proof fn lemma_push<T>(entries: Seq<Entry<T>>, entry: Entry<T>)
    requires
        distinct(entries),
        !occupied(entries, entry.key),
    ensures
        distinct(entries.push(entry)),
        as_map(entries.push(entry)) == as_map(entries).insert(entry.key, entry.record),
{
    let after = entries.push(entry);
    assert forall|i: int, j: int|
        0 <= i < after.len() && 0 <= j < after.len() && (#[trigger] after[i]).key == (
        #[trigger] after[j]).key implies i == j by {
    }
    assert forall|key: Identity|
        occupied(after, key) <==> (key == entry.key || occupied(entries, key)) by {
        if key == entry.key {
            assert(after[entries.len() as int].key == key);
        }
        if occupied(entries, key) {
            let i = place(entries, key);
            assert(after[i].key == key);
        }
    }
    assert forall|key: Identity| occupied(after, key) implies #[trigger] as_map(after)[key]
        == as_map(entries).insert(entry.key, entry.record)[key] by {
        if key == entry.key {
            lemma_place(after, entries.len() as int);
        } else {
            let j = place(entries, key);
            lemma_place(after, j);
        }
    }
}

/// Taking the entry at place `i` out takes its binding out of the map.
proof fn lemma_remove<T>(entries: Seq<Entry<T>>, i: int)
    requires
        distinct(entries),
        0 <= i < entries.len(),
    ensures
        distinct(entries.remove(i)),
        as_map(entries.remove(i)) == as_map(entries).remove(entries[i].key),
{
    let after = entries.remove(i);
    let gone = entries[i].key;
    assert forall|a: int, b: int|
        0 <= a < after.len() && 0 <= b < after.len() && (#[trigger] after[a]).key == (
        #[trigger] after[b]).key implies a == b by {
    }
    assert forall|key: Identity|
        occupied(after, key) <==> (key != gone && occupied(entries, key)) by {
        if key != gone && occupied(entries, key) {
            let j = place(entries, key);
            let a = if j < i { j } else { j - 1 };
            assert(after[a] == entries[j]);
        }
    }
    assert forall|key: Identity| occupied(after, key) implies #[trigger] as_map(after)[key]
        == as_map(entries).remove(gone)[key] by {
        let a = place(after, key);
        let a0 = if a < i { a } else { a + 1 };
        lemma_place(entries, a0);
    }
}

impl<T> View for RecordStore<T> {
    type V = Map<Identity, T>;

    closed spec fn view(&self) -> Map<Identity, T> {
        as_map(self.entries@)
    }
}

impl<T> RecordStore<T> {
    #[verifier::type_invariant]
    spec fn no_address_twice(&self) -> bool {
        distinct(self.entries@)
    }

    /// The store without records.
    pub fn new() -> (store: RecordStore<T>)
        ensures
            store@ == Map::<Identity, T>::empty(),
    {
        RecordStore { entries: Vec::new() }
    }

    /// The place of the record at `key`, if there is one.
    fn find(&self, key: &Identity) -> (at: Option<usize>)
        ensures
            match at {
                Some(i) => i < self.entries@.len() && self.entries@[i as int].key == *key,
                None => !occupied(self.entries@, *key),
            },
    {
        let mut i: usize = 0;
        while i < self.entries.len()
            invariant
                i <= self.entries@.len(),
                forall|j: int| 0 <= j < i ==> (#[trigger] self.entries@[j]).key != *key,
            decreases self.entries@.len() - i,
        {
            if self.entries[i].key == *key {
                return Some(i);
            }
            i = i + 1;
        }
        None
    }

    /// Whether a record lives at `key`.
    pub fn contains(&self, key: &Identity) -> (held: bool)
        ensures
            held == self@.contains_key(*key),
    {
        self.find(key).is_some()
    }

    /// The record at `key`, if there is one.
    pub fn get(&self, key: &Identity) -> (record: Option<&T>)
        ensures
            match record {
                Some(held) => self@.contains_key(*key) && *held == self@[*key],
                None => !self@.contains_key(*key),
            },
    {
        match self.find(key) {
            Some(i) => {
                proof {
                    use_type_invariant(self);
                    lemma_place(self.entries@, i as int);
                }
                Some(&self.entries[i].record)
            },
            None => None,
        }
    }

    /// Creates `record` at `key`, unless a record lives there already: then
    /// nothing changes and the creation fails.
    pub fn insert(&mut self, key: Identity, record: T) -> (created: Result<(), CustomError>)
        ensures
            created is Ok <==> !old(self)@.contains_key(key),
            created is Ok ==> final(self)@ == old(self)@.insert(key, record),
            created is Err ==> created == Err::<(), CustomError>(CustomError::KeyAlreadyExists)
                && *final(self) == *old(self),
    {
        if self.find(&key).is_some() {
            return Err(CustomError::KeyAlreadyExists);
        }
        proof {
            use_type_invariant(&*self);
            lemma_push(self.entries@, Entry { key, record });
        }
        let mut entries: Vec<Entry<T>> = Vec::new();
        std::mem::swap(&mut self.entries, &mut entries);
        entries.push(Entry { key, record });
        std::mem::swap(&mut self.entries, &mut entries);
        Ok(())
    }

    /// Puts `record` at `key`, in place of the record that lives there, if
    /// one does. Hands back the record that was replaced.
    pub fn put(&mut self, key: Identity, record: T) -> (previous: Option<T>)
        ensures
            final(self)@ == old(self)@.insert(key, record),
            previous == if old(self)@.contains_key(key) {
                Some(old(self)@[key])
            } else {
                None
            },
    {
        let previous = self.remove(&key);
        let _ = self.insert(key, record);
        previous
    }

    /// Takes the record at `key` out of the store, if there is one.
    pub fn remove(&mut self, key: &Identity) -> (record: Option<T>)
        ensures
            match record {
                Some(held) => old(self)@.contains_key(*key) && held == old(self)@[*key]
                    && final(self)@ == old(self)@.remove(*key),
                None => !old(self)@.contains_key(*key) && *final(self) == *old(self),
            },
    {
        match self.find(key) {
            Some(i) => {
                proof {
                    use_type_invariant(&*self);
                    lemma_place(self.entries@, i as int);
                    lemma_remove(self.entries@, i as int);
                }
                let mut entries: Vec<Entry<T>> = Vec::new();
                std::mem::swap(&mut self.entries, &mut entries);
                let entry = entries.remove(i);
                std::mem::swap(&mut self.entries, &mut entries);
                Some(entry.record)
            },
            None => None,
        }
    }
}

} // verus!
