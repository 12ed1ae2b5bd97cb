//! Where the records are kept: one record under each key.

use crate::identity::Identity;
use crate::record::{RecordView, RecoveryData};
use vstd::prelude::*;

verus! {

/// The key under which a record is kept.
#[derive(Debug, PartialEq, Eq)]
pub enum DataKey {
    /// The recovery record of the given identity.
    UserRecovery(Identity),
}

impl View for DataKey {
    type V = Seq<u8>;

    open spec fn view(&self) -> Seq<u8> {
        match self {
            DataKey::UserRecovery(user) => user@,
        }
    }
}

impl Clone for DataKey {
    fn clone(&self) -> (copy: Self)
        ensures
            copy@ == self@,
    {
        match self {
            DataKey::UserRecovery(user) => DataKey::UserRecovery(user.clone()),
        }
    }
}

impl DataKey {
    /// Whether `self` and `other` are the same key.
    pub fn same_as(&self, other: &DataKey) -> (same: bool)
        ensures
            same == (self@ == other@),
    {
        match (self, other) {
            (DataKey::UserRecovery(mine), DataKey::UserRecovery(theirs)) => mine.same_as(theirs),
        }
    }
}

struct Entry {
    key: DataKey,
    value: RecoveryData,
}

spec fn distinct_keys(entries: Seq<Entry>) -> bool {
    forall|i: int, j: int| 0 <= i < j < entries.len() ==> entries[i].key@ != entries[j].key@
}

spec fn holds(entries: Seq<Entry>, key: Seq<u8>) -> bool {
    exists|i: int| 0 <= i < entries.len() && entries[i].key@ == key
}

spec fn slot(entries: Seq<Entry>, key: Seq<u8>) -> int {
    choose|i: int| 0 <= i < entries.len() && entries[i].key@ == key
}

spec fn records_of(entries: Seq<Entry>) -> Map<Seq<u8>, RecordView> {
    Map::new(|key: Seq<u8>| holds(entries, key), |key: Seq<u8>| entries[slot(entries, key)].value@)
}

/// With distinct keys, the entry at `i` is the one that its key leads to.
proof fn lemma_slot(entries: Seq<Entry>, i: int)
    requires
        distinct_keys(entries),
        0 <= i < entries.len(),
    ensures
        holds(entries, entries[i].key@),
        slot(entries, entries[i].key@) == i,
        records_of(entries).dom().contains(entries[i].key@),
        records_of(entries)[entries[i].key@] == entries[i].value@,
{
}

/// Appending an entry under a key that is not held yet adds that key, and
/// touches nothing else.
proof fn lemma_push(entries: Seq<Entry>, entry: Entry)
    requires
        distinct_keys(entries),
        !holds(entries, entry.key@),
    ensures
        distinct_keys(entries.push(entry)),
        records_of(entries.push(entry)) == records_of(entries).insert(entry.key@, entry.value@),
{
    let after = entries.push(entry);
    assert forall|key: Seq<u8>| holds(after, key) <==> (key == entry.key@ || holds(
        entries,
        key,
    )) by {
        if holds(entries, key) {
            let i = slot(entries, key);
            assert(after[i].key@ == key);
        }
        if key == entry.key@ {
            assert(after[entries.len() as int].key@ == key);
        }
        if holds(after, key) {
            let i = slot(after, key);
            if i < entries.len() {
                assert(entries[i].key@ == key);
            }
        }
    }
    assert forall|key: Seq<u8>| holds(after, key) implies #[trigger] records_of(after)[key]
        == records_of(entries).insert(entry.key@, entry.value@)[key] by {
        lemma_slot(after, slot(after, key));
    }
    assert(records_of(after) =~= records_of(entries).insert(entry.key@, entry.value@));
}

/// Replacing the entry at `i` by one under the same key changes what that key
/// leads to, and touches nothing else.
proof fn lemma_replace(entries: Seq<Entry>, i: int, entry: Entry)
    requires
        distinct_keys(entries),
        0 <= i < entries.len(),
        entry.key@ == entries[i].key@,
    ensures
        distinct_keys(entries.update(i, entry)),
        records_of(entries.update(i, entry)) == records_of(entries).insert(
            entry.key@,
            entry.value@,
        ),
{
    let after = entries.update(i, entry);
    assert forall|key: Seq<u8>| holds(after, key) <==> holds(entries, key) by {
        if holds(entries, key) {
            let k = slot(entries, key);
            assert(after[k].key@ == key);
        }
        if holds(after, key) {
            let k = slot(after, key);
            assert(entries[k].key@ == key);
        }
    }
    assert forall|key: Seq<u8>| holds(after, key) implies #[trigger] records_of(after)[key]
        == records_of(entries).insert(entry.key@, entry.value@)[key] by {
        lemma_slot(after, slot(after, key));
    }
    assert(records_of(after) =~= records_of(entries).insert(entry.key@, entry.value@));
}

/// The records, each under its key. No key is held twice.
///
/// As a mathematical value the store is the map from the keys that are held
/// to the records under them.
pub struct RecordStore {
    entries: Vec<Entry>,
}

impl View for RecordStore {
    type V = Map<Seq<u8>, RecordView>;

    closed spec fn view(&self) -> Map<Seq<u8>, RecordView> {
        records_of(self.entries@)
    }
}

impl RecordStore {
    #[verifier::type_invariant]
    spec fn one_record_per_key(self) -> bool {
        distinct_keys(self.entries@)
    }

    /// A store that holds nothing.
    pub fn new() -> (store: Self)
        ensures
            store@ == Map::<Seq<u8>, RecordView>::empty(),
    {
        let store = RecordStore { entries: Vec::new() };
        store
    }

    fn position(&self, key: &DataKey) -> (found: Option<usize>)
        ensures
            match found {
                Some(i) => i < self.entries@.len() && self.entries@[i as int].key@ == key@,
                None => !holds(self.entries@, key@),
            },
    {
        let mut i: usize = 0;
        while i < self.entries.len()
            invariant
                i <= self.entries@.len(),
                forall|j: int| 0 <= j < i ==> self.entries@[j].key@ != key@,
            decreases self.entries@.len() - i,
        {
            if self.entries[i].key.same_as(key) {
                return Some(i);
            }
            i += 1;
        }
        None
    }

    /// Whether a record is held under `key`.
    pub fn has(&self, key: &DataKey) -> (present: bool)
        ensures
            present == self@.dom().contains(key@),
    {
        self.position(key).is_some()
    }

    /// A copy of the record held under `key`, if there is one.
    pub fn get(&self, key: &DataKey) -> (found: Option<RecoveryData>)
        ensures
            match found {
                Some(record) => self@.dom().contains(key@) && record@ == self@[key@],
                None => !self@.dom().contains(key@),
            },
    {
        proof {
            use_type_invariant(self);
        }
        match self.position(key) {
            Some(i) => {
                proof {
                    lemma_slot(self.entries@, i as int);
                }
                Some(self.entries[i].value.clone())
            },
            None => None,
        }
    }

    /// Holds `value` under `key` from now on, in place of what was held under
    /// it before, if anything was. What is held under other keys stays.
    pub fn set(&mut self, key: DataKey, value: RecoveryData)
        ensures
            final(self)@ == old(self)@.insert(key@, value@),
    {
        proof {
            use_type_invariant(&*self);
        }
        let found = self.position(&key);
        let mut entries = Vec::new();
        core::mem::swap(&mut entries, &mut self.entries);
        let entry = Entry { key, value };
        match found {
            Some(i) => {
                proof {
                    lemma_replace(entries@, i as int, entry);
                }
                entries[i] = entry;
            },
            None => {
                proof {
                    lemma_push(entries@, entry);
                }
                entries.push(entry);
            },
        }
        self.entries = entries;
    }
}

} // verus!
