//! A small key-value store: at most one record under each key.

use crate::context::{DataKey, Record};
use vstd::prelude::*;

verus! {

/// The records of one ledger. Its view is the map from each key that has been
/// written to the record last written under it.
pub struct Storage {
    entries: Vec<Record>,
}

/// The map that a list of records stands for: a later record replaces an earlier
/// one with the same key.
pub open spec fn records_map(entries: Seq<Record>) -> Map<DataKey, Record>
    decreases entries.len(),
{
    if entries.len() == 0 {
        Map::empty()
    } else {
        records_map(entries.drop_last()).insert(entries.last().spec_key(), entries.last())
    }
}

/// Records before position `n` do not matter for a key that occurs at or after `n`;
/// and a key that occurs nowhere is not in the map.
proof fn lemma_records_map_lookup(entries: Seq<Record>, key: DataKey, i: int)
    requires
        0 <= i < entries.len(),
        entries[i].spec_key() == key,
        forall|j: int| i < j < entries.len() ==> entries[j].spec_key() != key,
    ensures
        records_map(entries).contains_key(key),
        records_map(entries)[key] == entries[i],
    decreases entries.len(),
{
    if i < entries.len() - 1 {
        lemma_records_map_lookup(entries.drop_last(), key, i);
    }
}

proof fn lemma_records_map_absent(entries: Seq<Record>, key: DataKey)
    requires
        forall|j: int| 0 <= j < entries.len() ==> entries[j].spec_key() != key,
    ensures
        !records_map(entries).contains_key(key),
    decreases entries.len(),
{
    if entries.len() > 0 {
        lemma_records_map_absent(entries.drop_last(), key);
    }
}

/// Replacing the last record of a key by another record of that key is an insert.
proof fn lemma_records_map_update(entries: Seq<Record>, i: int, record: Record)
    requires
        0 <= i < entries.len(),
        entries[i].spec_key() == record.spec_key(),
        forall|j: int| i < j < entries.len() ==> entries[j].spec_key() != record.spec_key(),
    ensures
        records_map(entries.update(i, record)) == records_map(entries).insert(
            record.spec_key(),
            record,
        ),
    decreases entries.len(),
{
    let updated = entries.update(i, record);
    if i == entries.len() - 1 {
        assert(updated.drop_last() == entries.drop_last());
        assert(records_map(updated) == records_map(entries).insert(record.spec_key(), record));
    } else {
        lemma_records_map_update(entries.drop_last(), i, record);
        assert(updated.drop_last() == entries.drop_last().update(i, record));
        assert(updated.last() == entries.last());
        assert(records_map(updated) == records_map(entries).insert(record.spec_key(), record));
    }
}

impl View for Storage {
    type V = Map<DataKey, Record>;

    closed spec fn view(&self) -> Map<DataKey, Record> {
        records_map(self.entries@)
    }
}

impl Storage {
    /// A store that holds nothing.
    pub fn new() -> (store: Storage)
        ensures
            store@ == Map::<DataKey, Record>::empty(),
    {
        Storage { entries: Vec::new() }
    }

    /// Every record in the view sits under its own key: a record of one kind is
    /// never found under the key of another kind or of another account.
    pub proof fn law_records_sit_under_their_keys(self)
        ensures
            forall|key: DataKey| #[trigger]
                self@.contains_key(key) ==> self@[key].spec_key() == key,
    {
        Self::lemma_keyed_entries(self.entries@);
    }

    proof fn lemma_keyed_entries(entries: Seq<Record>)
        ensures
            forall|key: DataKey| #[trigger]
                records_map(entries).contains_key(key) ==> records_map(entries)[key].spec_key()
                    == key,
        decreases entries.len(),
    {
        if entries.len() > 0 {
            Self::lemma_keyed_entries(entries.drop_last());
        }
    }

    /// The position of the record stored under `key`, if there is one.
    fn position(&self, key: &DataKey) -> (found: Option<usize>)
        ensures
            match found {
                Some(i) => i < self.entries@.len() && self.entries@[i as int].spec_key() == *key
                    && forall|j: int|
                    i < j < self.entries@.len() ==> self.entries@[j].spec_key() != *key,
                None => forall|j: int|
                    0 <= j < self.entries@.len() ==> self.entries@[j].spec_key() != *key,
            },
    {
        let mut i: usize = self.entries.len();
        while i > 0
            invariant
                i <= self.entries@.len(),
                forall|j: int| i <= j < self.entries@.len() ==> self.entries@[j].spec_key() != *key,
            decreases i,
        {
            i = i - 1;
            if self.entries[i].key() == *key {
                return Some(i);
            }
        }
        None
    }

    /// The record stored under `key`, or `None` if nothing was ever stored there.
    pub fn get(&self, key: &DataKey) -> (found: Option<Record>)
        ensures
            found == (if self@.contains_key(*key) {
                Some(self@[*key])
            } else {
                None
            }),
            found matches Some(record) ==> record.spec_key() == *key,
    {
        match self.position(key) {
            Some(i) => {
                proof {
                    lemma_records_map_lookup(self.entries@, *key, i as int);
                }
                Some(self.entries[i])
            },
            None => {
                proof {
                    lemma_records_map_absent(self.entries@, *key);
                }
                None
            },
        }
    }

    /// Whether a record is stored under `key`.
    pub fn has(&self, key: &DataKey) -> (present: bool)
        ensures
            present == self@.contains_key(*key),
    {
        self.get(key).is_some()
    }

    /// Stores `record` under its key, in place of whatever was stored there. Records
    /// under other keys stay as they are.
    pub fn set(&mut self, record: Record)
        ensures
            final(self)@ == old(self)@.insert(record.spec_key(), record),
    {
        let key = record.key();
        match self.position(&key) {
            Some(i) => {
                proof {
                    lemma_records_map_update(self.entries@, i as int, record);
                }
                self.entries.set(i, record);
            },
            None => {
                self.entries.push(record);
                assert(self.entries@.drop_last() == old(self).entries@);
            },
        }
    }
}

} // verus!
