//! An entity table: a durable map from an identifier to the bytes of a
//! record, which takes no record longer than its ceiling.

use crate::codec::{
    decoding, from_bytes, lemma_decoding_encoding, lemma_encoding_decoding, to_bytes, Codec,
};
use crate::stable::{
    table_contents, table_entries, table_get, table_init, table_insert, table_new, table_remove,
    Partition, RawTable,
};
use vstd::prelude::*;

verus! {

/// A type whose values are stored in a table.
pub trait Record: Codec {
    /// Whether `record` may stand under `id`: a record that carries its own
    /// identifier is stored under that identifier and no other.
    spec fn stored_under(record: Self::Model, id: u64) -> bool;

    /// Whether `self` may stand under `id`.
    fn is_stored_under(&self, id: u64) -> (yes: bool)
        ensures
            yes == Self::stored_under(self.model(), id),
    ;
}

/// One table. Its view is the map from each identifier in use to the
/// bytes stored under it.
pub struct Table {
    raw: RawTable,
    ceiling: usize,
}

impl View for Table {
    type V = Map<u64, Seq<u8>>;

    /// The bytes stored under each identifier.
    closed spec fn view(&self) -> Map<u64, Seq<u8>> {
        table_contents(self.raw)
    }
}

impl Table {
    /// The greatest length of a value that the table takes.
    pub closed spec fn ceiling(&self) -> nat {
        self.ceiling as nat
    }

    /// No stored value is longer than the ceiling.
    pub open spec fn wf(&self) -> bool {
        forall|id: u64| #[trigger] self@.contains_key(id) ==> self@[id].len() <= self.ceiling()
    }

    /// Every stored value stands for a record of type `T`.
    pub open spec fn holds<T: Codec>(&self) -> bool {
        forall|id: u64| #[trigger] self@.contains_key(id) ==> decoding::<T>(self@[id]) is Some
    }

    /// The records that the stored values stand for.
    pub open spec fn records<T: Codec>(&self) -> Map<u64, T::Model> {
        Map::new(|id: u64| self@.contains_key(id), |id: u64| decoding::<T>(self@[id]).unwrap())
    }

    /// What is stored under an identifier is the encoding of the record
    /// that it stands for, so every record is within the ceiling.
    pub proof fn lemma_stored_is_encoding<T: Codec>(&self, id: u64)
        requires
            self.wf(),
            self.holds::<T>(),
            self@.contains_key(id),
        ensures
            T::encodable(self.records::<T>()[id]),
            T::encoding(self.records::<T>()[id]) == self@[id],
            T::encoding(self.records::<T>()[id]).len() <= self.ceiling(),
    {
        lemma_encoding_decoding::<T>(self@[id]);
    }

    /// An empty table, whatever the partition held.
    pub(crate) fn new(partition: Partition, ceiling: usize) -> (table: Table)
        ensures
            table@ == (Map::<u64, Seq<u8>>::empty()),
            table.ceiling() == ceiling,
            table.wf(),
    {
        Table { raw: table_new(partition), ceiling }
    }

    /// The table that the partition holds, or an empty one where it holds
    /// none. What it holds has still to be checked.
    pub(crate) fn open(partition: Partition, ceiling: usize) -> (table: Table)
        ensures
            table.ceiling() == ceiling,
    {
        Table { raw: table_init(partition), ceiling }
    }

    /// The greatest length of a value that the table takes.
    pub fn max_size(&self) -> (bytes: usize)
        ensures
            bytes == self.ceiling(),
    {
        self.ceiling
    }

    /// The bytes stored under `id`, if there are any. The table is unchanged.
    pub fn get(&self, id: u64) -> (found: Option<Vec<u8>>)
        ensures
            found.is_some() == self@.contains_key(id),
            found matches Some(bytes) ==> bytes@ == self@[id],
    {
        table_get(&self.raw, id)
    }

    /// Whether the table takes a value of this length.
    pub fn accepts(&self, bytes: &Vec<u8>) -> (fits: bool)
        ensures
            fits == (bytes@.len() <= self.ceiling()),
    {
        bytes.len() <= self.ceiling
    }

    /// Stores `bytes` under `id`, in place of what was stored there, and
    /// hands back what was stored there.
    pub fn insert(&mut self, id: u64, bytes: Vec<u8>) -> (previous: Option<Vec<u8>>)
        requires
            old(self).wf(),
            bytes@.len() <= old(self).ceiling(),
        ensures
            final(self).wf(),
            final(self).ceiling() == old(self).ceiling(),
            final(self)@ == old(self)@.insert(id, bytes@),
            previous.is_some() == old(self)@.contains_key(id),
            previous matches Some(before) ==> before@ == old(self)@[id],
    {
        let ghost stored = bytes@;
        let previous = table_insert(&mut self.raw, id, bytes);
        assert forall|other: u64| #[trigger] self@.contains_key(other) implies self@[other].len()
            <= self.ceiling() by {
            if other != id {
                assert(old(self)@.contains_key(other));
            } else {
                assert(self@[other] == stored);
            }
        }
        previous
    }

    /// Removes what is stored under `id` and hands it back.
    pub fn remove(&mut self, id: u64) -> (removed: Option<Vec<u8>>)
        requires
            old(self).wf(),
        ensures
            final(self).wf(),
            final(self).ceiling() == old(self).ceiling(),
            final(self)@ == old(self)@.remove(id),
            removed.is_some() == old(self)@.contains_key(id),
            removed matches Some(bytes) ==> bytes@ == old(self)@[id],
    {
        let removed = table_remove(&mut self.raw, id);
        assert forall|other: u64| #[trigger] self@.contains_key(other) implies self@[other].len()
            <= self.ceiling() by {
            assert(old(self)@.contains_key(other));
        }
        removed
    }

    /// Every entry of the table, in ascending order of identifier.
    pub fn entries(&self) -> (entries: Vec<(u64, Vec<u8>)>)
        ensures
            forall|i: int|
                0 <= i < entries@.len() ==> {
                    &&& self@.contains_key(#[trigger] entries@[i].0)
                    &&& self@[entries@[i].0] == entries@[i].1@
                },
            forall|id: u64| #[trigger]
                self@.contains_key(id) ==> exists|i: int|
                    0 <= i < entries@.len() && entries@[i].0 == id,
            forall|i: int, j: int|
                0 <= i < j < entries@.len() ==> (#[trigger] entries@[i]).0 < (
                #[trigger] entries@[j]).0,
    {
        table_entries(&self.raw)
    }

    /// The record stored under `id`, if there is one. The table is unchanged.
    pub fn fetch<T: Codec>(&self, id: u64) -> (found: Option<T>)
        requires
            self.holds::<T>(),
        ensures
            found.is_some() == self@.contains_key(id),
            found matches Some(record) ==> record.model() == self.records::<T>()[id],
    {
        match self.get(id) {
            Some(bytes) => from_bytes::<T>(bytes.as_slice()).ok(),
            None => None,
        }
    }

    /// Whether the encoding of `record` is within the ceiling.
    pub fn fits<T: Codec>(&self, record: &T) -> (fits: bool)
        ensures
            fits == (T::encoding(record.model()).len() <= self.ceiling()),
    {
        let bytes = to_bytes(record);
        bytes.len() <= self.ceiling
    }

    /// Stores `record` under `id`, in place of what was stored there.
    pub fn put<T: Codec>(&mut self, id: u64, record: &T)
        requires
            old(self).wf(),
            old(self).holds::<T>(),
            T::encoding(record.model()).len() <= old(self).ceiling(),
        ensures
            final(self).wf(),
            final(self).holds::<T>(),
            final(self).ceiling() == old(self).ceiling(),
            final(self)@ == old(self)@.insert(id, T::encoding(record.model())),
            final(self).records::<T>() == old(self).records::<T>().insert(id, record.model()),
    {
        let bytes = to_bytes(record);
        proof {
            lemma_decoding_encoding::<T>(record.model());
        }
        self.insert(id, bytes);
        assert(self.records::<T>() =~= old(self).records::<T>().insert(id, record.model()));
    }

    /// Removes the record stored under `id` and hands it back.
    pub fn take<T: Codec>(&mut self, id: u64) -> (removed: Option<T>)
        requires
            old(self).wf(),
            old(self).holds::<T>(),
        ensures
            final(self).wf(),
            final(self).holds::<T>(),
            final(self).ceiling() == old(self).ceiling(),
            final(self)@ == old(self)@.remove(id),
            final(self).records::<T>() == old(self).records::<T>().remove(id),
            removed.is_some() == old(self)@.contains_key(id),
            removed matches Some(record) ==> record.model() == old(self).records::<T>()[id],
    {
        let removed = match self.remove(id) {
            Some(bytes) => from_bytes::<T>(bytes.as_slice()).ok(),
            None => None,
        };
        assert(self.records::<T>() =~= old(self).records::<T>().remove(id));
        removed
    }

    /// Every identifier in use is below `bound`, and every record is stored
    /// under an identifier that it may stand under.
    pub open spec fn keyed<T: Record>(&self, bound: u64) -> bool {
        forall|id: u64| #[trigger]
            self.records::<T>().contains_key(id) ==> id < bound && T::stored_under(
                self.records::<T>()[id],
                id,
            )
    }

    /// Whether every stored value is within the ceiling and stands for a
    /// record of type `T` that may stand under its identifier, and every
    /// identifier in use is below `bound`.
    pub fn check<T: Record>(&self, bound: u64) -> (sound: bool)
        ensures
            sound == (self.wf() && self.holds::<T>() && self.keyed::<T>(bound)),
    {
        let entries = self.entries();
        let mut i: usize = 0;
        while i < entries.len()
            invariant
                i <= entries@.len(),
                forall|j: int|
                    0 <= j < entries@.len() ==> {
                        &&& self@.contains_key(#[trigger] entries@[j].0)
                        &&& self@[entries@[j].0] == entries@[j].1@
                    },
                forall|j: int|
                    0 <= j < i ==> {
                        &&& (#[trigger] entries@[j]).1@.len() <= self.ceiling()
                        &&& decoding::<T>(entries@[j].1@) is Some
                        &&& entries@[j].0 < bound
                        &&& T::stored_under(decoding::<T>(entries@[j].1@).unwrap(), entries@[j].0)
                    },
            decreases entries@.len() - i,
        {
            let id: u64 = entries[i].0;
            let bytes = &entries[i].1;
            assert(self@.contains_key(entries@[i as int].0));
            assert(self.records::<T>().contains_key(id));
            if bytes.len() > self.ceiling || id >= bound {
                return false;
            }
            match from_bytes::<T>(bytes.as_slice()) {
                Ok(record) => {
                    if !record.is_stored_under(id) {
                        return false;
                    }
                },
                Err(_) => {
                    return false;
                },
            }
            i = i + 1;
        }
        assert forall|id: u64| #[trigger] self@.contains_key(id) implies {
            &&& self@[id].len() <= self.ceiling()
            &&& decoding::<T>(self@[id]) is Some
            &&& id < bound
            &&& T::stored_under(self.records::<T>()[id], id)
        } by {
            let j = choose|j: int| 0 <= j < entries@.len() && entries@[j].0 == id;
            assert(self@[entries@[j].0] == entries@[j].1@);
        }
        assert forall|id: u64| #[trigger] self.records::<T>().contains_key(id) implies id < bound
            && T::stored_under(self.records::<T>()[id], id) by {
            assert(self@.contains_key(id));
        }
        true
    }
}

} // verus!
