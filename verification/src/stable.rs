//! The durable primitives this store is built on: one partitioned memory, a
//! cell that holds the identifier counter, and key-ordered maps from an
//! identifier to the bytes of a record. All of them come from
//! `ic_stable_structures`; what is stated of them here is taken on trust.
//!
//! The outside types are generic over traits that the verifier does not know,
//! so each is kept in a private field of an opaque struct, and the verified
//! code speaks of what it holds through [`cell_value`] and [`table_contents`].
//!
//! Every call below can abort the process when the underlying memory refuses
//! to grow or holds a layout that the outside crate does not recognise. That
//! is a failure of the durable medium, and nothing here rules it out.
//!
//! What is said of a cell or a table holds as long as nothing else writes to
//! its partition. The store sees to that within one memory: it gives each
//! partition to one structure. On a canister the default memory is the one
//! stable memory that the canister has, so a canister builds one store.

use ic_stable_structures::memory_manager::{MemoryId, MemoryManager, VirtualMemory};
use ic_stable_structures::{DefaultMemoryImpl, StableBTreeMap, StableCell};
use vstd::prelude::*;

verus! {

/// The whole durable memory, divided into independent partitions.
/// Holds an `ic_stable_structures::memory_manager::MemoryManager`.
#[verifier::external_body]
pub struct Partitions {
    manager: MemoryManager<DefaultMemoryImpl>,
}

/// One partition of the durable memory, not yet given to a structure.
/// Holds an `ic_stable_structures::memory_manager::VirtualMemory`.
#[verifier::external_body]
pub struct Partition {
    memory: VirtualMemory<DefaultMemoryImpl>,
}

/// A durable cell that holds one `u64`.
/// Holds an `ic_stable_structures::Cell`.
#[verifier::external_body]
pub struct CounterCell {
    cell: StableCell<u64, VirtualMemory<DefaultMemoryImpl>>,
}

/// A durable map from an identifier to a byte string, ordered by identifier.
/// Holds an `ic_stable_structures::BTreeMap` whose values are `Vec<u8>`, which
/// that crate stores as they are, with no limit on their length.
#[verifier::external_body]
pub struct RawTable {
    map: StableBTreeMap<u64, Vec<u8>, VirtualMemory<DefaultMemoryImpl>>,
}

/// The value that a counter cell holds: what `Cell::new` or the last
/// `Cell::set` put there.
pub uninterp spec fn cell_value(cell: CounterCell) -> u64;

/// The entries that a table holds: the bytes that the last `BTreeMap::insert`
/// put under each identifier that no later `BTreeMap::remove` took away.
pub uninterp spec fn table_contents(table: RawTable) -> Map<u64, Seq<u8>>;

/// `MemoryManager::init` on the default memory of the platform: loads the
/// partitioning that the memory holds, or lays out a new one. Nothing is
/// claimed of the result.
#[verifier::external_body]
pub(crate) fn open_partitions() -> Partitions {
    Partitions { manager: MemoryManager::init(DefaultMemoryImpl::default()) }
}

/// `MemoryManager::get`: the partition with the given number. The outside
/// crate reserves the number 255. Nothing is claimed of the result.
#[verifier::external_body]
pub(crate) fn partition(partitions: &Partitions, id: u8) -> Partition
    requires
        id < 255,
{
    Partition { memory: partitions.manager.get(MemoryId::new(id)) }
}

/// `Cell::new`: a cell that overwrites what the partition held and holds
/// `value`.
#[verifier::external_body]
pub(crate) fn cell_new(partition: Partition, value: u64) -> (cell: CounterCell)
    ensures
        cell_value(cell) == value,
{
    CounterCell { cell: StableCell::new(partition.memory, value) }
}

/// `Cell::init`: the cell that the partition holds, or a new one with
/// `default_value` where it holds none. Nothing is claimed of its value.
#[verifier::external_body]
pub(crate) fn cell_init(partition: Partition, default_value: u64) -> CounterCell {
    CounterCell { cell: StableCell::init(partition.memory, default_value) }
}

/// `Cell::get`: the value that the cell holds.
#[verifier::external_body]
pub(crate) fn cell_get(cell: &CounterCell) -> (value: u64)
    ensures
        value == cell_value(*cell),
{
    *cell.cell.get()
}

/// `Cell::set`: writes `value` through to the memory and hands back the value
/// that the cell held before.
#[verifier::external_body]
pub(crate) fn cell_set(cell: &mut CounterCell, value: u64) -> (previous: u64)
    ensures
        previous == cell_value(*old(cell)),
        cell_value(*final(cell)) == value,
{
    cell.cell.set(value)
}

/// `BTreeMap::new`: an empty map that overwrites what the partition held.
#[verifier::external_body]
pub(crate) fn table_new(partition: Partition) -> (table: RawTable)
    ensures
        table_contents(table) == (Map::<u64, Seq<u8>>::empty()),
{
    RawTable { map: StableBTreeMap::new(partition.memory) }
}

/// `BTreeMap::init`: the map that the partition holds, or an empty one where
/// it holds none. Nothing is claimed of its entries.
#[verifier::external_body]
pub(crate) fn table_init(partition: Partition) -> RawTable {
    RawTable { map: StableBTreeMap::init(partition.memory) }
}

/// `BTreeMap::get`: the bytes stored under `id`, if there are any.
#[verifier::external_body]
pub(crate) fn table_get(table: &RawTable, id: u64) -> (found: Option<Vec<u8>>)
    ensures
        found.is_some() == table_contents(*table).contains_key(id),
        found matches Some(bytes) ==> bytes@ == table_contents(*table)[id],
{
    table.map.get(&id)
}

/// `BTreeMap::insert`: stores `bytes` under `id`, replacing what was there,
/// and hands back what was there.
#[verifier::external_body]
pub(crate) fn table_insert(table: &mut RawTable, id: u64, bytes: Vec<u8>) -> (previous: Option<
    Vec<u8>,
>)
    ensures
        table_contents(*final(table)) == table_contents(*old(table)).insert(id, bytes@),
        previous.is_some() == table_contents(*old(table)).contains_key(id),
        previous matches Some(before) ==> before@ == table_contents(*old(table))[id],
{
    table.map.insert(id, bytes)
}

/// `BTreeMap::remove`: removes the entry under `id`, if there is one, and
/// hands back its bytes.
#[verifier::external_body]
pub(crate) fn table_remove(table: &mut RawTable, id: u64) -> (removed: Option<Vec<u8>>)
    ensures
        table_contents(*final(table)) == table_contents(*old(table)).remove(id),
        removed.is_some() == table_contents(*old(table)).contains_key(id),
        removed matches Some(bytes) ==> bytes@ == table_contents(*old(table))[id],
{
    table.map.remove(&id)
}

/// `BTreeMap::iter`: every entry of the map, once each, in ascending order of
/// identifier.
#[verifier::external_body]
pub(crate) fn table_entries(table: &RawTable) -> (entries: Vec<(u64, Vec<u8>)>)
    ensures
        forall|i: int|
            0 <= i < entries@.len() ==> {
                &&& table_contents(*table).contains_key(#[trigger] entries@[i].0)
                &&& table_contents(*table)[entries@[i].0] == entries@[i].1@
            },
        forall|id: u64| #[trigger]
            table_contents(*table).contains_key(id) ==> exists|i: int|
                0 <= i < entries@.len() && entries@[i].0 == id,
        forall|i: int, j: int|
            0 <= i < j < entries@.len() ==> (#[trigger] entries@[i]).0 < (#[trigger] entries@[j]).0,
{
    table.map.iter().map(|entry| entry.into_pair()).collect()
}

} // verus!
