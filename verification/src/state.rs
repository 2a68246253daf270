//! The engine's state and the primitive reads and writes on it.

use crate::slots::SlotTable;
use crate::txset::TxidSet;
use vstd::prelude::*;

verus! {

/// The collection that recognised collectibles belong to.
pub const PANDA_BLOCK: u128 = 0x2;

/// The credit tokens that one collectible is worth.
pub const BAMBOO_PER_PANDA: u128 = 10_000_000_000_000;

/// The number of collectibles in the collection.
pub const PANDA_SUPPLY: u128 = 10_000;

/// The declared cap on the supply of credit tokens.
pub const BAMBOO_CAP: u128 = PANDA_SUPPLY * BAMBOO_PER_PANDA;

/// The engine's state as mathematics.
#[verifier::ext_equal]
pub ghost struct SwapState {
    /// The serials of the recognised collectibles.
    pub panda_ids: Seq<u128>,
    /// The credit tokens in issue.
    pub total_supply: nat,
    /// The number of collectibles that the registry counts as held.
    pub count: nat,
    /// The record in each slot of the registry, empty where there is none.
    pub slots: Map<nat, Seq<u8>>,
    /// The transactions that have settled.
    pub settled: Set<Seq<u8>>,
}

impl SwapState {
    /// The state before anything has happened.
    pub open spec fn initial(panda_ids: Seq<u128>) -> SwapState {
        SwapState {
            panda_ids,
            total_supply: 0,
            count: 0,
            slots: Map::total(|slot: nat| Seq::<u8>::empty()),
            settled: Set::empty(),
        }
    }

    /// What holds of the state of every engine: its counters fit in 128 bits,
    /// every slot has a record, and there is no record beyond the last slot
    /// that 128 bits can number.
    pub open spec fn valid(self) -> bool {
        &&& self.total_supply <= u128::MAX
        &&& self.count <= u128::MAX
        &&& self.slots.dom() == Set::<nat>::full()
        &&& forall|slot: nat| slot > u128::MAX ==> (#[trigger] self.slots[slot]).len() == 0
    }
}

/// The settlement engine.
pub struct BambooSwap {
    panda_ids: Vec<u128>,
    total_supply: u128,
    instances_count: u128,
    instances: SlotTable,
    tx_hashes: TxidSet,
}

impl View for BambooSwap {
    type V = SwapState;

    closed spec fn view(&self) -> SwapState {
        SwapState {
            panda_ids: self.panda_ids@,
            total_supply: self.total_supply as nat,
            count: self.instances_count as nat,
            slots: Map::total(
                |slot: nat|
                    if slot <= u128::MAX {
                        self.instances@[slot as u128]
                    } else {
                        Seq::<u8>::empty()
                    },
            ),
            settled: self.tx_hashes@,
        }
    }
}

impl BambooSwap {
    /// Makes an engine that recognises the given serials and holds nothing.
    pub fn new(panda_ids: Vec<u128>) -> (engine: BambooSwap)
        ensures
            engine@ == SwapState::initial(panda_ids@),
    {
        BambooSwap {
            panda_ids,
            total_supply: 0,
            instances_count: 0,
            instances: SlotTable::new(),
            tx_hashes: TxidSet::new(),
        }
    }

    /// The state of an engine is always valid.
    pub proof fn lemma_valid(&self)
        ensures
            self@.valid(),
    {
    }

    /// The serials of the recognised collectibles.
    pub fn panda_ids(&self) -> (ids: &Vec<u128>)
        ensures
            ids@ == self@.panda_ids,
    {
        &self.panda_ids
    }

    /// The credit tokens in issue.
    pub fn total_supply(&self) -> (supply: u128)
        ensures
            supply == self@.total_supply,
    {
        self.total_supply
    }

    /// Sets the credit tokens in issue, and nothing else.
    pub fn set_total_supply(&mut self, v: u128)
        ensures
            final(self)@ == (SwapState { total_supply: v as nat, ..old(self)@ }),
    {
        self.total_supply = v;
    }

    /// The number of collectibles that the registry counts as held.
    pub fn instances_count(&self) -> (count: u128)
        ensures
            count == self@.count,
    {
        self.instances_count
    }

    /// Sets the number of collectibles that the registry counts as held, and
    /// nothing else.
    pub fn set_instances_count(&mut self, count: u128)
        ensures
            final(self)@ == (SwapState { count: count as nat, ..old(self)@ }),
    {
        self.instances_count = count;
    }

    /// Reads the record in a slot of the registry.
    pub fn instance_record(&self, slot: u128) -> (record: Vec<u8>)
        ensures
            record@ == self@.slots[slot as nat],
    {
        self.instances.get(slot)
    }

    /// Writes the record in a slot of the registry, and nothing else.
    pub fn set_instance_record(&mut self, slot: u128, record: Vec<u8>)
        ensures
            final(self)@ == (SwapState {
                slots: old(self)@.slots.insert(slot as nat, record@),
                ..old(self)@
            }),
    {
        self.instances.set(slot, record);
    }

    /// Tells whether the transaction has settled.
    pub fn has_tx_hash(&self, txid: &[u8; 32]) -> (settled: bool)
        ensures
            settled == self@.settled.contains(txid@),
    {
        self.tx_hashes.contains(txid)
    }

    /// Records that the transaction has settled, and nothing else.
    pub fn add_tx_hash(&mut self, txid: &[u8; 32])
        ensures
            final(self)@ == (SwapState {
                settled: old(self)@.settled.insert(txid@),
                ..old(self)@
            }),
    {
        self.tx_hashes.insert(txid);
    }

    /// Copies the engine, so that a failed operation can be undone.
    pub fn snapshot(&self) -> (copy: BambooSwap)
        ensures
            copy@ == self@,
    {
        BambooSwap {
            panda_ids: self.panda_ids.clone(),
            total_supply: self.total_supply,
            instances_count: self.instances_count,
            instances: self.instances.snapshot(),
            tx_hashes: self.tx_hashes.snapshot(),
        }
    }
}

impl Default for BambooSwap {
    /// An engine that recognises no collectible and holds nothing.
    fn default() -> (engine: BambooSwap)
        ensures
            engine@ == SwapState::initial(Seq::empty()),
    {
        BambooSwap::new(Vec::new())
    }
}

} // verus!
