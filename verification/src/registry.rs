//! The inventory registry: the collectibles in custody, last in, first out.
//!
//! The registry is a count and a table of slots.  Slot `n` holds the record
//! of the `n`-th collectible that came in and has not left; slots are
//! numbered from 1.

use crate::asset::{spec_parse, spec_record, AssetId, RECORD_LEN};
use crate::error::SwapError;
use crate::state::{BambooSwap, SwapState};
use vstd::prelude::*;

verus! {

impl SwapState {
    /// The registry is in order: every slot up to the count holds a record
    /// of 32 bytes, and every slot above the count is empty.
    pub open spec fn intact(self) -> bool {
        &&& forall|slot: nat|
            1 <= slot <= self.count ==> (#[trigger] self.slots[slot]).len() == RECORD_LEN
        &&& forall|slot: nat| slot > self.count ==> (#[trigger] self.slots[slot]).len() == 0
    }

    /// The collectibles in custody, the earliest first.
    pub open spec fn held(self) -> Seq<AssetId> {
        Seq::new(self.count, |i: int| spec_parse(self.slots[(i + 1) as nat]))
    }

    /// The state after a collectible has been put on top of the registry.
    pub open spec fn with_added(self, id: AssetId) -> SwapState {
        SwapState {
            count: (self.count + 1) as nat,
            slots: self.slots.insert((self.count + 1) as nat, spec_record(id)),
            ..self
        }
    }

    /// The state after the top of the registry has been taken off.
    pub open spec fn with_popped(self) -> SwapState {
        SwapState {
            count: (self.count - 1) as nat,
            slots: self.slots.insert(self.count, Seq::empty()),
            ..self
        }
    }
}

impl BambooSwap {
    /// Puts a collectible on top of the registry and returns the new count.
    /// Fails, and changes nothing, where the count is at the largest 128-bit
    /// value.
    pub fn add_instance(&mut self, instance_id: &AssetId) -> (added: Result<u128, SwapError>)
        ensures
            old(self)@.count >= u128::MAX ==> added == Err::<u128, SwapError>(
                SwapError::ArithmeticOverflow,
            ) && final(self)@ == old(self)@,
            old(self)@.count < u128::MAX ==> added == Ok::<u128, SwapError>(
                (old(self)@.count + 1) as u128,
            ) && final(self)@ == old(self)@.with_added(*instance_id),
    {
        let count = self.instances_count();
        let new_count = match count.checked_add(1) {
            Some(new_count) => new_count,
            None => {
                return Err(SwapError::ArithmeticOverflow);
            },
        };
        self.set_instance_record(new_count, instance_id.to_record());
        self.set_instances_count(new_count);
        Ok(new_count)
    }

    /// Takes the most recent collectible off the registry and returns it.
    /// Fails, and changes nothing, where the registry is empty or the top
    /// slot does not hold a 32-byte record.
    pub fn pop_instance(&mut self) -> (popped: Result<AssetId, SwapError>)
        ensures
            old(self)@.count == 0 ==> popped == Err::<AssetId, SwapError>(
                SwapError::ArithmeticUnderflow,
            ) && final(self)@ == old(self)@,
            old(self)@.count > 0 && old(self)@.slots[old(self)@.count].len() != RECORD_LEN
                ==> popped == Err::<AssetId, SwapError>(SwapError::CorruptState) && final(self)@
                == old(self)@,
            old(self)@.count > 0 && old(self)@.slots[old(self)@.count].len() == RECORD_LEN
                ==> popped == Ok::<AssetId, SwapError>(
                spec_parse(old(self)@.slots[old(self)@.count]),
            ) && final(self)@ == old(self)@.with_popped(),
    {
        let count = self.instances_count();
        let new_count = match count.checked_sub(1) {
            Some(new_count) => new_count,
            None => {
                return Err(SwapError::ArithmeticUnderflow);
            },
        };
        let instance_id = self.lookup_instance(new_count)?;
        self.set_instance_record(count, Vec::new());
        self.set_instances_count(new_count);
        Ok(instance_id)
    }

    /// Reads the collectible at a position of the registry, counted from 0
    /// at the earliest.  Position `index` is slot `index + 1`.  Fails where
    /// that slot does not hold a 32-byte record.
    pub fn lookup_instance(&self, index: u128) -> (found: Result<AssetId, SwapError>)
        ensures
            found == if self@.slots[(index + 1) as nat].len() == RECORD_LEN {
                Ok::<AssetId, SwapError>(spec_parse(self@.slots[(index + 1) as nat]))
            } else {
                Err::<AssetId, SwapError>(SwapError::CorruptState)
            },
    {
        proof {
            self.lemma_valid();
        }
        let slot = match index.checked_add(1) {
            Some(slot) => slot,
            None => {
                return Err(SwapError::CorruptState);
            },
        };
        match AssetId::from_record(&self.instance_record(slot)) {
            Some(instance_id) => Ok(instance_id),
            None => Err(SwapError::CorruptState),
        }
    }
}

} // verus!
