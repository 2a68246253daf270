//! A sparse table of byte records, addressed by a 128-bit slot number.
//!
//! A slot that was never written reads as the empty record, and writing the
//! empty record to a slot clears it.

use vstd::prelude::*;

verus! {

/// One written slot.
struct Slot {
    index: u128,
    record: Vec<u8>,
}

/// The record of the first entry written for `index`, or the empty record.
spec fn find(entries: Seq<Slot>, index: u128) -> Seq<u8>
    decreases entries.len(),
{
    if entries.len() == 0 {
        Seq::empty()
    } else if entries[0].index == index {
        entries[0].record@
    } else {
        find(entries.drop_first(), index)
    }
}

/// The position of the first entry written for `index`, or the number of
/// entries where there is none.
spec fn position(entries: Seq<Slot>, index: u128) -> nat
    decreases entries.len(),
{
    if entries.len() == 0 || entries[0].index == index {
        0
    } else {
        1 + position(entries.drop_first(), index)
    }
}

proof fn lemma_position(entries: Seq<Slot>, index: u128)
    ensures
        position(entries, index) <= entries.len(),
        forall|j: int| 0 <= j < position(entries, index) ==> entries[j].index != index,
        position(entries, index) < entries.len() ==> {
            &&& entries[position(entries, index) as int].index == index
            &&& find(entries, index) == entries[position(entries, index) as int].record@
        },
        position(entries, index) == entries.len() ==> find(entries, index) == Seq::<u8>::empty(),
    decreases entries.len(),
{
    if entries.len() != 0 && entries[0].index != index {
        let rest = entries.drop_first();
        lemma_position(rest, index);
        assert forall|j: int| 0 <= j < position(entries, index) implies entries[j].index
            != index by {
            if j > 0 {
                assert(entries[j] == rest[j - 1]);
            }
        }
    }
}

/// The position of the first entry for `index` is fixed by the entries
/// before it and the entry itself.
proof fn lemma_position_is(entries: Seq<Slot>, index: u128, at: nat)
    requires
        at <= entries.len(),
        forall|j: int| 0 <= j < at ==> entries[j].index != index,
        at < entries.len() ==> entries[at as int].index == index,
    ensures
        position(entries, index) == at,
    decreases entries.len(),
{
    if at != 0 {
        let rest = entries.drop_first();
        assert forall|j: int| 0 <= j < at - 1 implies rest[j].index != index by {
        }
        lemma_position_is(rest, index, (at - 1) as nat);
    }
}

/// A table that maps every slot number to a record.
pub struct SlotTable {
    entries: Vec<Slot>,
}

/// The table in which every slot is empty.
pub open spec fn empty_slots() -> Map<u128, Seq<u8>> {
    Map::total(|index: u128| Seq::<u8>::empty())
}

impl View for SlotTable {
    type V = Map<u128, Seq<u8>>;

    closed spec fn view(&self) -> Map<u128, Seq<u8>> {
        Map::total(|index: u128| find(self.entries@, index))
    }
}

impl SlotTable {
    /// Makes a table with every slot empty.
    pub fn new() -> (table: SlotTable)
        ensures
            table@ == empty_slots(),
    {
        SlotTable { entries: Vec::new() }
    }

    /// Finds the first entry written for `index`.
    fn locate(&self, index: u128) -> (at: usize)
        ensures
            at == position(self.entries@, index),
    {
        let mut at: usize = 0;
        while at < self.entries.len() && self.entries[at].index != index
            invariant
                at <= self.entries.len(),
                forall|j: int| 0 <= j < at ==> self.entries@[j].index != index,
            decreases self.entries.len() - at,
        {
            at += 1;
        }
        proof {
            lemma_position_is(self.entries@, index, at as nat);
        }
        at
    }

    /// Reads the record of a slot.
    pub fn get(&self, index: u128) -> (record: Vec<u8>)
        ensures
            record@ == self@[index],
    {
        let at = self.locate(index);
        proof {
            lemma_position(self.entries@, index);
        }
        if at < self.entries.len() {
            self.entries[at].record.clone()
        } else {
            Vec::new()
        }
    }

    /// Writes the record of a slot, and leaves every other slot as it was.
    pub fn set(&mut self, index: u128, record: Vec<u8>)
        ensures
            final(self)@ == old(self)@.insert(index, record@),
    {
        let at = self.locate(index);
        let ghost before = self.entries@;
        if at < self.entries.len() {
            self.entries.set(at, Slot { index, record });
        } else {
            self.entries.push(Slot { index, record });
        }
        proof {
            let after = self.entries@;
            lemma_position(before, index);
            assert forall|other: u128| find(after, other) == (if other == index {
                record@
            } else {
                find(before, other)
            }) by {
                lemma_position(before, other);
                let was = position(before, other);
                if other == index {
                    lemma_position_is(after, other, at as nat);
                } else if was < before.len() {
                    lemma_position_is(after, other, was);
                } else {
                    lemma_position_is(after, other, after.len());
                }
                lemma_position(after, other);
            }
        }
    }

    /// Copies the table.
    pub fn snapshot(&self) -> (copy: SlotTable)
        ensures
            copy@ == self@,
    {
        let mut entries: Vec<Slot> = Vec::new();
        let mut i: usize = 0;
        while i < self.entries.len()
            invariant
                i <= self.entries.len(),
                entries@.len() == i,
                forall|j: int|
                    0 <= j < i ==> entries@[j].index == self.entries@[j].index
                        && entries@[j].record@ == self.entries@[j].record@,
            decreases self.entries.len() - i,
        {
            let slot = &self.entries[i];
            entries.push(Slot { index: slot.index, record: slot.record.clone() });
            i += 1;
        }
        let copy = SlotTable { entries };
        proof {
            assert forall|index: u128| find(copy.entries@, index) == find(
                self.entries@,
                index,
            ) by {
                lemma_position(self.entries@, index);
                lemma_position_is(copy.entries@, index, position(self.entries@, index));
                lemma_position(copy.entries@, index);
            }
        }
        copy
    }
}

} // verus!
