//! The set of transaction identifiers that have settled.

use vstd::prelude::*;

verus! {

/// Tells whether two identifiers hold the same bytes.
fn same_txid(a: &[u8; 32], b: &[u8; 32]) -> (same: bool)
    ensures
        same == (a@ == b@),
{
    let mut i: usize = 0;
    while i < 32
        invariant
            i <= 32,
            forall|j: int| 0 <= j < i ==> a@[j] == b@[j],
        decreases 32 - i,
    {
        if a[i] != b[i] {
            return false;
        }
        i += 1;
    }
    assert(a@ =~= b@);
    true
}

/// A set of transaction identifiers.  Identifiers are added and never taken
/// out.
pub struct TxidSet {
    seen: Vec<[u8; 32]>,
}

impl View for TxidSet {
    type V = Set<Seq<u8>>;

    closed spec fn view(&self) -> Set<Seq<u8>> {
        Set::new(|txid: Seq<u8>| exists|i: int| 0 <= i < self.seen@.len() && self.seen@[i]@ == txid)
    }
}

impl TxidSet {
    /// Makes the empty set.
    pub fn new() -> (set: TxidSet)
        ensures
            set@ == Set::<Seq<u8>>::empty(),
    {
        TxidSet { seen: Vec::new() }
    }

    /// Tells whether the identifier is in the set.
    pub fn contains(&self, txid: &[u8; 32]) -> (found: bool)
        ensures
            found == self@.contains(txid@),
    {
        let mut i: usize = 0;
        while i < self.seen.len()
            invariant
                i <= self.seen.len(),
                forall|j: int| 0 <= j < i ==> self.seen@[j]@ != txid@,
            decreases self.seen.len() - i,
        {
            if same_txid(&self.seen[i], txid) {
                return true;
            }
            i += 1;
        }
        false
    }

    /// Adds the identifier to the set.  Adding it again changes nothing.
    pub fn insert(&mut self, txid: &[u8; 32])
        ensures
            final(self)@ == old(self)@.insert(txid@),
    {
        if !self.contains(txid) {
            self.seen.push(*txid);
            assert(self.seen@[self.seen@.len() - 1]@ == txid@);
            assert forall|other: Seq<u8>| self@.contains(other) == old(self)@.insert(
                txid@,
            ).contains(other) by {
                if old(self)@.contains(other) {
                    let i = choose|i: int|
                        0 <= i < old(self).seen@.len() && old(self).seen@[i]@ == other;
                    assert(self.seen@[i]@ == other);
                }
            }
        }
    }

    /// Copies the set.
    pub fn snapshot(&self) -> (copy: TxidSet)
        ensures
            copy@ == self@,
    {
        let mut seen: Vec<[u8; 32]> = Vec::new();
        let mut i: usize = 0;
        while i < self.seen.len()
            invariant
                i <= self.seen.len(),
                seen@ == self.seen@.subrange(0, i as int),
            decreases self.seen.len() - i,
        {
            seen.push(self.seen[i]);
            i += 1;
        }
        assert(seen@ =~= self.seen@);
        TxidSet { seen }
    }
}

} // verus!
