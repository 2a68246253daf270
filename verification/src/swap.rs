//! The two exchanges: collectibles for credit, and credit for collectibles.
//!
//! Each exchange settles at most once per transaction, and either commits
//! all of its changes or none.

use crate::asset::{spec_parse, spec_record, AssetId, AssetTransfer, RECORD_LEN};
use crate::error::SwapError;
use crate::response::SwapResponse;
use crate::state::{BambooSwap, SwapState, BAMBOO_PER_PANDA, PANDA_BLOCK};
use crate::txid::spec_txid;
use vstd::prelude::*;

verus! {

/// Tells whether an identifier names a recognised collectible: it lies in
/// the collection, and its serial is on the list.
pub open spec fn is_panda(panda_ids: Seq<u128>, id: AssetId) -> bool {
    id.collection == PANDA_BLOCK && panda_ids.contains(id.serial)
}

/// The number of transfers at the head of a parcel that carry a recognised
/// collectible.
pub open spec fn leading_pandas(panda_ids: Seq<u128>, incoming: Seq<AssetTransfer>) -> nat
    decreases incoming.len(),
{
    if incoming.len() == 0 || !is_panda(panda_ids, incoming[0].id) {
        0
    } else {
        1 + leading_pandas(panda_ids, incoming.drop_first())
    }
}

/// Where the first `n` transfers carry recognised collectibles, at least `n`
/// lead the parcel; exactly `n` where the next one does not, or there is no
/// next one.
pub proof fn lemma_leading_pandas(panda_ids: Seq<u128>, incoming: Seq<AssetTransfer>, n: nat)
    requires
        n <= incoming.len(),
        forall|j: int| 0 <= j < n ==> is_panda(panda_ids, #[trigger] incoming[j].id),
    ensures
        n <= leading_pandas(panda_ids, incoming) <= incoming.len(),
        n == incoming.len() || !is_panda(panda_ids, incoming[n as int].id) ==> leading_pandas(
            panda_ids,
            incoming,
        ) == n,
    decreases incoming.len(),
{
    let rest = incoming.drop_first();
    if n > 0 {
        assert forall|j: int| 0 <= j < n - 1 implies is_panda(
            panda_ids,
            #[trigger] rest[j].id,
        ) by {
        }
        lemma_leading_pandas(panda_ids, rest, (n - 1) as nat);
        if n < incoming.len() {
        }
    } else if incoming.len() > 0 && is_panda(panda_ids, incoming[0].id) {
        lemma_leading_pandas(panda_ids, rest, 0);
    }
}

/// The number of collectibles that an amount of credit pays for.
pub open spec fn spec_pandas_for(amount: u128) -> nat {
    (amount / BAMBOO_PER_PANDA) as nat
}

/// The credit that is left over once the collectibles are paid for.
pub open spec fn spec_change_for(amount: u128) -> nat {
    (amount % BAMBOO_PER_PANDA) as nat
}

impl SwapState {
    /// Why a forward swap is refused, if it is.  The checks come in this
    /// order: the transaction has settled before; the parcel is empty; the
    /// collectibles that lead the parcel do not all fit in the registry, or
    /// their worth does not fit in 128 bits; a transfer does not carry a
    /// recognised collectible; the supply would pass 128 bits.
    pub open spec fn forward_error(self, txid: Seq<u8>, incoming: Seq<AssetTransfer>) -> Option<
        SwapError,
    > {
        let leading = leading_pandas(self.panda_ids, incoming);
        if self.settled.contains(txid) {
            Some(SwapError::ReplayDetected)
        } else if incoming.len() == 0 {
            Some(SwapError::EmptyInput)
        } else if self.count + leading > u128::MAX || leading * BAMBOO_PER_PANDA > u128::MAX {
            Some(SwapError::ArithmeticOverflow)
        } else if leading < incoming.len() {
            Some(SwapError::InvalidAssetId)
        } else if self.total_supply + incoming.len() * BAMBOO_PER_PANDA > u128::MAX {
            Some(SwapError::ArithmeticOverflow)
        } else {
            None
        }
    }

    /// The state once the first `n` collectibles of a parcel have been put
    /// on the registry, in the order of the parcel.
    pub open spec fn with_deposited(self, incoming: Seq<AssetTransfer>, n: nat) -> SwapState {
        SwapState {
            count: (self.count + n) as nat,
            slots: Map::total(
                |slot: nat|
                    if self.count < slot <= self.count + n {
                        spec_record(incoming[slot - self.count - 1].id)
                    } else {
                        self.slots[slot]
                    },
            ),
            ..self
        }
    }

    /// The state after a forward swap that succeeded: the transaction has
    /// settled, the collectibles are on the registry, and their worth has
    /// been issued.
    pub open spec fn forward_state(self, txid: Seq<u8>, incoming: Seq<AssetTransfer>) -> SwapState {
        SwapState {
            settled: self.settled.insert(txid),
            total_supply: (self.total_supply + incoming.len() * BAMBOO_PER_PANDA) as nat,
            ..self.with_deposited(incoming, incoming.len())
        }
    }

    /// Tells whether one of the top `n` slots of the registry does not hold
    /// a 32-byte record.
    pub open spec fn top_corrupt(self, n: nat) -> bool {
        exists|slot: nat|
            self.count - n < slot <= self.count && (#[trigger] self.slots[slot]).len() != RECORD_LEN
    }

    /// Why a reverse swap is refused, if it is.  The checks come in this
    /// order: the transaction has settled before; the parcel does not hold
    /// exactly one transfer; the transfer is not in the credit token; it
    /// does not pay for one collectible; the registry holds too few; the
    /// credit consumed is more than the supply; a slot to be emptied does
    /// not hold a 32-byte record.
    pub open spec fn reverse_error(
        self,
        txid: Seq<u8>,
        incoming: Seq<AssetTransfer>,
        myself: AssetId,
    ) -> Option<SwapError> {
        if self.settled.contains(txid) {
            Some(SwapError::ReplayDetected)
        } else if incoming.len() != 1 {
            Some(SwapError::WrongInputShape)
        } else if incoming[0].id != myself {
            Some(SwapError::WrongAssetSupplied)
        } else if incoming[0].amount < BAMBOO_PER_PANDA {
            Some(SwapError::InsufficientAmount)
        } else if self.count < spec_pandas_for(incoming[0].amount) {
            Some(SwapError::InsufficientInventory)
        } else if spec_pandas_for(incoming[0].amount) * BAMBOO_PER_PANDA > self.total_supply {
            Some(SwapError::ArithmeticUnderflow)
        } else if self.top_corrupt(spec_pandas_for(incoming[0].amount)) {
            Some(SwapError::CorruptState)
        } else {
            None
        }
    }

    /// The state once the top `n` collectibles have been taken off the
    /// registry.
    pub open spec fn with_withdrawn(self, n: nat) -> SwapState {
        SwapState {
            count: (self.count - n) as nat,
            slots: Map::total(
                |slot: nat|
                    if self.count - n < slot <= self.count {
                        Seq::<u8>::empty()
                    } else {
                        self.slots[slot]
                    },
            ),
            ..self
        }
    }

    /// The state after a reverse swap of `amount` that succeeded: the
    /// transaction has settled, the credit consumed has been retired, and
    /// the collectibles paid for have left the registry.
    pub open spec fn reverse_state(self, txid: Seq<u8>, amount: u128) -> SwapState {
        SwapState {
            settled: self.settled.insert(txid),
            total_supply: (self.total_supply - spec_pandas_for(amount) * BAMBOO_PER_PANDA) as nat,
            ..self.with_withdrawn(spec_pandas_for(amount))
        }
    }

    /// The top `n` collectibles of the registry, the most recent first, one
    /// unit of each.
    pub open spec fn withdrawn(self, n: nat) -> Seq<AssetTransfer> {
        Seq::new(
            n,
            |j: int|
                AssetTransfer { id: spec_parse(self.slots[(self.count - j) as nat]), amount: 1 },
        )
    }

    /// What a reverse swap of `amount` sends out: the collectibles paid for,
    /// the most recent first, then the credit left over, if any.
    pub open spec fn reverse_transfers(self, amount: u128, myself: AssetId) -> Seq<AssetTransfer> {
        if spec_change_for(amount) > 0 {
            self.withdrawn(spec_pandas_for(amount)).push(
                AssetTransfer { id: myself, amount: spec_change_for(amount) as u128 },
            )
        } else {
            self.withdrawn(spec_pandas_for(amount))
        }
    }
}

/// What a forward swap sends out: the worth of the collectibles, in credit.
pub open spec fn forward_transfers(incoming: Seq<AssetTransfer>, myself: AssetId) -> Seq<
    AssetTransfer,
> {
    seq![AssetTransfer { id: myself, amount: (incoming.len() * BAMBOO_PER_PANDA) as u128 }]
}

impl BambooSwap {
    /// Tells whether an identifier names a recognised collectible.
    pub fn is_valid_panda(&self, id: &AssetId) -> (valid: bool)
        ensures
            valid == is_panda(self@.panda_ids, *id),
    {
        if id.collection != PANDA_BLOCK {
            return false;
        }
        let panda_ids = self.panda_ids();
        let mut i: usize = 0;
        while i < panda_ids.len()
            invariant
                i <= panda_ids.len(),
                panda_ids@ == self@.panda_ids,
                id.collection == PANDA_BLOCK,
                forall|j: int| 0 <= j < i ==> panda_ids@[j] != id.serial,
            decreases panda_ids.len() - i,
        {
            if panda_ids[i] == id.serial {
                return true;
            }
            i += 1;
        }
        false
    }

    /// The number of collectibles that an amount of credit pays for.
    pub fn pandas_for(amount: u128) -> (pandas: u128)
        ensures
            pandas == spec_pandas_for(amount),
    {
        amount / BAMBOO_PER_PANDA
    }

    /// Carries out a forward swap on the engine as it stands.  Where it
    /// fails, the engine may be left changed.
    fn deposit(
        &mut self,
        txid: &[u8; 32],
        incoming: &Vec<AssetTransfer>,
        myself: &AssetId,
    ) -> (settled: Result<SwapResponse, SwapError>)
        ensures
            match settled {
                Ok(response) => {
                    &&& old(self)@.forward_error(txid@, incoming@) is None
                    &&& response.transfers@ == forward_transfers(incoming@, *myself)
                    &&& response.data@ == Seq::<u8>::empty()
                    &&& final(self)@ == old(self)@.forward_state(txid@, incoming@)
                },
                Err(error) => old(self)@.forward_error(txid@, incoming@) == Some(error),
            },
    {
        let ghost before = self@;
        proof {
            self.lemma_valid();
        }
        if self.has_tx_hash(txid) {
            return Err(SwapError::ReplayDetected);
        }
        if incoming.len() == 0 {
            return Err(SwapError::EmptyInput);
        }
        self.add_tx_hash(txid);
        let ghost marked = self@;

        let mut total_bamboo: u128 = 0;
        let mut i: usize = 0;
        while i < incoming.len()
            invariant
                i <= incoming.len(),
                forall|j: int|
                    0 <= j < i ==> is_panda(before.panda_ids, #[trigger] incoming@[j].id),
                before.count + i <= u128::MAX,
                total_bamboo == i * BAMBOO_PER_PANDA,
                marked == (SwapState { settled: before.settled.insert(txid@), ..before }),
                self@ == marked.with_deposited(incoming@, i as nat),
                !before.settled.contains(txid@),
                incoming@.len() > 0,
                before.valid(),
                before == old(self)@,
            decreases incoming.len() - i,
        {
            proof {
                lemma_leading_pandas(before.panda_ids, incoming@, i as nat);
            }
            if !self.is_valid_panda(&incoming[i].id) {
                return Err(SwapError::InvalidAssetId);
            }
            proof {
                lemma_leading_pandas(before.panda_ids, incoming@, (i + 1) as nat);
            }
            self.add_instance(&incoming[i].id)?;
            total_bamboo = match total_bamboo.checked_add(BAMBOO_PER_PANDA) {
                Some(sum) => sum,
                None => {
                    return Err(SwapError::ArithmeticOverflow);
                },
            };
            i += 1;
        }
        proof {
            lemma_leading_pandas(before.panda_ids, incoming@, i as nat);
        }
        self.increase_total_supply(total_bamboo)?;

        let mut transfers: Vec<AssetTransfer> = Vec::new();
        transfers.push(AssetTransfer { id: *myself, amount: total_bamboo });
        Ok(SwapResponse { transfers, data: Vec::new() })
    }

    /// The forward swap: takes collectibles in and issues credit for them.
    ///
    /// Every transfer of the parcel must carry a recognised collectible.
    /// The collectibles go on the registry in the order of the parcel, and
    /// one transfer of credit goes out, worth the fixed rate for each.
    /// Where the swap is refused, the engine is left exactly as it was.
    pub fn forward_swap(
        &mut self,
        txid: &[u8; 32],
        incoming: &Vec<AssetTransfer>,
        myself: &AssetId,
    ) -> (settled: Result<SwapResponse, SwapError>)
        ensures
            match settled {
                Ok(response) => {
                    &&& old(self)@.forward_error(txid@, incoming@) is None
                    &&& response.transfers@ == forward_transfers(incoming@, *myself)
                    &&& response.data@ == Seq::<u8>::empty()
                    &&& final(self)@ == old(self)@.forward_state(txid@, incoming@)
                },
                Err(error) => {
                    &&& old(self)@.forward_error(txid@, incoming@) == Some(error)
                    &&& final(self)@ == old(self)@
                },
            },
    {
        let saved = self.snapshot();
        let settled = self.deposit(txid, incoming, myself);
        if settled.is_err() {
            *self = saved;
        }
        settled
    }

    /// Carries out a reverse swap on the engine as it stands.  Where it
    /// fails, the engine may be left changed.
    fn withdraw(
        &mut self,
        txid: &[u8; 32],
        incoming: &Vec<AssetTransfer>,
        myself: &AssetId,
    ) -> (settled: Result<SwapResponse, SwapError>)
        ensures
            match settled {
                Ok(response) => {
                    &&& old(self)@.reverse_error(txid@, incoming@, *myself) is None
                    &&& response.transfers@ == old(self)@.reverse_transfers(
                        incoming@[0].amount,
                        *myself,
                    )
                    &&& response.data@ == Seq::<u8>::empty()
                    &&& final(self)@ == old(self)@.reverse_state(txid@, incoming@[0].amount)
                },
                Err(error) => old(self)@.reverse_error(txid@, incoming@, *myself) == Some(error),
            },
    {
        let ghost before = self@;
        proof {
            self.lemma_valid();
        }
        if self.has_tx_hash(txid) {
            return Err(SwapError::ReplayDetected);
        }
        if incoming.len() != 1 {
            return Err(SwapError::WrongInputShape);
        }
        let transfer = incoming[0];
        if transfer.id != *myself {
            return Err(SwapError::WrongAssetSupplied);
        }
        if transfer.amount < BAMBOO_PER_PANDA {
            return Err(SwapError::InsufficientAmount);
        }
        let panda_count = Self::pandas_for(transfer.amount);
        let bamboo_used = panda_count * BAMBOO_PER_PANDA;
        let bamboo_change = transfer.amount % BAMBOO_PER_PANDA;

        let count = self.instances_count();
        if count < panda_count {
            return Err(SwapError::InsufficientInventory);
        }
        self.add_tx_hash(txid);
        self.decrease_total_supply(bamboo_used)?;
        let ghost paid = self@;

        let mut transfers: Vec<AssetTransfer> = Vec::new();
        let mut taken: u128 = 0;
        while taken < panda_count
            invariant
                taken <= panda_count <= count,
                count == before.count,
                paid == (SwapState {
                    settled: before.settled.insert(txid@),
                    total_supply: (before.total_supply - bamboo_used) as nat,
                    ..before
                }),
                self@ == paid.with_withdrawn(taken as nat),
                !before.top_corrupt(taken as nat),
                transfers@ == before.withdrawn(taken as nat),
                incoming@.len() == 1,
                incoming@[0].id == *myself,
                incoming@[0].amount >= BAMBOO_PER_PANDA,
                bamboo_used == panda_count * BAMBOO_PER_PANDA,
                bamboo_used <= before.total_supply,
                !before.settled.contains(txid@),
                panda_count == spec_pandas_for(incoming@[0].amount),
                before.valid(),
                before == old(self)@,
            decreases panda_count - taken,
        {
            transfers.push(AssetTransfer { id: self.pop_instance()?, amount: 1u128 });
            taken += 1;
        }
        if bamboo_change > 0 {
            transfers.push(AssetTransfer { id: *myself, amount: bamboo_change });
        }
        Ok(SwapResponse { transfers, data: Vec::new() })
    }

    /// The reverse swap: takes credit in and hands collectibles back.
    ///
    /// The parcel must hold one transfer, in the credit token, that pays for
    /// at least one collectible.  The collectibles leave the registry, the
    /// most recent first, one transfer each; credit that does not pay for a
    /// whole collectible goes back as a last transfer.  Where the swap is
    /// refused, the engine is left exactly as it was.
    pub fn reverse_swap(
        &mut self,
        txid: &[u8; 32],
        incoming: &Vec<AssetTransfer>,
        myself: &AssetId,
    ) -> (settled: Result<SwapResponse, SwapError>)
        ensures
            match settled {
                Ok(response) => {
                    &&& old(self)@.reverse_error(txid@, incoming@, *myself) is None
                    &&& response.transfers@ == old(self)@.reverse_transfers(
                        incoming@[0].amount,
                        *myself,
                    )
                    &&& response.data@ == Seq::<u8>::empty()
                    &&& final(self)@ == old(self)@.reverse_state(txid@, incoming@[0].amount)
                },
                Err(error) => {
                    &&& old(self)@.reverse_error(txid@, incoming@, *myself) == Some(error)
                    &&& final(self)@ == old(self)@
                },
            },
    {
        let saved = self.snapshot();
        let settled = self.withdraw(txid, incoming, myself);
        if settled.is_err() {
            *self = saved;
        }
        settled
    }

    /// The forward swap, asked for by a transaction: takes collectibles in
    /// and issues credit for them.  It settles under the identifier of the
    /// transaction, as `forward_swap` does under a given identifier.
    pub fn panda_to_bamboo(
        &mut self,
        transaction: &bitcoin::Transaction,
        incoming: &Vec<AssetTransfer>,
        myself: &AssetId,
    ) -> (settled: Result<SwapResponse, SwapError>)
        ensures
            match settled {
                Ok(response) => {
                    &&& old(self)@.forward_error(spec_txid(*transaction), incoming@) is None
                    &&& response.transfers@ == forward_transfers(incoming@, *myself)
                    &&& response.data@ == Seq::<u8>::empty()
                    &&& final(self)@ == old(self)@.forward_state(
                        spec_txid(*transaction),
                        incoming@,
                    )
                },
                Err(error) => {
                    &&& old(self)@.forward_error(spec_txid(*transaction), incoming@) == Some(
                        error,
                    )
                    &&& final(self)@ == old(self)@
                },
            },
    {
        let txid = Self::transaction_id(transaction);
        self.forward_swap(&txid, incoming, myself)
    }

    /// The reverse swap, asked for by a transaction: takes credit in and
    /// hands collectibles back.  It settles under the identifier of the
    /// transaction, as `reverse_swap` does under a given identifier.
    pub fn bamboo_to_panda(
        &mut self,
        transaction: &bitcoin::Transaction,
        incoming: &Vec<AssetTransfer>,
        myself: &AssetId,
    ) -> (settled: Result<SwapResponse, SwapError>)
        ensures
            match settled {
                Ok(response) => {
                    &&& old(self)@.reverse_error(spec_txid(*transaction), incoming@, *myself)
                        is None
                    &&& response.transfers@ == old(self)@.reverse_transfers(
                        incoming@[0].amount,
                        *myself,
                    )
                    &&& response.data@ == Seq::<u8>::empty()
                    &&& final(self)@ == old(self)@.reverse_state(
                        spec_txid(*transaction),
                        incoming@[0].amount,
                    )
                },
                Err(error) => {
                    &&& old(self)@.reverse_error(spec_txid(*transaction), incoming@, *myself)
                        == Some(error)
                    &&& final(self)@ == old(self)@
                },
            },
    {
        let txid = Self::transaction_id(transaction);
        self.reverse_swap(&txid, incoming, myself)
    }
    /// Minting is not offered: the call always fails, and changes nothing.
    pub fn mint_tokens(&self) -> (minted: Result<SwapResponse, SwapError>)
        ensures
            minted matches Err(error) && error == SwapError::NotImplemented,
    {
        Err(SwapError::NotImplemented)
    }
}

} // verus!
