//! What holds of the engine across its operations, proved over the state as
//! mathematics.

use crate::asset::{
    lemma_record_parses, spec_parse, spec_record, AssetId, AssetTransfer, RECORD_LEN,
};
use crate::error::SwapError;
use crate::state::{SwapState, BAMBOO_PER_PANDA};
use crate::swap::{
    forward_transfers, is_panda, leading_pandas, lemma_leading_pandas, spec_change_for,
    spec_pandas_for,
};
use crate::text::{spec_label, spec_labels};
use vstd::bytes::lemma_auto_spec_u128_to_from_le_bytes;
use vstd::prelude::*;

verus! {

/// The identifiers that the transfers of a parcel carry, in order.
pub open spec fn spec_ids(incoming: Seq<AssetTransfer>) -> Seq<AssetId> {
    Seq::new(incoming.len(), |i: int| incoming[i].id)
}

/// A parcel that holds one transfer.
pub open spec fn spec_single(id: AssetId, amount: u128) -> Seq<AssetTransfer> {
    seq![AssetTransfer { id, amount }]
}

/// An identifier reads back from its record, and every sequence of 32 bytes
/// is the record of the identifier it reads as.
pub proof fn law_record_round_trip(id: AssetId, record: Seq<u8>)
    ensures
        spec_record(id).len() == RECORD_LEN,
        spec_parse(spec_record(id)) == id,
        record.len() == RECORD_LEN ==> spec_record(spec_parse(record)) == record,
{
    lemma_record_parses(id);
    if record.len() == RECORD_LEN {
        lemma_auto_spec_u128_to_from_le_bytes();
    }
}

impl SwapState {
    /// The credit in issue is the worth of the collectibles that the
    /// registry counts.
    pub open spec fn backed(self) -> bool {
        self.total_supply == self.count * BAMBOO_PER_PANDA
    }
}

/// Where the credit in issue is the worth of the collectibles counted, it
/// still is after a swap that succeeded; and it is at the start.
pub proof fn law_supply_backs_custody(
    s: SwapState,
    txid: Seq<u8>,
    incoming: Seq<AssetTransfer>,
    myself: AssetId,
)
    requires
        s.backed(),
    ensures
        SwapState::initial(s.panda_ids).backed(),
        s.forward_error(txid, incoming) is None ==> s.forward_state(txid, incoming).backed(),
        s.reverse_error(txid, incoming, myself) is None ==> s.reverse_state(
            txid,
            incoming[0].amount,
        ).backed(),
{
}

/// The initial state is valid, and its registry is in order and empty.
pub proof fn law_initial_state(panda_ids: Seq<u128>)
    ensures
        SwapState::initial(panda_ids).valid(),
        SwapState::initial(panda_ids).intact(),
        SwapState::initial(panda_ids).held() == Seq::<AssetId>::empty(),
{
}

/// Putting a collectible on a registry that is in order leaves it in order,
/// with the collectible last.
pub proof fn law_add_keeps_order(s: SwapState, id: AssetId)
    requires
        s.valid(),
        s.intact(),
    ensures
        s.with_added(id).intact(),
        s.with_added(id).held() == s.held().push(id),
{
    lemma_record_parses(id);
}

/// Taking the top off a registry that is in order and not empty leaves it
/// in order, without its last collectible; and that collectible is the one
/// the top slot holds.
pub proof fn law_pop_keeps_order(s: SwapState)
    requires
        s.valid(),
        s.intact(),
        s.count > 0,
    ensures
        s.slots[s.count].len() == RECORD_LEN,
        s.with_popped().intact(),
        s.with_popped().held() == s.held().drop_last(),
        spec_parse(s.slots[s.count]) == s.held().last(),
{
}

/// A forward swap of a parcel of recognised collectibles, under a
/// transaction that has not settled, succeeds unless a counter would pass
/// 128 bits.  It sends out the fixed rate for each collectible, issues as
/// much, and puts the collectibles on the registry in the order of the
/// parcel.
pub proof fn law_forward_swap(
    s: SwapState,
    txid: Seq<u8>,
    incoming: Seq<AssetTransfer>,
    myself: AssetId,
)
    requires
        s.valid(),
        incoming.len() > 0,
        forall|i: int| 0 <= i < incoming.len() ==> is_panda(s.panda_ids, #[trigger] incoming[i].id),
        !s.settled.contains(txid),
        s.count + incoming.len() <= u128::MAX,
        s.total_supply + incoming.len() * BAMBOO_PER_PANDA <= u128::MAX,
    ensures
        s.forward_error(txid, incoming) is None,
        forward_transfers(incoming, myself).len() == 1,
        forward_transfers(incoming, myself)[0].id == myself,
        forward_transfers(incoming, myself)[0].amount == incoming.len() * BAMBOO_PER_PANDA,
        s.forward_state(txid, incoming).valid(),
        s.forward_state(txid, incoming).total_supply == s.total_supply + incoming.len()
            * BAMBOO_PER_PANDA,
        s.forward_state(txid, incoming).count == s.count + incoming.len(),
        s.forward_state(txid, incoming).held() == s.held() + spec_ids(incoming),
        s.forward_state(txid, incoming).settled == s.settled.insert(txid),
        s.forward_state(txid, incoming).panda_ids == s.panda_ids,
        s.intact() ==> s.forward_state(txid, incoming).intact(),
{
    lemma_leading_pandas(s.panda_ids, incoming, incoming.len());
    let t = s.forward_state(txid, incoming);
    assert forall|slot: nat| s.count < slot <= s.count + incoming.len() implies {
        &&& (#[trigger] t.slots[slot]).len() == RECORD_LEN
        &&& spec_parse(t.slots[slot]) == incoming[slot - s.count - 1].id
    } by {
        lemma_record_parses(incoming[slot - s.count - 1].id);
    }
}

/// A reverse swap of credit that pays for `n` collectibles, on a registry
/// in order that holds at least `n`, under a transaction that has not
/// settled, succeeds unless the credit consumed is more than the supply.
/// It sends out the `n` most recent collectibles, the most recent first, one
/// unit of each; then the credit that does not pay for a whole collectible,
/// if there is any.  It retires the credit consumed and leaves the registry
/// in order, without those `n`.
pub proof fn law_reverse_swap(s: SwapState, txid: Seq<u8>, amount: u128, myself: AssetId)
    requires
        s.valid(),
        s.intact(),
        !s.settled.contains(txid),
        amount >= BAMBOO_PER_PANDA,
        spec_pandas_for(amount) <= s.count,
        spec_pandas_for(amount) * BAMBOO_PER_PANDA <= s.total_supply,
    ensures
        s.reverse_error(txid, spec_single(myself, amount), myself) is None,
        spec_pandas_for(amount) * BAMBOO_PER_PANDA + spec_change_for(amount) == amount,
        spec_change_for(amount) < BAMBOO_PER_PANDA,
        s.reverse_transfers(amount, myself).len() == spec_pandas_for(amount) + (if spec_change_for(
            amount,
        ) > 0 {
            1nat
        } else {
            0nat
        }),
        forall|j: int|
            0 <= j < spec_pandas_for(amount) ==> #[trigger] s.reverse_transfers(amount, myself)[j]
                == (AssetTransfer { id: s.held()[s.count - 1 - j], amount: 1 }),
        spec_change_for(amount) > 0 ==> s.reverse_transfers(amount, myself).last() == (
        AssetTransfer { id: myself, amount: spec_change_for(amount) as u128 }),
        s.reverse_state(txid, amount).valid(),
        s.reverse_state(txid, amount).intact(),
        s.reverse_state(txid, amount).total_supply == s.total_supply - spec_pandas_for(amount)
            * BAMBOO_PER_PANDA,
        s.reverse_state(txid, amount).count == s.count - spec_pandas_for(amount),
        s.reverse_state(txid, amount).held() == s.held().subrange(
            0,
            s.count - spec_pandas_for(amount),
        ),
        s.reverse_state(txid, amount).settled == s.settled.insert(txid),
        s.reverse_state(txid, amount).panda_ids == s.panda_ids,
{
}

/// Depositing one recognised collectible and then redeeming exactly the
/// fixed rate hands that collectible back and restores the supply and the
/// registry.
pub proof fn law_round_trip(
    s: SwapState,
    deposit_txid: Seq<u8>,
    redeem_txid: Seq<u8>,
    collectible: AssetTransfer,
    myself: AssetId,
)
    requires
        s.valid(),
        is_panda(s.panda_ids, collectible.id),
        !s.settled.contains(deposit_txid),
        !s.settled.contains(redeem_txid),
        deposit_txid != redeem_txid,
        s.count + 1 <= u128::MAX,
        s.total_supply + BAMBOO_PER_PANDA <= u128::MAX,
    ensures
        s.forward_error(deposit_txid, seq![collectible]) is None,
        s.forward_state(deposit_txid, seq![collectible]).reverse_error(
            redeem_txid,
            spec_single(myself, BAMBOO_PER_PANDA),
            myself,
        ) is None,
        s.forward_state(deposit_txid, seq![collectible]).reverse_transfers(
            BAMBOO_PER_PANDA,
            myself,
        ) == seq![AssetTransfer { id: collectible.id, amount: 1 }],
        s.forward_state(deposit_txid, seq![collectible]).reverse_state(
            redeem_txid,
            BAMBOO_PER_PANDA,
        ).total_supply == s.total_supply,
        s.forward_state(deposit_txid, seq![collectible]).reverse_state(
            redeem_txid,
            BAMBOO_PER_PANDA,
        ).count == s.count,
        s.forward_state(deposit_txid, seq![collectible]).reverse_state(
            redeem_txid,
            BAMBOO_PER_PANDA,
        ).held() == s.held(),
{
    let incoming = seq![collectible];
    lemma_leading_pandas(s.panda_ids, incoming, 1);
    lemma_record_parses(collectible.id);
    let mid = s.forward_state(deposit_txid, incoming);
    assert(mid.reverse_transfers(BAMBOO_PER_PANDA, myself) =~= seq![
        AssetTransfer { id: collectible.id, amount: 1 },
    ]);
}

/// Once a swap has settled under a transaction, every later swap under the
/// same transaction is refused as a replay, whatever it asks for; and a
/// transaction that has settled stays settled.
pub proof fn law_replay_rejected(
    s: SwapState,
    txid: Seq<u8>,
    first: Seq<AssetTransfer>,
    first_myself: AssetId,
    later: Seq<AssetTransfer>,
    later_myself: AssetId,
)
    ensures
        s.settled.contains(txid) ==> {
            &&& s.forward_error(txid, later) == Some(SwapError::ReplayDetected)
            &&& s.reverse_error(txid, later, later_myself) == Some(SwapError::ReplayDetected)
        },
        s.forward_error(txid, first) is None ==> {
            &&& s.forward_state(txid, first).forward_error(txid, later) == Some(
                SwapError::ReplayDetected,
            )
            &&& s.forward_state(txid, first).reverse_error(txid, later, later_myself) == Some(
                SwapError::ReplayDetected,
            )
        },
        s.reverse_error(txid, first, first_myself) is None ==> {
            &&& s.reverse_state(txid, first[0].amount).forward_error(txid, later) == Some(
                SwapError::ReplayDetected,
            )
            &&& s.reverse_state(txid, first[0].amount).reverse_error(txid, later, later_myself)
                == Some(SwapError::ReplayDetected)
        },
        forall|other: Seq<u8>| #[trigger]
            s.settled.contains(other) ==> s.forward_state(txid, first).settled.contains(other)
                && s.reverse_state(txid, first[0].amount).settled.contains(other),
{
}

/// On a registry in order no slot up to the count is without its record:
/// the listings do not fail, and they list one label for each collectible
/// counted, in the order of the slots.
pub proof fn law_order_is_listed(s: SwapState)
    requires
        s.intact(),
    ensures
        !s.stack_corrupt(),
        spec_labels(s.held()).len() == s.count,
        forall|i: int|
            0 <= i < s.count ==> #[trigger] spec_labels(s.held())[i] == spec_label(
                spec_parse(s.slots[(i + 1) as nat]),
            ),
{
}

/// A forward swap looks at no slot of the registry and writes only the
/// slots above the count that it fills.  A reverse swap looks at no slot
/// but those it empties, and writes no other.
pub proof fn law_slots_touched(
    s: SwapState,
    other: SwapState,
    txid: Seq<u8>,
    incoming: Seq<AssetTransfer>,
    myself: AssetId,
)
    requires
        other == (SwapState { slots: other.slots, ..s }),
    ensures
        s.forward_error(txid, incoming) == other.forward_error(txid, incoming),
        forall|slot: nat|
            !(s.count < slot <= s.count + incoming.len()) ==> #[trigger] s.forward_state(
                txid,
                incoming,
            ).slots[slot] == s.slots[slot],
        (forall|slot: nat|
            s.count - spec_pandas_for(incoming[0].amount) < slot <= s.count
                ==> #[trigger] s.slots[slot] == other.slots[slot]) ==> {
            &&& s.reverse_error(txid, incoming, myself) == other.reverse_error(
                txid,
                incoming,
                myself,
            )
            &&& s.reverse_error(txid, incoming, myself) is None ==> s.reverse_transfers(
                incoming[0].amount,
                myself,
            ) == other.reverse_transfers(incoming[0].amount, myself)
        },
        forall|slot: nat|
            !(s.count - spec_pandas_for(incoming[0].amount) < slot <= s.count)
                ==> #[trigger] s.reverse_state(txid, incoming[0].amount).slots[slot]
                == s.slots[slot],
{
    let n = spec_pandas_for(incoming[0].amount);
    if forall|slot: nat|
        s.count - n < slot <= s.count ==> #[trigger] s.slots[slot] == other.slots[slot] {
        if s.top_corrupt(n) {
            let slot = choose|slot: nat|
                s.count - n < slot <= s.count && (#[trigger] s.slots[slot]).len() != RECORD_LEN;
            assert(other.slots[slot] == s.slots[slot]);
        }
        if other.top_corrupt(n) {
            let slot = choose|slot: nat|
                other.count - n < slot <= other.count && (#[trigger] other.slots[slot]).len()
                    != RECORD_LEN;
            assert(other.slots[slot] == s.slots[slot]);
        }
        if s.reverse_error(txid, incoming, myself) is None {
            assert(s.withdrawn(n) =~= other.withdrawn(n));
        }
    }
}

/// A forward swap whose parcel holds anything but recognised collectibles
/// is refused.  Where the transaction has not settled and the registry has
/// room for the parcel, the reason is the first transfer that is not
/// recognised.
pub proof fn law_invalid_batch_refused(
    s: SwapState,
    txid: Seq<u8>,
    incoming: Seq<AssetTransfer>,
    bad: int,
)
    requires
        s.valid(),
        0 <= bad < incoming.len(),
        !is_panda(s.panda_ids, incoming[bad].id),
    ensures
        s.forward_error(txid, incoming) is Some,
        !s.settled.contains(txid) && s.count + incoming.len() <= u128::MAX && incoming.len()
            * BAMBOO_PER_PANDA <= u128::MAX ==> s.forward_error(txid, incoming) == Some(
            SwapError::InvalidAssetId,
        ),
{
    lemma_leading_pandas(s.panda_ids, incoming, 0);
    lemma_leading_at_most(s.panda_ids, incoming, bad);
}

/// The collectibles that lead a parcel stop at the first transfer that is
/// not recognised.
pub proof fn lemma_leading_at_most(panda_ids: Seq<u128>, incoming: Seq<AssetTransfer>, bad: int)
    requires
        0 <= bad < incoming.len(),
        !is_panda(panda_ids, incoming[bad].id),
    ensures
        leading_pandas(panda_ids, incoming) <= bad,
    decreases incoming.len(),
{
    if bad > 0 && is_panda(panda_ids, incoming[0].id) {
        let rest = incoming.drop_first();
        lemma_leading_at_most(panda_ids, rest, bad - 1);
    }
}

/// A reverse swap that asks for more collectibles than the registry holds
/// is refused for want of inventory, where nothing else is wrong with it.
pub proof fn law_insufficient_inventory(
    s: SwapState,
    txid: Seq<u8>,
    amount: u128,
    myself: AssetId,
)
    requires
        !s.settled.contains(txid),
        amount >= BAMBOO_PER_PANDA,
        spec_pandas_for(amount) > s.count,
    ensures
        s.reverse_error(txid, spec_single(myself, amount), myself) == Some(
            SwapError::InsufficientInventory,
        ),
{
}

} // verus!
