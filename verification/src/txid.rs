//! The identifier of the transaction that asks for a swap.

use crate::state::BambooSwap;
use vstd::prelude::*;

verus! {

/// A decoded transaction, carried through as it is.
#[verifier::external_type_specification]
#[verifier::external_body]
pub struct ExTransaction(bitcoin::Transaction);

/// The 32 bytes that identify a transaction: the double SHA-256 of its
/// encoding without witness data, as `bitcoin` computes it.
pub uninterp spec fn spec_txid(transaction: bitcoin::Transaction) -> Seq<u8>;

/// Calls `bitcoin::Transaction::compute_txid` and takes the bytes of the
/// hash as they are stored.  The result depends on the transaction alone.
#[verifier::external_body]
fn compute_txid(transaction: &bitcoin::Transaction) -> (txid: [u8; 32])
    ensures
        txid@ == spec_txid(*transaction),
{
    bitcoin::hashes::Hash::to_byte_array(transaction.compute_txid())
}

impl BambooSwap {
    /// The identifier under which a transaction settles.
    pub fn transaction_id(transaction: &bitcoin::Transaction) -> (txid: [u8; 32])
        ensures
            txid@ == spec_txid(*transaction),
    {
        compute_txid(transaction)
    }
}

} // verus!
