//! What an operation of the engine hands back to its caller.

use crate::asset::AssetTransfer;
use vstd::prelude::*;

verus! {

/// The transfers that leave the engine, and the bytes that answer a query.
#[derive(Clone, Debug, PartialEq, Eq)]
pub struct SwapResponse {
    pub transfers: Vec<AssetTransfer>,
    pub data: Vec<u8>,
}

impl SwapResponse {
    /// A response that sends the incoming transfers back unchanged and
    /// carries no data.
    pub fn forward(incoming: &Vec<AssetTransfer>) -> (response: SwapResponse)
        ensures
            response.transfers@ == incoming@,
            response.data@ == Seq::<u8>::empty(),
    {
        let mut transfers: Vec<AssetTransfer> = Vec::new();
        let mut i: usize = 0;
        while i < incoming.len()
            invariant
                i <= incoming.len(),
                transfers@ == incoming@.subrange(0, i as int),
            decreases incoming.len() - i,
        {
            transfers.push(incoming[i]);
            i += 1;
        }
        assert(transfers@ =~= incoming@);
        SwapResponse { transfers, data: Vec::new() }
    }
}

} // verus!
