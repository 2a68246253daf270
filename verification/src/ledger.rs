//! The supply ledger: the credit tokens in issue, changed only by checked
//! arithmetic.

use crate::error::SwapError;
use crate::state::{BambooSwap, SwapState};
use vstd::prelude::*;

verus! {

impl BambooSwap {
    /// Issues `v` credit tokens.  Fails, and changes nothing, where the
    /// supply would pass the largest 128-bit value.  The declared cap is not
    /// consulted.
    pub fn increase_total_supply(&mut self, v: u128) -> (done: Result<(), SwapError>)
        ensures
            old(self)@.total_supply + v > u128::MAX ==> done == Err::<(), SwapError>(
                SwapError::ArithmeticOverflow,
            ) && final(self)@ == old(self)@,
            old(self)@.total_supply + v <= u128::MAX ==> done.is_ok() && final(self)@ == (
            SwapState { total_supply: (old(self)@.total_supply + v) as nat, ..old(self)@ }),
    {
        match self.total_supply().checked_add(v) {
            Some(supply) => {
                self.set_total_supply(supply);
                Ok(())
            },
            None => Err(SwapError::ArithmeticOverflow),
        }
    }

    /// Retires `v` credit tokens.  Fails, and changes nothing, where `v` is
    /// more than the supply.
    pub fn decrease_total_supply(&mut self, v: u128) -> (done: Result<(), SwapError>)
        ensures
            v > old(self)@.total_supply ==> done == Err::<(), SwapError>(
                SwapError::ArithmeticUnderflow,
            ) && final(self)@ == old(self)@,
            v <= old(self)@.total_supply ==> done.is_ok() && final(self)@ == (
            SwapState { total_supply: (old(self)@.total_supply - v) as nat, ..old(self)@ }),
    {
        match self.total_supply().checked_sub(v) {
            Some(supply) => {
                self.set_total_supply(supply);
                Ok(())
            },
            None => Err(SwapError::ArithmeticUnderflow),
        }
    }
}

} // verus!
