//! The ways in which an operation of the engine can fail.

use vstd::prelude::*;
use vstd::string::StringExecFns;

verus! {

/// Why an operation was refused.  Every failure ends the operation, and none
/// leaves a change behind.
#[derive(Clone, Copy, Debug, PartialEq, Eq, Structural)]
pub enum SwapError {
    /// The transaction has already settled a swap.
    ReplayDetected,
    /// A forward swap came without any collectible.
    EmptyInput,
    /// A reverse swap came with no transfer, or with more than one.
    WrongInputShape,
    /// A collectible does not belong to the recognised collection.
    InvalidAssetId,
    /// The transfer of a reverse swap is not in the credit token.
    WrongAssetSupplied,
    /// The credit supplied does not pay for a single collectible.
    InsufficientAmount,
    /// The registry holds fewer collectibles than were asked for.
    InsufficientInventory,
    /// A counter would pass the largest 128-bit value.
    ArithmeticOverflow,
    /// A counter would fall below zero.
    ArithmeticUnderflow,
    /// A slot of the registry does not hold a 32-byte record.
    CorruptState,
    /// The operation is deliberately unavailable.
    NotImplemented,
    /// An encoder handed back a failure in place of the JSON listing.
    EncodingFailed,
}

impl SwapError {
    /// The text that describes the failure to a person.
    pub open spec fn spec_message(self) -> Seq<char> {
        match self {
            SwapError::ReplayDetected => "Transaction already used for swap"@,
            SwapError::EmptyInput => "Must send at least 1 Panda to swap"@,
            SwapError::WrongInputShape => "Must send $BAMBOO to swap"@,
            SwapError::InvalidAssetId => "Invalid Panda ID"@,
            SwapError::WrongAssetSupplied => "Supplied alkane is not $BAMBOO"@,
            SwapError::InsufficientAmount => "Not enough $BAMBOO supplied to swap"@,
            SwapError::InsufficientInventory => "Not enough Pandas available to swap"@,
            SwapError::ArithmeticOverflow => "Arithmetic overflow"@,
            SwapError::ArithmeticUnderflow => "Arithmetic underflow"@,
            SwapError::CorruptState => "Invalid instance data length"@,
            SwapError::NotImplemented => "Minting not implemented"@,
            SwapError::EncodingFailed => "JSON encoding failed"@,
        }
    }

    /// Renders the failure as a message for the caller of the engine.
    pub fn message(&self) -> (text: String)
        ensures
            text@ == self.spec_message(),
    {
        match self {
            SwapError::ReplayDetected => String::from_str("Transaction already used for swap"),
            SwapError::EmptyInput => String::from_str("Must send at least 1 Panda to swap"),
            SwapError::WrongInputShape => String::from_str("Must send $BAMBOO to swap"),
            SwapError::InvalidAssetId => String::from_str("Invalid Panda ID"),
            SwapError::WrongAssetSupplied => String::from_str("Supplied alkane is not $BAMBOO"),
            SwapError::InsufficientAmount => String::from_str(
                "Not enough $BAMBOO supplied to swap",
            ),
            SwapError::InsufficientInventory => String::from_str(
                "Not enough Pandas available to swap",
            ),
            SwapError::ArithmeticOverflow => String::from_str("Arithmetic overflow"),
            SwapError::ArithmeticUnderflow => String::from_str("Arithmetic underflow"),
            SwapError::CorruptState => String::from_str("Invalid instance data length"),
            SwapError::NotImplemented => String::from_str("Minting not implemented"),
            SwapError::EncodingFailed => String::from_str("JSON encoding failed"),
        }
    }
}

} // verus!
