//! A settlement engine that exchanges collectibles for a fungible credit
//! token at a fixed rate, and back again.
//!
//! The engine keeps three pieces of state: the total supply of credit tokens,
//! a last-in-first-out registry of the collectibles held in custody, and the
//! set of transactions that have already settled.  Every operation either
//! succeeds and commits all of its changes, or fails and leaves the state as
//! it found it.

pub mod asset;
pub mod error;
pub mod laws;
pub mod ledger;
pub mod listing;
pub mod registry;
pub mod response;
pub mod slots;
pub mod state;
pub mod swap;
pub mod text;
pub mod txid;
pub mod txset;

pub use asset::{AssetId, AssetTransfer};
pub use error::SwapError;
pub use response::SwapResponse;
pub use state::{BambooSwap, BAMBOO_CAP, BAMBOO_PER_PANDA, PANDA_BLOCK, PANDA_SUPPLY};
