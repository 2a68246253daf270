//! Asset identifiers, transfers, and the 32-byte record of an identifier.

use vstd::bytes::{
    lemma_auto_spec_u128_to_from_le_bytes, spec_u128_from_le_bytes, spec_u128_to_le_bytes,
    u128_from_le_bytes, u128_to_le_bytes,
};
use vstd::prelude::*;
use vstd::slice::slice_subrange;

verus! {

/// The length in bytes of the record of one identifier.
pub const RECORD_LEN: usize = 32;

/// Names one collectible, or the credit token itself.
#[derive(Clone, Copy, Debug, PartialEq, Eq, Structural)]
pub struct AssetId {
    pub collection: u128,
    pub serial: u128,
}

/// An amount of one asset that moves into or out of the engine.
#[derive(Clone, Copy, Debug, PartialEq, Eq, Structural)]
pub struct AssetTransfer {
    pub id: AssetId,
    pub amount: u128,
}

/// The record of an identifier: the collection in 16 little-endian bytes,
/// then the serial in 16 little-endian bytes.
pub open spec fn spec_record(id: AssetId) -> Seq<u8> {
    spec_u128_to_le_bytes(id.collection) + spec_u128_to_le_bytes(id.serial)
}

/// The identifier that a 32-byte record stands for.
pub open spec fn spec_parse(record: Seq<u8>) -> AssetId {
    AssetId {
        collection: spec_u128_from_le_bytes(record.subrange(0, 16)),
        serial: spec_u128_from_le_bytes(record.subrange(16, 32)),
    }
}

/// A record is 32 bytes long and reads back as the identifier it was made
/// from.
pub proof fn lemma_record_parses(id: AssetId)
    ensures
        spec_record(id).len() == RECORD_LEN,
        spec_parse(spec_record(id)) == id,
{
    lemma_auto_spec_u128_to_from_le_bytes();
    let head = spec_u128_to_le_bytes(id.collection);
    let tail = spec_u128_to_le_bytes(id.serial);
    assert(spec_record(id).subrange(0, 16) =~= head);
    assert(spec_record(id).subrange(16, 32) =~= tail);
}

impl AssetId {
    /// Writes the identifier as its 32-byte record.
    pub fn to_record(&self) -> (record: Vec<u8>)
        ensures
            record@ == spec_record(*self),
            record@.len() == RECORD_LEN,
    {
        proof {
            lemma_record_parses(*self);
        }
        let mut record = u128_to_le_bytes(self.collection);
        let mut tail = u128_to_le_bytes(self.serial);
        record.append(&mut tail);
        record
    }

    /// Reads an identifier from a record, which must be 32 bytes long.
    pub fn from_record(record: &Vec<u8>) -> (id: Option<AssetId>)
        ensures
            id == if record@.len() == RECORD_LEN {
                Some(spec_parse(record@))
            } else {
                None
            },
    {
        if record.len() != RECORD_LEN {
            return None;
        }
        let bytes = record.as_slice();
        let collection = u128_from_le_bytes(slice_subrange(bytes, 0, 16));
        let serial = u128_from_le_bytes(slice_subrange(bytes, 16, 32));
        Some(AssetId { collection, serial })
    }
}

} // verus!
