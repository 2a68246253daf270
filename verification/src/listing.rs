//! The read-only views of the engine: its name and numbers, and the list of
//! the collectibles in custody as bytes and as JSON.

use crate::asset::{spec_record, AssetId, AssetTransfer, RECORD_LEN};
use crate::error::SwapError;
use crate::response::SwapResponse;
use crate::state::{BambooSwap, SwapState, BAMBOO_CAP, BAMBOO_PER_PANDA};
use crate::text::{
    instance_label, lemma_label_plain, spec_all_plain, spec_json_array, spec_label, spec_labels,
};
use vstd::bytes::{spec_u128_to_le_bytes, u128_to_le_bytes};
use vstd::prelude::*;
use vstd::string::{StrSliceExecFns, StringExecFns};
use vstd::utf8::encode_utf8;

verus! {

/// The error of the JSON encoder, carried through as it is.
#[verifier::external_type_specification]
#[verifier::external_body]
pub struct ExJsonError(serde_json::Error);

/// The texts that a list of strings holds.
pub open spec fn spec_texts(strings: Seq<String>) -> Seq<Seq<char>> {
    Seq::new(strings.len(), |i: int| strings[i]@)
}

/// Calls `serde_json::to_string` on a list of strings.  The call succeeds:
/// the encoder writes into a byte vector, and on a list of strings it can
/// fail only where the writer does.  The result is the compact JSON array
/// of the strings: an opening bracket, each string between double quotes,
/// commas between them, and a closing bracket.  The strings must hold no
/// character that JSON escapes.
#[verifier::external_body]
fn json_array(texts: &Vec<String>) -> (encoded: Result<String, serde_json::Error>)
    requires
        forall|i: int| 0 <= i < texts@.len() ==> spec_all_plain(#[trigger] texts@[i]@),
    ensures
        encoded is Ok,
        encoded matches Ok(text) ==> text@ == spec_json_array(spec_texts(texts@)),
{
    serde_json::to_string(texts)
}

/// The records of a list of identifiers, one after the other.
pub open spec fn spec_concat_records(ids: Seq<AssetId>) -> Seq<u8>
    decreases ids.len(),
{
    if ids.len() == 0 {
        Seq::empty()
    } else {
        spec_concat_records(ids.drop_last()) + spec_record(ids.last())
    }
}

impl SwapState {
    /// Tells whether a slot up to the count does not hold a 32-byte record.
    pub open spec fn stack_corrupt(self) -> bool {
        self.top_corrupt(self.count)
    }
}

impl BambooSwap {
    /// The name of the credit token.
    pub fn name(&self) -> (name: String)
        ensures
            name@ == "BAMBOO"@,
    {
        String::from_str("BAMBOO")
    }

    /// The symbol of the credit token.
    pub fn symbol(&self) -> (symbol: String)
        ensures
            symbol@ == "BAMBOO"@,
    {
        String::from_str("BAMBOO")
    }

    /// Answers the first call: sends the incoming transfers back.
    pub fn initialize(&self, incoming: &Vec<AssetTransfer>) -> (response: SwapResponse)
        ensures
            response.transfers@ == incoming@,
            response.data@ == Seq::<u8>::empty(),
    {
        SwapResponse::forward(incoming)
    }

    /// Answers with the name of the credit token, in UTF-8.
    pub fn get_name(&self, incoming: &Vec<AssetTransfer>) -> (response: SwapResponse)
        ensures
            response.transfers@ == incoming@,
            response.data@ == encode_utf8("BAMBOO"@),
    {
        let mut response = SwapResponse::forward(incoming);
        response.data = self.name().as_str().as_bytes_vec();
        response
    }

    /// Answers with the symbol of the credit token, in UTF-8.
    pub fn get_symbol(&self, incoming: &Vec<AssetTransfer>) -> (response: SwapResponse)
        ensures
            response.transfers@ == incoming@,
            response.data@ == encode_utf8("BAMBOO"@),
    {
        let mut response = SwapResponse::forward(incoming);
        response.data = self.symbol().as_str().as_bytes_vec();
        response
    }

    /// Answers with the credit tokens in issue, in 16 little-endian bytes.
    pub fn get_total_supply(&self, incoming: &Vec<AssetTransfer>) -> (response: SwapResponse)
        ensures
            response.transfers@ == incoming@,
            response.data@ == spec_u128_to_le_bytes(self@.total_supply as u128),
    {
        let mut response = SwapResponse::forward(incoming);
        response.data = u128_to_le_bytes(self.total_supply());
        response
    }

    /// Answers with the declared cap, in 16 little-endian bytes.
    pub fn get_cap(&self, incoming: &Vec<AssetTransfer>) -> (response: SwapResponse)
        ensures
            response.transfers@ == incoming@,
            response.data@ == spec_u128_to_le_bytes(BAMBOO_CAP),
    {
        let mut response = SwapResponse::forward(incoming);
        response.data = u128_to_le_bytes(BAMBOO_CAP);
        response
    }

    /// Answers with the number of collectibles held, in 16 little-endian
    /// bytes.
    pub fn get_minted(&self, incoming: &Vec<AssetTransfer>) -> (response: SwapResponse)
        ensures
            response.transfers@ == incoming@,
            response.data@ == spec_u128_to_le_bytes(self@.count as u128),
    {
        let mut response = SwapResponse::forward(incoming);
        response.data = u128_to_le_bytes(self.instances_count());
        response
    }

    /// Answers with the worth of one collectible, in 16 little-endian bytes.
    pub fn get_value_per_mint(&self, incoming: &Vec<AssetTransfer>) -> (response: SwapResponse)
        ensures
            response.transfers@ == incoming@,
            response.data@ == spec_u128_to_le_bytes(BAMBOO_PER_PANDA),
    {
        let mut response = SwapResponse::forward(incoming);
        response.data = u128_to_le_bytes(BAMBOO_PER_PANDA);
        response
    }

    /// Answers with the number of collectibles held, in 16 little-endian
    /// bytes.
    pub fn get_panda_stack_count(&self, incoming: &Vec<AssetTransfer>) -> (response: SwapResponse)
        ensures
            response.transfers@ == incoming@,
            response.data@ == spec_u128_to_le_bytes(self@.count as u128),
    {
        let mut response = SwapResponse::forward(incoming);
        response.data = u128_to_le_bytes(self.instances_count());
        response
    }

    /// Reads the collectibles held, the earliest first.  Fails where a slot
    /// up to the count does not hold a 32-byte record.
    pub fn panda_stack(&self) -> (stack: Result<Vec<AssetId>, SwapError>)
        ensures
            match stack {
                Ok(ids) => !self@.stack_corrupt() && ids@ == self@.held(),
                Err(error) => error == SwapError::CorruptState && self@.stack_corrupt(),
            },
    {
        let count = self.instances_count();
        let mut ids: Vec<AssetId> = Vec::new();
        let mut i: u128 = 0;
        while i < count
            invariant
                i <= count,
                count == self@.count,
                forall|slot: nat|
                    1 <= slot <= i ==> (#[trigger] self@.slots[slot]).len() == RECORD_LEN,
                ids@ == self@.held().subrange(0, i as int),
            decreases count - i,
        {
            ids.push(self.lookup_instance(i)?);
            i += 1;
        }
        Ok(ids)
    }

    /// Answers with the records of the collectibles held, the earliest
    /// first, one after the other.  Fails where a slot up to the count does
    /// not hold a 32-byte record.
    pub fn get_panda_stack(&self, incoming: &Vec<AssetTransfer>) -> (listed: Result<
        SwapResponse,
        SwapError,
    >)
        ensures
            match listed {
                Ok(response) => {
                    &&& !self@.stack_corrupt()
                    &&& response.transfers@ == incoming@
                    &&& response.data@ == spec_concat_records(self@.held())
                },
                Err(error) => error == SwapError::CorruptState && self@.stack_corrupt(),
            },
    {
        let ids = self.panda_stack()?;
        let mut flattened: Vec<u8> = Vec::new();
        let mut i: usize = 0;
        while i < ids.len()
            invariant
                i <= ids.len(),
                flattened@ == spec_concat_records(ids@.subrange(0, i as int)),
            decreases ids.len() - i,
        {
            let mut bytes = ids[i].to_record();
            flattened.append(&mut bytes);
            proof {
                let upto = ids@.subrange(0, i + 1);
                assert(upto.drop_last() =~= ids@.subrange(0, i as int));
            }
            i += 1;
        }
        assert(ids@.subrange(0, ids@.len() as int) =~= ids@);
        let mut response = SwapResponse::forward(incoming);
        response.data = flattened;
        Ok(response)
    }

    /// Writes the labels of the collectibles held, the earliest first.
    /// Fails where a slot up to the count does not hold a 32-byte record.
    pub fn panda_stack_labels(&self) -> (labels: Result<Vec<String>, SwapError>)
        ensures
            match labels {
                Ok(texts) => !self@.stack_corrupt() && spec_texts(texts@) == spec_labels(
                    self@.held(),
                ),
                Err(error) => error == SwapError::CorruptState && self@.stack_corrupt(),
            },
    {
        let ids = self.panda_stack()?;
        let mut texts: Vec<String> = Vec::new();
        let mut i: usize = 0;
        while i < ids.len()
            invariant
                i <= ids.len(),
                texts@.len() == i,
                forall|j: int| 0 <= j < i ==> (#[trigger] texts@[j])@ == spec_label(ids@[j]),
            decreases ids.len() - i,
        {
            texts.push(instance_label(&ids[i]));
            i += 1;
        }
        Ok(texts)
    }

    /// Makes the response of the JSON listing from what the encoder gave:
    /// the text in UTF-8, or the failure to encode.
    pub fn json_response(
        incoming: &Vec<AssetTransfer>,
        encoded: Result<String, serde_json::Error>,
    ) -> (listed: Result<SwapResponse, SwapError>)
        ensures
            match encoded {
                Ok(text) => listed matches Ok(response) && response.transfers@ == incoming@
                    && response.data@ == encode_utf8(text@),
                Err(_) => listed matches Err(error) && error == SwapError::EncodingFailed,
            },
    {
        match encoded {
            Ok(text) => {
                let mut response = SwapResponse::forward(incoming);
                response.data = text.as_str().as_bytes_vec();
                Ok(response)
            },
            Err(_) => Err(SwapError::EncodingFailed),
        }
    }

    /// Answers with the labels of the collectibles held, the earliest first,
    /// as a JSON array of strings in UTF-8.  Fails where a slot up to the
    /// count does not hold a 32-byte record, and nowhere else.
    pub fn get_panda_stack_json(&self, incoming: &Vec<AssetTransfer>) -> (listed: Result<
        SwapResponse,
        SwapError,
    >)
        ensures
            match listed {
                Ok(response) => {
                    &&& !self@.stack_corrupt()
                    &&& response.transfers@ == incoming@
                    &&& response.data@ == encode_utf8(
                        spec_json_array(spec_labels(self@.held())),
                    )
                },
                Err(error) => error == SwapError::CorruptState && self@.stack_corrupt(),
            },
    {
        let texts = self.panda_stack_labels()?;
        proof {
            assert forall|i: int| 0 <= i < texts@.len() implies spec_all_plain(
                #[trigger] texts@[i]@,
            ) by {
                assert(spec_labels(self@.held()).len() == self@.held().len());
                assert(spec_labels(self@.held())[i] == spec_label(self@.held()[i]));
                lemma_label_plain(self@.held()[i]);
            }
        }
        Self::json_response(incoming, json_array(&texts))
    }
}

} // verus!
