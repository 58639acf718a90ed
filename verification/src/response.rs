//! Minting responses and the structured values they leave in.

use vstd::prelude::*;
use crate::value::{is_text, Value};

verus! {

/// The answer to a minting request that was broadcast: the identifier that
/// was drawn for the transaction.
#[derive(Clone, Debug, PartialEq, Eq)]
pub struct TokenMintingResponse {
    pub tx_hash: String,
}

/// Whether `value` is the reply that reports `tx_hash`: a dictionary with
/// the one key `result`, under it a dictionary with the one key `tx_hash`,
/// and under that the identifier as a text.
pub open spec fn is_reply(value: Value, tx_hash: Seq<char>) -> bool {
    &&& value matches Value::Dict(outer)
    &&& outer@.len() == 1
    &&& is_text(outer@[0].0, "result"@)
    &&& outer@[0].1 matches Value::Dict(inner)
    &&& inner@.len() == 1
    &&& is_text(inner@[0].0, "tx_hash"@)
    &&& is_text(inner@[0].1, tx_hash)
}

impl TokenMintingResponse {
    /// The reply that reports this response.
    pub fn to_value(&self) -> (value: Value)
        ensures
            is_reply(value, self.tx_hash@),
    {
        Value::single_entry(
            "result",
            Value::single_entry("tx_hash", Value::Text(self.tx_hash.clone())),
        )
    }
}

} // verus!
