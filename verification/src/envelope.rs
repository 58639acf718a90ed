//! The transaction envelope: what is handed to the broadcast client for one
//! minting request.

use vstd::prelude::*;
use vstd::string::StringExecFns;
use crate::json::{push_quoted, quoted_text};
use crate::text::{decimal_text, push_decimal};

verus! {

/// A minting transaction on its way to the broadcast client. It lives for
/// one request and is kept nowhere.
#[derive(Debug, PartialEq, Eq)]
pub struct Envelope {
    pub amount: u64,
    pub recipient: String,
    pub tx_hash: String,
}

/// The JSON text of the `data` object of an envelope.
pub open spec fn data_text(amount: u64, recipient: Seq<char>, tx_hash: Seq<char>) -> Seq<char> {
    "{\"amount\":"@ + decimal_text(amount as nat) + ",\"recipient\":"@ + quoted_text(recipient)
        + ",\"tx_hash\":"@ + quoted_text(tx_hash) + "}"@
}

/// The JSON text of an envelope: an object with the transaction's data
/// under `data` and the tag `token_minting` under `type`, without any white
/// space.
pub open spec fn envelope_text(amount: u64, recipient: Seq<char>, tx_hash: Seq<char>) -> Seq<
    char,
> {
    "{\"data\":"@ + data_text(amount, recipient, tx_hash) + ",\"type\":\"token_minting\"}"@
}

impl Envelope {
    /// The JSON text of this envelope.
    pub open spec fn json_text(self) -> Seq<char> {
        envelope_text(self.amount, self.recipient@, self.tx_hash@)
    }

    /// Writes the envelope as JSON text.
    pub fn to_json(&self) -> (payload: String)
        ensures
            payload@ == self.json_text(),
    {
        let mut payload = String::from_str("{\"data\":");
        payload.append("{\"amount\":");
        push_decimal(&mut payload, self.amount);
        payload.append(",\"recipient\":");
        push_quoted(&mut payload, self.recipient.as_str());
        payload.append(",\"tx_hash\":");
        push_quoted(&mut payload, self.tx_hash.as_str());
        payload.append("}");
        payload.append(",\"type\":\"token_minting\"}");
        assert(payload@ =~= self.json_text());
        payload
    }
}

} // verus!
