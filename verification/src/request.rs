//! Minting requests and the structured values they arrive in.

use vstd::prelude::*;
use crate::error::{DecodeFault, TokenMintingError};
use crate::value::{lookup, Value};

verus! {

/// A request to mint `amount` tokens for `recipient`. Any amount and any
/// recipient are taken: zero and the empty text too.
#[derive(Clone, Debug, PartialEq, Eq)]
pub struct TokenMintingRequest {
    pub amount: u64,
    pub recipient: String,
}

/// The amount that a request dictionary holds.
pub open spec fn amount_in(value: Value) -> Result<u64, DecodeFault> {
    match value.field_of("amount"@) {
        None => Err(DecodeFault::MissingAmount),
        Some(Value::Integer(number)) => if 0 <= number <= u64::MAX {
            Ok(number as u64)
        } else {
            Err(DecodeFault::InvalidAmount)
        },
        Some(_) => Err(DecodeFault::InvalidAmount),
    }
}

/// The recipient that a request dictionary holds.
pub open spec fn recipient_in(value: Value) -> Result<Seq<char>, DecodeFault> {
    match value.field_of("recipient"@) {
        None => Err(DecodeFault::MissingRecipient),
        Some(Value::Text(name)) => Ok(name@),
        Some(_) => Err(DecodeFault::InvalidRecipient),
    }
}

/// The amount and recipient of the request that `value` holds. A request is
/// a dictionary with an unsigned 64-bit integer under the text key `amount`
/// and a text under the text key `recipient`; whatever else the dictionary
/// holds is passed over. The first fault found is reported: the amount is
/// looked at before the recipient.
pub open spec fn request_in(value: Value) -> Result<(u64, Seq<char>), DecodeFault> {
    if !(value is Dict) {
        Err(DecodeFault::NotADictionary)
    } else {
        match (amount_in(value), recipient_in(value)) {
            (Err(fault), _) => Err(fault),
            (Ok(_), Err(fault)) => Err(fault),
            (Ok(amount), Ok(recipient)) => Ok((amount, recipient)),
        }
    }
}

impl TokenMintingRequest {
    /// Whether this is the request with the given amount and recipient.
    pub open spec fn holds(self, amount: u64, recipient: Seq<char>) -> bool {
        self.amount == amount && self.recipient@ == recipient
    }

    /// A request for `amount` tokens to `recipient`.
    pub fn new(amount: u64, recipient: String) -> (request: Self)
        ensures
            request.amount == amount,
            request.recipient == recipient,
    {
        TokenMintingRequest { amount, recipient }
    }

    /// Reads a request from the value it arrived in.
    pub fn from_value(value: &Value) -> (result: Result<Self, TokenMintingError>)
        ensures
            match request_in(*value) {
                Ok((amount, recipient)) => result matches Ok(request) && request.holds(
                    amount,
                    recipient,
                ),
                Err(fault) => result == Err::<Self, TokenMintingError>(
                    TokenMintingError::SerdeError(fault),
                ),
            },
    {
        match value {
            Value::Dict(_) => {},
            _ => {
                return Err(TokenMintingError::SerdeError(DecodeFault::NotADictionary));
            },
        }
        let amount: u64 = match value.field("amount") {
            None => {
                return Err(TokenMintingError::SerdeError(DecodeFault::MissingAmount));
            },
            Some(Value::Integer(number)) => {
                if 0 <= *number && *number <= 0xffff_ffff_ffff_ffff {
                    *number as u64
                } else {
                    return Err(TokenMintingError::SerdeError(DecodeFault::InvalidAmount));
                }
            },
            Some(_) => {
                return Err(TokenMintingError::SerdeError(DecodeFault::InvalidAmount));
            },
        };
        match value.field("recipient") {
            None => Err(TokenMintingError::SerdeError(DecodeFault::MissingRecipient)),
            Some(Value::Text(name)) => Ok(TokenMintingRequest { amount, recipient: name.clone() }),
            Some(_) => Err(TokenMintingError::SerdeError(DecodeFault::InvalidRecipient)),
        }
    }

    /// The dictionary that holds this request: `amount`, then `recipient`.
    pub fn to_value(&self) -> (value: Value)
        ensures
            request_in(value) == Ok::<(u64, Seq<char>), DecodeFault>(
                (self.amount, self.recipient@),
            ),
    {
        let mut entries: Vec<(Value, Value)> = Vec::new();
        entries.push((Value::text("amount"), Value::Integer(self.amount as i128)));
        entries.push((Value::text("recipient"), Value::Text(self.recipient.clone())));
        proof {
            reveal_strlit("amount");
            reveal_strlit("recipient");
            let rest = entries@.drop_first();
            assert("amount"@.len() != "recipient"@.len());
            assert(lookup(rest, "recipient"@) == Some(rest[0].1));
        }
        Value::Dict(entries)
    }
}

} // verus!
