//! What can go wrong with a minting request.

use vstd::prelude::*;
use vstd::string::StringExecFns;

verus! {

/// Why a structured value is no minting request.
#[derive(Clone, Copy, Debug, PartialEq, Eq, Structural)]
pub enum DecodeFault {
    /// The value is not a dictionary.
    NotADictionary,
    /// The dictionary has no `amount`.
    MissingAmount,
    /// `amount` is not an integer between 0 and 2^64 - 1.
    InvalidAmount,
    /// The dictionary has no `recipient`.
    MissingRecipient,
    /// `recipient` is not a text.
    InvalidRecipient,
}

/// The two ways in which a minting request fails. Either one ends the
/// request: nothing is tried again.
#[derive(Clone, Debug, PartialEq, Eq)]
pub enum TokenMintingError {
    /// The request could not be read from the value it arrived in.
    SerdeError(DecodeFault),
    /// The broadcast client reported a failure; the field is the cause as
    /// the client gave it.
    BroadcastError(String),
}

impl DecodeFault {
    /// The fault in words.
    pub open spec fn description(self) -> Seq<char> {
        match self {
            DecodeFault::NotADictionary => "expected a dictionary"@,
            DecodeFault::MissingAmount => "missing field `amount`"@,
            DecodeFault::InvalidAmount => "field `amount` is not an unsigned 64-bit integer"@,
            DecodeFault::MissingRecipient => "missing field `recipient`"@,
            DecodeFault::InvalidRecipient => "field `recipient` is not a text"@,
        }
    }

    /// The fault in words.
    pub fn describe(&self) -> (text: &'static str)
        ensures
            text@ == self.description(),
    {
        match self {
            DecodeFault::NotADictionary => "expected a dictionary",
            DecodeFault::MissingAmount => "missing field `amount`",
            DecodeFault::InvalidAmount => "field `amount` is not an unsigned 64-bit integer",
            DecodeFault::MissingRecipient => "missing field `recipient`",
            DecodeFault::InvalidRecipient => "field `recipient` is not a text",
        }
    }
}

impl TokenMintingError {
    /// The text of the error: what failed, a colon, and the cause.
    pub open spec fn message_text(self) -> Seq<char> {
        match self {
            TokenMintingError::SerdeError(fault) => "Failed to serialize token minting request: "@
                + fault.description(),
            TokenMintingError::BroadcastError(cause) => "Failed to broadcast transaction: "@
                + cause@,
        }
    }

    /// The text of the error.
    pub fn message(&self) -> (text: String)
        ensures
            text@ == self.message_text(),
    {
        match self {
            TokenMintingError::SerdeError(fault) => {
                String::from_str("Failed to serialize token minting request: ").concat(
                    fault.describe(),
                )
            },
            TokenMintingError::BroadcastError(cause) => {
                String::from_str("Failed to broadcast transaction: ").concat(cause.as_str())
            },
        }
    }
}

} // verus!
