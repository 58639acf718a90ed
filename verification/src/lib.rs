//! Token minting: turns a minting request into a transaction envelope, hands
//! the envelope to a broadcast client and reports the transaction identifier.

pub mod envelope;
pub mod error;
pub mod json;
pub mod minting;
pub mod request;
pub mod response;
pub mod text;
pub mod tx_hash;
pub mod value;

pub use crate::envelope::Envelope;
pub use crate::error::{DecodeFault, TokenMintingError};
pub use crate::minting::{begin_mint, prepare_mint, settle_mint, PendingMint, TokenMintingModule};
pub use crate::request::TokenMintingRequest;
pub use crate::response::TokenMintingResponse;
pub use crate::value::Value;
