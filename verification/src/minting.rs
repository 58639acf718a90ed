//! The minting handler: one request in, one envelope out to the broadcast
//! client, one response or error back.

use vstd::prelude::*;
use rand::Rng;
use crate::envelope::{envelope_text, Envelope};
use crate::error::TokenMintingError;
use crate::request::{request_in, TokenMintingRequest};
use crate::response::{is_reply, TokenMintingResponse};
use crate::tx_hash::{is_tx_hash, tx_hash_from, tx_hash_text};
use crate::value::Value;

verus! {

/// A minting transaction that is ready for the broadcast client: the
/// identifier drawn for it and the text to hand over.
#[derive(Clone, Debug, PartialEq, Eq)]
pub struct PendingMint {
    pub tx_hash: String,
    pub payload: String,
}

/// The handler. It keeps nothing between two requests but the broadcast
/// client: a function that takes the text of an envelope, submits it, and
/// reports success or the cause of the failure.
pub struct TokenMintingModule<C> {
    client: C,
}

/// Whether `result` is what a minting attempt comes to when the transaction
/// got the identifier `tx_hash` and the client answered with `outcome`: on
/// success the response with that identifier, on failure a broadcast error
/// with the client's cause and no response.
pub open spec fn settled(
    tx_hash: Seq<char>,
    outcome: Result<(), String>,
    result: Result<TokenMintingResponse, TokenMintingError>,
) -> bool {
    match outcome {
        Ok(_) => result matches Ok(response) && response.tx_hash@ == tx_hash,
        Err(cause) => result matches Err(TokenMintingError::BroadcastError(reported))
            && reported@ == cause@,
    }
}

/// Whether `reply` is what a dispatched request comes to, as `settled` says
/// for a minting attempt: on success the reply value that reports
/// `tx_hash`.
pub open spec fn replied(
    tx_hash: Seq<char>,
    outcome: Result<(), String>,
    reply: Result<Value, TokenMintingError>,
) -> bool {
    match outcome {
        Ok(_) => reply matches Ok(value) && is_reply(value, tx_hash),
        Err(cause) => reply matches Err(TokenMintingError::BroadcastError(reported))
            && reported@ == cause@,
    }
}

/// Whether `payload` is the envelope of the request for `amount` and
/// `recipient` under the identifier that stands for `seed`.
pub open spec fn is_envelope_of(payload: String, amount: u64, recipient: Seq<char>, seed: u128) -> bool {
    payload@ == envelope_text(amount, recipient, tx_hash_text(seed))
}

/// One call of `gen::<u128>()` on rand's thread-local generator
/// (`rand::thread_rng`), which the operating system seeds on first use.
/// Nothing is claimed of the number that comes back: any `u128` may, and
/// two calls need not agree.
#[verifier::external_body]
fn random_seed() -> (seed: u128) {
    rand::thread_rng().gen::<u128>()
}

/// Builds the transaction for `request` under the identifier that stands
/// for `seed`.
pub fn prepare_mint(request: TokenMintingRequest, seed: u128) -> (pending: PendingMint)
    ensures
        pending.tx_hash@ == tx_hash_text(seed),
        is_tx_hash(pending.tx_hash@),
        is_envelope_of(pending.payload, request.amount, request.recipient@, seed),
{
    let tx_hash = tx_hash_from(seed);
    let envelope = Envelope {
        amount: request.amount,
        recipient: request.recipient,
        tx_hash: tx_hash.clone(),
    };
    let payload = envelope.to_json();
    PendingMint { tx_hash, payload }
}

/// Builds the transaction for `request` under an identifier drawn at random:
/// the identifier says nothing about the request, and the same request gets
/// another one each time.
pub fn begin_mint(request: TokenMintingRequest) -> (pending: PendingMint)
    ensures
        is_tx_hash(pending.tx_hash@),
        exists|seed: u128|
            pending.tx_hash@ == tx_hash_text(seed) && #[trigger] is_envelope_of(
                pending.payload,
                request.amount,
                request.recipient@,
                seed,
            ),
{
    let seed = random_seed();
    prepare_mint(request, seed)
}

/// Turns the client's answer into the result of the request. What the client
/// sent back on success plays no part.
pub fn settle_mint(tx_hash: String, outcome: Result<(), String>) -> (result: Result<
    TokenMintingResponse,
    TokenMintingError,
>)
    ensures
        settled(tx_hash@, outcome, result),
{
    match outcome {
        Ok(_) => Ok(TokenMintingResponse { tx_hash }),
        Err(cause) => Err(TokenMintingError::BroadcastError(cause)),
    }
}

impl<C: Fn(String) -> Result<(), String>> TokenMintingModule<C> {
    /// The broadcast client of this handler.
    pub closed spec fn client(self) -> C {
        self.client
    }

    /// Whether the client may be called with every envelope of the request
    /// for `amount` and `recipient`.
    pub open spec fn accepts(self, amount: u64, recipient: Seq<char>) -> bool {
        forall|seed: u128, payload: String| #[trigger]
            is_envelope_of(payload, amount, recipient, seed) ==> call_requires(
                self.client(),
                (payload,),
            )
    }

    /// Whether the client was handed `payload`, the envelope of the request
    /// under the identifier for `seed`, and answered with `outcome`.
    pub open spec fn broadcast(
        self,
        amount: u64,
        recipient: Seq<char>,
        seed: u128,
        payload: String,
        outcome: Result<(), String>,
    ) -> bool {
        is_envelope_of(payload, amount, recipient, seed) && call_ensures(
            self.client(),
            (payload,),
            outcome,
        )
    }

    /// A handler that broadcasts through `client`.
    pub fn new(client: C) -> (module: Self)
        ensures
            module.client() == client,
    {
        TokenMintingModule { client }
    }

    /// Mints: draws a random identifier, hands the envelope to the client
    /// once, and answers with the identifier if the client reports success,
    /// with a broadcast error if it reports a failure.
    pub fn mint_tokens(&self, request: TokenMintingRequest) -> (result: Result<
        TokenMintingResponse,
        TokenMintingError,
    >)
        requires
            self.accepts(request.amount, request.recipient@),
        ensures
            exists|seed: u128, payload: String, outcome: Result<(), String>|
                #![trigger self.broadcast(request.amount, request.recipient@, seed, payload, outcome)]
                self.broadcast(request.amount, request.recipient@, seed, payload, outcome)
                    && settled(tx_hash_text(seed), outcome, result),
            result matches Ok(response) ==> is_tx_hash(response.tx_hash@),
    {
        let ghost amount = request.amount;
        let ghost recipient = request.recipient@;
        let pending = begin_mint(request);
        let ghost payload = pending.payload;
        let ghost seed = choose|seed: u128|
            pending.tx_hash@ == tx_hash_text(seed) && #[trigger] is_envelope_of(
                payload,
                amount,
                recipient,
                seed,
            );
        let outcome = (self.client)(pending.payload);
        let result = settle_mint(pending.tx_hash, outcome);
        assert(self.broadcast(amount, recipient, seed, payload, outcome));
        result
    }

    /// Dispatches a request that arrives as a structured value: reads the
    /// request, mints, and reports the identifier in a reply value. A value
    /// that holds no request is answered with the fault, and the client is
    /// not called.
    pub fn handle(&self, request: Value) -> (reply: Result<Value, TokenMintingError>)
        requires
            request_in(request) matches Ok((amount, recipient)) ==> self.accepts(amount, recipient),
        ensures
            match request_in(request) {
                Err(fault) => reply == Err::<Value, TokenMintingError>(
                    TokenMintingError::SerdeError(fault),
                ),
                Ok((amount, recipient)) => exists|
                    seed: u128,
                    payload: String,
                    outcome: Result<(), String>,
                |
                    #![trigger self.broadcast(amount, recipient, seed, payload, outcome)]
                    self.broadcast(amount, recipient, seed, payload, outcome) && replied(
                        tx_hash_text(seed),
                        outcome,
                        reply,
                    ),
            },
            request.field_of("amount"@) is None || request.field_of("recipient"@) is None
                ==> reply matches Err(TokenMintingError::SerdeError(_)),
            reply matches Ok(value) ==> exists|tx_hash: Seq<char>|
                is_tx_hash(tx_hash) && #[trigger] is_reply(value, tx_hash),
    {
        let minting_request = match TokenMintingRequest::from_value(&request) {
            Ok(decoded) => decoded,
            Err(fault) => {
                return Err(fault);
            },
        };
        match self.mint_tokens(minting_request) {
            Ok(response) => Ok(response.to_value()),
            Err(error) => Err(error),
        }
    }
}

} // verus!
