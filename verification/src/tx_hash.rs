//! Transaction identifiers: a 128-bit number written as 32 lowercase
//! hexadecimal digits, most significant digit first.

use vstd::prelude::*;
use crate::text::{hex_text, is_lower_hex, lemma_hex_text_injective, lemma_hex_text_shape, pow16, push_hex};

verus! {

/// Number of hexadecimal digits in a transaction identifier.
pub const TX_HASH_LEN: usize = 32;

/// The identifier that stands for `seed`.
pub open spec fn tx_hash_text(seed: u128) -> Seq<char> {
    hex_text(seed as nat, TX_HASH_LEN as nat)
}

/// Whether `text` has the shape of a transaction identifier.
pub open spec fn is_tx_hash(text: Seq<char>) -> bool {
    &&& text.len() == TX_HASH_LEN
    &&& forall|i: int| 0 <= i < text.len() ==> is_lower_hex(#[trigger] text[i])
}

/// Every seed gives a well-shaped identifier.
pub proof fn lemma_tx_hash_shape(seed: u128)
    ensures
        is_tx_hash(tx_hash_text(seed)),
{
    lemma_hex_text_shape(seed as nat, TX_HASH_LEN as nat);
}

/// Different seeds give different identifiers: two identifiers collide only
/// if the random source returned the same number twice.
pub proof fn lemma_tx_hash_distinct(a: u128, b: u128)
    requires
        a != b,
    ensures
        tx_hash_text(a) != tx_hash_text(b),
{
    assert(pow16(32) == 0x1_0000_0000_0000_0000_0000_0000_0000_0000) by {
        reveal_with_fuel(pow16, 33);
    }
    if tx_hash_text(a) == tx_hash_text(b) {
        lemma_hex_text_injective(a as nat, b as nat, TX_HASH_LEN as nat);
    }
}

/// Writes `seed` as a transaction identifier.
pub fn tx_hash_from(seed: u128) -> (text: String)
    ensures
        text@ == tx_hash_text(seed),
        is_tx_hash(text@),
{
    let mut text = String::new();
    push_hex(&mut text, seed, 32);
    proof {
        lemma_tx_hash_shape(seed);
    }
    text
}

} // verus!
