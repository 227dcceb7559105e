use vstd::prelude::*;
use crate::difficulty::DIGEST_LEN;
use crate::encoding::{le_bytes, le_encode};

verus! {

/// The Keccak-256 digest of a byte string.
pub uninterp spec fn keccak256_of(data: Seq<u8>) -> Seq<u8>;

/// The eight bytes that a nonce contributes to the hashed message.
pub open spec fn nonce_bytes(nonce: u64) -> Seq<u8> {
    le_bytes(nonce as nat, 8)
}

/// The digest that `nonce` yields for `input`: the hash of the input followed
/// by the nonce in little-endian order.
pub open spec fn digest_of(input: Seq<u8>, nonce: u64) -> Seq<u8> {
    keccak256_of(input + nonce_bytes(nonce))
}

/// Relies on solana_sdk::keccak::hashv: the Keccak-256 digest of the given
/// slices taken one after another, a function of those bytes alone.
#[verifier::external_body]
#[allow(deprecated)]
fn keccak256_concat(first: &[u8], second: &[u8]) -> (r: [u8; DIGEST_LEN])
    ensures
        r@ == keccak256_of(first@ + second@),
{
    solana_sdk::keccak::hashv(&[first, second]).to_bytes()
}

/// Hashes `input` followed by the little-endian bytes of `nonce`.
pub fn digest_for_nonce(input: &[u8], nonce: u64) -> (r: [u8; DIGEST_LEN])
    ensures
        r@ == digest_of(input@, nonce),
{
    let suffix = le_encode(nonce, 8);
    keccak256_concat(input, suffix.as_slice())
}

} // verus!
