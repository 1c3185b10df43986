//! SHA-256 fingerprints of uploaded images.

use sha2::{Digest, Sha256};
use vstd::prelude::*;

use crate::text::{hex_lower, hex_string, is_hex_digit};

verus! {

/// The SHA-256 digest of a byte string, as the `sha2` crate computes it.
pub uninterp spec fn sha256(data: Seq<u8>) -> Seq<u8>;

/// Calls `sha2::Sha256::digest`. Trusted: the returned bytes are the digest
/// of `data`, a function of `data` alone, and there are 32 of them (the
/// output size of `Sha256`).
#[verifier::external_body]
fn sha256_digest(data: &[u8]) -> (digest: Vec<u8>)
    ensures
        digest@ == sha256(data@),
        digest@.len() == 32,
{
    Sha256::digest(data).to_vec()
}

/// The SHA-256 digest of `bytes` written as 64 lower-case hexadecimal digits.
pub fn sha256_hex(bytes: &[u8]) -> (hex: String)
    ensures
        hex@ == hex_lower(sha256(bytes@)),
        hex@.len() == 64,
        forall|i: int| 0 <= i < 64 ==> is_hex_digit(#[trigger] hex@[i]),
{
    let digest = sha256_digest(bytes);
    let hex = hex_string(digest.as_slice());
    proof {
        crate::text::lemma_hex_lower_shape(digest@);
    }
    hex
}

} // verus!
