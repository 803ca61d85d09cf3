//! SHA-256 fingerprints of build outputs, reported in lower-case hexadecimal.

use vstd::prelude::*;
use sha2::{Digest, Sha256};
use crate::text::{hex_lower, hex_lower_spec, is_lower_hex_digit};

verus! {

/// The SHA-256 digest of a byte sequence, as the `sha2` crate computes it.
pub uninterp spec fn sha256_of(data: Seq<u8>) -> Seq<u8>;

/// `sha2::Sha256::digest` (one-shot hashing through the `Digest` trait).
///
/// Trusted: the result is the digest that the crate computes for exactly
/// these bytes, named `sha256_of`; it is 32 bytes long, the output size of
/// SHA-256 in the crate's types. Nothing is stated of the digest's value.
#[verifier::external_body]
fn sha256_digest(data: &[u8]) -> (res: Vec<u8>)
    ensures
        res@ == sha256_of(data@),
        res@.len() == 32,
{
    Sha256::digest(data).to_vec()
}

/// The SHA-256 digest of `data`, in lower-case hexadecimal.
pub fn sha256_hex(data: &[u8]) -> (res: String)
    ensures
        res@ == hex_lower_spec(sha256_of(data@)),
        res@.len() == 64,
        forall|i: int| 0 <= i < res@.len() ==> is_lower_hex_digit(#[trigger] res@[i]),
{
    let digest = sha256_digest(data);
    hex_lower(digest.as_slice())
}

} // verus!
