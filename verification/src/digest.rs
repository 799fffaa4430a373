//! Content digests. A digest is the BLAKE2b hash of a block's canonical
//! serialized bytes; the engine derives the puzzle digest from it by hashing
//! it again together with the candidate nonce.

use vstd::prelude::*;

verus! {

/// Byte length of a BLAKE2b digest with default parameters.
pub const DIGEST_BYTES: usize = 64;

/// The BLAKE2b digest of a byte string, with default parameters. The hash is
/// a pure function of the input bytes; its value is not axiomatized here.
pub uninterp spec fn blake2b_of(input: Seq<u8>) -> Seq<u8>;

/// Relies on blake2b_simd::blake2b: the BLAKE2b hash of the input with
/// default parameters, 64 bytes long, a function of the input bytes alone.
#[verifier::external_body]
pub fn blake2b_digest(input: &[u8]) -> (r: Vec<u8>)
    ensures
        r@ == blake2b_of(input@),
        r@.len() == DIGEST_BYTES,
{
    blake2b_simd::blake2b(input).as_bytes().to_vec()
}

} // verus!
