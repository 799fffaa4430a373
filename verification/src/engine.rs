//! The proof engine: the proof-of-work style puzzle over block digests.
//!
//! A nonce is valid for a digest when hashing the digest together with the
//! nonce's 8 big-endian bytes yields a puzzle digest whose leading `target`
//! bits are all zero. A higher target therefore demands a rarer nonce.

use vstd::prelude::*;
use crate::digest::{blake2b_of, blake2b_digest, DIGEST_BYTES};
use crate::wire::{u64_be_bytes, encode_u64_be, append_bytes};

verus! {

/// Bit `i` of the digest, counting from the most significant bit of the
/// first byte, is zero. False when `i` lies past the end of the digest.
pub open spec fn bit_cleared(d: Seq<u8>, i: int) -> bool {
    0 <= i && i / 8 < d.len() && (d[i / 8] >> ((7 - (i % 8)) as u8)) & 1 == 0
}

/// The digest meets difficulty `t`: it is long enough to carry `t` leading
/// bits and all of them are zero.
pub open spec fn meets_target(d: Seq<u8>, t: int) -> bool {
    t <= 8 * d.len() && forall|i: int| 0 <= i < t ==> bit_cleared(d, i)
}

/// The puzzle digest of a candidate: the hash of the content digest followed
/// by the nonce's wire bytes.
pub open spec fn pow_digest(digest: Seq<u8>, nonce: u64) -> Seq<u8> {
    blake2b_of(digest + u64_be_bytes(nonce))
}

/// A nonce is valid for a content digest at a difficulty target when the
/// puzzle digest it produces meets that target.
pub open spec fn nonce_valid(digest: Seq<u8>, nonce: u64, target: u64) -> bool {
    meets_target(pow_digest(digest, nonce), target as int)
}

/// Difficulty is monotone: a nonce valid at some target stays valid at every
/// less strict (smaller) target, for the same digest.
pub proof fn lemma_difficulty_monotonic(digest: Seq<u8>, nonce: u64, target: u64, weaker: u64)
    requires
        weaker <= target,
        nonce_valid(digest, nonce, target),
    ensures
        nonce_valid(digest, nonce, weaker),
{
}

/// Checks that the leading `target` bits of the digest are zero.
fn meets_difficulty(d: &[u8], target: u64) -> (r: bool)
    requires
        d@.len() == DIGEST_BYTES,
    ensures
        r == meets_target(d@, target as int),
{
    if target > 512 {
        return false;
    }
    let mut i: u64 = 0;
    while i < target
        invariant
            d@.len() == 64,
            target <= 512,
            i <= target,
            forall|j: int| 0 <= j < i ==> bit_cleared(d@, j),
        decreases target - i,
    {
        let byte: u8 = d[(i / 8) as usize];
        let shift: u8 = (7 - (i % 8)) as u8;
        if (byte >> shift) & 1 != 0 {
            proof {
                assert(!bit_cleared(d@, i as int));
            }
            return false;
        }
        proof {
            assert(bit_cleared(d@, i as int));
        }
        i = i + 1;
    }
    true
}

/// Decides whether a nonce is valid for a content digest at a target, by
/// hashing the digest with the nonce's wire bytes and checking the leading
/// zero bits of the result.
pub fn check_nonce(digest: &[u8], nonce: u64, target: u64) -> (r: bool)
    ensures
        r == nonce_valid(digest@, nonce, target),
{
    let mut input: Vec<u8> = Vec::new();
    append_bytes(&mut input, digest);
    let nb = encode_u64_be(nonce);
    append_bytes(&mut input, nb.as_slice());
    proof {
        assert(input@ =~= digest@ + u64_be_bytes(nonce));
    }
    let h = blake2b_digest(input.as_slice());
    meets_difficulty(h.as_slice(), target)
}

/// The least valid nonce in `[from, limit)` for the digest at the target,
/// or nothing when that range holds none.
pub open spec fn first_valid_nonce_from(digest: Seq<u8>, target: u64, from: int, limit: int)
    -> Option<u64>
    recommends
        0 <= from,
        limit <= u64::MAX as int + 1,
    decreases limit - from,
{
    if from < 0 || from >= limit {
        None
    } else if nonce_valid(digest, from as u64, target) {
        Some(from as u64)
    } else {
        first_valid_nonce_from(digest, target, from + 1, limit)
    }
}

/// The least valid nonce below `limit` for the digest at the target.
pub open spec fn first_valid_nonce(digest: Seq<u8>, target: u64, limit: int) -> Option<u64> {
    first_valid_nonce_from(digest, target, 0, limit)
}

/// What the search result means: a found nonce is valid and is the least
/// valid nonce in the searched range; an empty result means the whole range
/// holds no valid nonce. This is the sense in which search and check agree.
pub proof fn lemma_first_valid_nonce_from(digest: Seq<u8>, target: u64, from: int, limit: int)
    requires
        0 <= from,
        limit <= u64::MAX as int + 1,
    ensures
        match first_valid_nonce_from(digest, target, from, limit) {
            Some(n) => nonce_valid(digest, n, target) && from <= n < limit && forall|m: u64|
                from <= m < n ==> !nonce_valid(digest, m, target),
            None => forall|m: u64| from <= m < limit ==> !nonce_valid(digest, m, target),
        },
    decreases limit - from,
{
    if from < limit && !nonce_valid(digest, from as u64, target) {
        lemma_first_valid_nonce_from(digest, target, from + 1, limit);
    }
}

/// The puzzle engine: a difficulty target fixed at construction and a bound
/// on how many nonces a single search will try before giving up.
pub struct ProofEngine {
    pub target: u64,
    pub search_limit: u64,
}

impl ProofEngine {
    /// An engine at the given difficulty target and search bound.
    pub fn new(target: u64, search_limit: u64) -> (r: ProofEngine)
        ensures
            r.target == target,
            r.search_limit == search_limit,
    {
        ProofEngine { target, search_limit }
    }

    /// Verifies a candidate nonce against the engine's target.
    pub fn verify(&self, digest: &[u8], nonce: u64) -> (r: bool)
        ensures
            r == nonce_valid(digest@, nonce, self.target),
    {
        check_nonce(digest, nonce, self.target)
    }

    /// Searches for a valid nonce, trying nonces in increasing order from
    /// zero, and gives up after the engine's search bound.
    pub fn mint(&self, digest: &[u8]) -> (r: Option<u64>)
        ensures
            r == first_valid_nonce(digest@, self.target, self.search_limit as int),
    {
        let mut n: u64 = 0;
        while n < self.search_limit
            invariant
                n <= self.search_limit,
                first_valid_nonce(digest@, self.target, self.search_limit as int)
                    == first_valid_nonce_from(
                    digest@,
                    self.target,
                    n as int,
                    self.search_limit as int,
                ),
            decreases self.search_limit - n,
        {
            if check_nonce(digest, n, self.target) {
                return Some(n);
            }
            n = n + 1;
        }
        None
    }
}

} // verus!
