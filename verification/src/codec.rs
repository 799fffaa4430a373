//! The canonical block codec: a deterministic byte serialization of blocks,
//! and its inverse. Digests are computed over these bytes, so two blocks
//! with the same logical content always serialize bit-for-bit equal.
//!
//! Layout: the header's height and timestamp as 8-byte big-endian words,
//! then each variable-length field (previous hash, proof, body) as an
//! 8-byte big-endian length followed by the field's bytes.

use vstd::prelude::*;
use vstd::slice::{slice_subrange, slice_to_vec};
use crate::block::{Block, BlockHeader, BlockModel};
use crate::digest::{blake2b_of, blake2b_digest, DIGEST_BYTES};
use crate::wire::append_bytes;
use crate::wire::{
    u64_be_bytes, u64_from_be, encode_u64_be, decode_u64_be, lemma_u64_be_round_trip,
    lemma_u64_be_bytes_round_trip,
};

verus! {

/// The canonical serialization of a block.
pub open spec fn serial_of(m: BlockModel) -> Seq<u8> {
    u64_be_bytes(m.header.height) + u64_be_bytes(m.header.timestamp) + u64_be_bytes(
        m.header.prevhash.len() as u64,
    ) + m.header.prevhash + u64_be_bytes(m.header.proof.len() as u64) + m.header.proof
        + u64_be_bytes(m.body.len() as u64) + m.body
}

/// The content digest of a block: the hash of its canonical bytes.
pub open spec fn content_digest(m: BlockModel) -> Seq<u8> {
    blake2b_of(serial_of(m))
}

/// How a serialization decomposes: each field of the block stands at a fixed
/// place in the bytes, determined by the three length words, so the bytes
/// pin the block down completely.
pub proof fn lemma_serial_pieces(m: BlockModel, s: Seq<u8>)
    requires
        serial_of(m) == s,
        s.len() < 0x1_0000_0000_0000_0000,
    ensures
        s.len() == 40 + m.header.prevhash.len() + m.header.proof.len() + m.body.len(),
        s.subrange(0, 8) == u64_be_bytes(m.header.height),
        u64_from_be(s.subrange(0, 8)) == m.header.height,
        s.subrange(8, 16) == u64_be_bytes(m.header.timestamp),
        u64_from_be(s.subrange(8, 16)) == m.header.timestamp,
        u64_from_be(s.subrange(16, 24)) == m.header.prevhash.len(),
        s.subrange(24, 24 + m.header.prevhash.len() as int) == m.header.prevhash,
        u64_from_be(
            s.subrange(
                24 + m.header.prevhash.len() as int,
                32 + m.header.prevhash.len() as int,
            ),
        ) == m.header.proof.len(),
        s.subrange(
            32 + m.header.prevhash.len() as int,
            32 + m.header.prevhash.len() + m.header.proof.len() as int,
        ) == m.header.proof,
        u64_from_be(
            s.subrange(
                32 + m.header.prevhash.len() + m.header.proof.len() as int,
                40 + m.header.prevhash.len() + m.header.proof.len() as int,
            ),
        ) == m.body.len(),
        s.subrange(40 + m.header.prevhash.len() + m.header.proof.len() as int, s.len() as int)
            == m.body,
{
    let l1 = m.header.prevhash.len() as int;
    let l2 = m.header.proof.len() as int;
    let l3 = m.body.len() as int;
    assert(s.len() == 40 + l1 + l2 + l3);
    assert(s.subrange(0, 8) =~= u64_be_bytes(m.header.height));
    assert(s.subrange(8, 16) =~= u64_be_bytes(m.header.timestamp));
    assert(s.subrange(16, 24) =~= u64_be_bytes(m.header.prevhash.len() as u64));
    assert(s.subrange(24, 24 + l1) =~= m.header.prevhash);
    assert(s.subrange(24 + l1, 32 + l1) =~= u64_be_bytes(m.header.proof.len() as u64));
    assert(s.subrange(32 + l1, 32 + l1 + l2) =~= m.header.proof);
    assert(s.subrange(32 + l1 + l2, 40 + l1 + l2) =~= u64_be_bytes(m.body.len() as u64));
    assert(s.subrange(40 + l1 + l2, s.len() as int) =~= m.body);
    lemma_u64_be_round_trip(m.header.height);
    lemma_u64_be_round_trip(m.header.timestamp);
    lemma_u64_be_round_trip(m.header.prevhash.len() as u64);
    lemma_u64_be_round_trip(m.header.proof.len() as u64);
    lemma_u64_be_round_trip(m.body.len() as u64);
}

/// The codec is injective: two blocks with the same serialization are the
/// same block. Serialization is deterministic by construction, so canonical
/// bytes and content digests identify a block's logical content.
pub proof fn lemma_serial_injective(a: BlockModel, b: BlockModel)
    requires
        serial_of(a) == serial_of(b),
        serial_of(a).len() < 0x1_0000_0000_0000_0000,
    ensures
        a == b,
{
    let s = serial_of(a);
    lemma_serial_pieces(a, s);
    lemma_serial_pieces(b, s);
    assert(a.header.prevhash.len() == b.header.prevhash.len());
    assert(a.header.proof.len() == b.header.proof.len());
    assert(a =~= b);
}

/// Serializes a block to its canonical bytes.
pub fn serialize_block(b: &Block) -> (r: Vec<u8>)
    ensures
        r@ == serial_of(b@),
{
    let mut r: Vec<u8> = Vec::new();
    let w = encode_u64_be(b.header.height);
    append_bytes(&mut r, w.as_slice());
    let w = encode_u64_be(b.header.timestamp);
    append_bytes(&mut r, w.as_slice());
    let w = encode_u64_be(b.header.prevhash.len() as u64);
    append_bytes(&mut r, w.as_slice());
    append_bytes(&mut r, b.header.prevhash.as_slice());
    let w = encode_u64_be(b.header.proof.len() as u64);
    append_bytes(&mut r, w.as_slice());
    append_bytes(&mut r, b.header.proof.as_slice());
    let w = encode_u64_be(b.body.len() as u64);
    append_bytes(&mut r, w.as_slice());
    append_bytes(&mut r, b.body.as_slice());
    proof {
        assert(r@ =~= serial_of(b@));
    }
    r
}

/// The content digest of a block: BLAKE2b over its canonical bytes.
pub fn block_digest(b: &Block) -> (r: Vec<u8>)
    ensures
        r@ == content_digest(b@),
        r@.len() == DIGEST_BYTES,
{
    let bytes = serialize_block(b);
    blake2b_digest(bytes.as_slice())
}

/// Reads the 8-byte big-endian word at the given offset.
fn read_u64_at(s: &[u8], off: usize) -> (r: u64)
    requires
        off + 8 <= s@.len(),
    ensures
        r == u64_from_be(s@.subrange(off as int, off as int + 8)),
{
    let n = s.len();
    proof {
        assert(off + 8 <= n);
    }
    let w = slice_subrange(s, off, off + 8);
    decode_u64_be(w)
}

/// Parses canonical bytes back into a block. Succeeds exactly on the byte
/// strings that some block serializes to, and then returns that block.
pub fn deserialize_block(s: &[u8]) -> (r: Option<Block>)
    ensures
        match r {
            Some(b) => serial_of(b@) == s@,
            None => forall|m: BlockModel| serial_of(m) != s@,
        },
{
    let total = s.len();
    if total < 40 {
        proof {
            assert forall|m: BlockModel| serial_of(m) != s@ by {
                if serial_of(m) == s@ {
                    assert(serial_of(m).len() >= 40);
                }
            }
        }
        return None;
    }
    let height = read_u64_at(s, 0);
    let timestamp = read_u64_at(s, 8);
    let l1u = read_u64_at(s, 16);
    if l1u > (total - 40) as u64 {
        proof {
            assert forall|m: BlockModel| serial_of(m) != s@ by {
                if serial_of(m) == s@ {
                    lemma_serial_pieces(m, s@);
                }
            }
        }
        return None;
    }
    let l1 = l1u as usize;
    let l2u = read_u64_at(s, 24 + l1);
    if l2u > (total - 40 - l1) as u64 {
        proof {
            assert forall|m: BlockModel| serial_of(m) != s@ by {
                if serial_of(m) == s@ {
                    lemma_serial_pieces(m, s@);
                }
            }
        }
        return None;
    }
    let l2 = l2u as usize;
    let l3u = read_u64_at(s, 32 + l1 + l2);
    if l3u != (total - 40 - l1 - l2) as u64 {
        proof {
            assert forall|m: BlockModel| serial_of(m) != s@ by {
                if serial_of(m) == s@ {
                    lemma_serial_pieces(m, s@);
                }
            }
        }
        return None;
    }
    let prevhash = slice_to_vec(slice_subrange(s, 24, 24 + l1));
    let proof_field = slice_to_vec(slice_subrange(s, 32 + l1, 32 + l1 + l2));
    let body = slice_to_vec(slice_subrange(s, 40 + l1 + l2, total));
    let b = Block {
        header: BlockHeader { prevhash, timestamp, height, proof: proof_field },
        body,
    };
    proof {
        lemma_u64_be_bytes_round_trip(s@.subrange(0, 8));
        lemma_u64_be_bytes_round_trip(s@.subrange(8, 16));
        lemma_u64_be_bytes_round_trip(s@.subrange(16, 24));
        lemma_u64_be_bytes_round_trip(s@.subrange(24 + l1 as int, 32 + l1 as int));
        lemma_u64_be_bytes_round_trip(
            s@.subrange(32 + l1 as int + l2 as int, 40 + l1 as int + l2 as int),
        );
        assert(serial_of(b@) =~= s@);
    }
    Some(b)
}

} // verus!
