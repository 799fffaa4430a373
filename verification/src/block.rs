//! The block model: a header carrying the proof field beside the fields the
//! chain orders blocks by, and an opaque body. The consensus core reads and
//! writes only the proof field; everything else passes through untouched.

use vstd::prelude::*;
use crate::wire::append_bytes;

verus! {

/// Mathematical value of a block header.
#[verifier::ext_equal]
pub ghost struct HeaderModel {
    pub prevhash: Seq<u8>,
    pub timestamp: u64,
    pub height: u64,
    pub proof: Seq<u8>,
}

/// Mathematical value of a block.
#[verifier::ext_equal]
pub ghost struct BlockModel {
    pub header: HeaderModel,
    pub body: Seq<u8>,
}

/// A block header: the hash of the previous block, the block's timestamp and
/// height, and the proof field holding the encoded nonce (empty until a
/// proof is attached).
pub struct BlockHeader {
    pub prevhash: Vec<u8>,
    pub timestamp: u64,
    pub height: u64,
    pub proof: Vec<u8>,
}

/// A block: a header and an opaque body (the serialized transaction
/// content, owned by the transaction service).
pub struct Block {
    pub header: BlockHeader,
    pub body: Vec<u8>,
}

impl View for BlockHeader {
    type V = HeaderModel;

    open spec fn view(&self) -> HeaderModel {
        HeaderModel {
            prevhash: self.prevhash@,
            timestamp: self.timestamp,
            height: self.height,
            proof: self.proof@,
        }
    }
}

impl View for Block {
    type V = BlockModel;

    open spec fn view(&self) -> BlockModel {
        BlockModel { header: self.header@, body: self.body@ }
    }
}

/// The same block with the given proof field instead.
pub open spec fn with_proof(b: BlockModel, proof: Seq<u8>) -> BlockModel {
    BlockModel {
        header: HeaderModel {
            prevhash: b.header.prevhash,
            timestamp: b.header.timestamp,
            height: b.header.height,
            proof,
        },
        body: b.body,
    }
}

/// The same block with its proof field emptied: the form a digest is
/// computed over.
pub open spec fn cleared(b: BlockModel) -> BlockModel {
    with_proof(b, Seq::empty())
}

/// Clearing forgets whatever proof was attached: every two blocks that agree
/// outside the proof field clear to the same block.
pub proof fn lemma_cleared_ignores_proof(b: BlockModel, proof: Seq<u8>)
    ensures
        cleared(with_proof(b, proof)) == cleared(b),
{
}

impl Block {
    /// Takes the proof field out of the header, leaving it empty; returns
    /// the bytes that were attached.
    pub fn take_proof(&mut self) -> (r: Vec<u8>)
        ensures
            final(self)@ == cleared(old(self)@),
            r@ == old(self)@.header.proof,
    {
        let mut taken: Vec<u8> = Vec::new();
        std::mem::swap(&mut taken, &mut self.header.proof);
        proof {
            assert(self@ =~= cleared(old(self)@));
        }
        taken
    }

    /// Replaces the proof field with the given bytes.
    pub fn set_proof(&mut self, proof: Vec<u8>)
        ensures
            final(self)@ == with_proof(old(self)@, proof@),
    {
        self.header.proof = proof;
    }

    /// An identical copy of the block.
    pub fn duplicate(&self) -> (r: Block)
        ensures
            r@ == self@,
    {
        let mut prevhash: Vec<u8> = Vec::new();
        append_bytes(&mut prevhash, self.header.prevhash.as_slice());
        let mut proof: Vec<u8> = Vec::new();
        append_bytes(&mut proof, self.header.proof.as_slice());
        let mut body: Vec<u8> = Vec::new();
        append_bytes(&mut body, self.body.as_slice());
        let r = Block {
            header: BlockHeader {
                prevhash,
                timestamp: self.header.timestamp,
                height: self.header.height,
                proof,
            },
            body,
        };
        proof {
            assert(r@.header.prevhash =~= self@.header.prevhash);
            assert(r@.header.proof =~= self@.header.proof);
            assert(r@.body =~= self@.body);
            assert(r@ =~= self@);
        }
        r
    }
}

} // verus!
