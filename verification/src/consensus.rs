//! The consensus loop's decision core.
//!
//! The loop reconciles two timing sources — inbound messages from peers and
//! a fixed-interval production tick — into one serialized decision process.
//! The surrounding process owns the blocking select, the channel and the
//! downstream calls; it feeds each event into `step` and performs the action
//! `step` returns. Everything the loop decides is therefore verified here,
//! for every event value the process could hand in.

use vstd::prelude::*;
use crate::block::{Block, BlockModel, cleared, with_proof, lemma_cleared_ignores_proof};
use crate::codec::{content_digest, serial_of, serialize_block, block_digest};
use crate::engine::{
    ProofEngine, nonce_valid, first_valid_nonce, lemma_first_valid_nonce_from,
};
use crate::wire::{
    NONCE_BYTES, u64_be_bytes, u64_from_be, encode_u64_be, decode_u64_be,
    lemma_u64_be_round_trip,
};

verus! {

broadcast use vstd::string::to_string_from_display_ensures_for_str;

/// Seconds between two production ticks.
pub const BLOCK_INTERVAL_SECS: u64 = 3;

/// The process-wide difficulty target, fixed at startup.
pub const DIFFICULTY_TARGET: u64 = 4;

/// How many nonces one mint search tries before giving up.
pub const MINT_SEARCH_LIMIT: u64 = 1000000;

/// A reconfiguration request from a peer. Received and acknowledged, but by
/// design it changes nothing in the loop yet.
pub struct ConsensusConfiguration {
    pub height: u64,
    pub block_interval: u64,
    pub validators: Vec<Vec<u8>>,
}

/// An inbound consensus event from the ingress adapter.
#[allow(non_camel_case_types)]
pub enum ConsensusMsg {
    BLOCK(Block),
    CONFIG(ConsensusConfiguration),
}

/// An outbound peer message: a module tag, a message type tag, and the
/// serialized payload.
pub struct NetworkMessage {
    pub module: String,
    pub msg_type: String,
    pub payload: Vec<u8>,
}

/// Where the loop stands: idle between events, or waiting for the proposal
/// it requested on the last tick. The loop never starts a second proposal
/// attempt while one is outstanding.
#[derive(Clone, Copy, PartialEq, Eq, Structural)]
pub enum LoopState {
    Idle,
    AwaitingProposal,
}

/// One event the loop wakes on: an inbound message, a production tick, or
/// the reply to the proposal request issued by the last tick.
pub enum LoopEvent {
    Inbound(ConsensusMsg),
    Tick,
    ProposalReply(Option<Block>),
}

/// What the loop asks the process to do after an event: nothing, fetch a
/// proposal at a height, submit a block for downstream verification, or
/// publish a freshly minted block (submit it and broadcast the message).
/// Every downstream call is best-effort: its outcome feeds nothing back.
pub enum Action {
    NoAction,
    FetchProposal { height: u64 },
    SubmitVerify { block: Block },
    Publish { block: Block, message: NetworkMessage },
}

/// A block's attached proof is good wire proof at a target: the proof field
/// is exactly the nonce width, and the nonce it encodes is valid for the
/// digest of the proof-cleared block.
pub open spec fn valid_wire_proof(m: BlockModel, target: u64) -> bool {
    &&& m.header.proof.len() == NONCE_BYTES
    &&& nonce_valid(content_digest(cleared(m)), u64_from_be(m.header.proof), target)
}

/// A proof field of any length other than the nonce width never validates,
/// whatever its bytes and whatever the target.
pub proof fn lemma_malformed_proof_rejected(m: BlockModel, target: u64)
    requires
        m.header.proof.len() != NONCE_BYTES,
    ensures
        !valid_wire_proof(m, target),
{
}

/// Encoding a valid nonce into the proof-cleared block round-trips: the
/// block that carries the nonce's 8 wire bytes passes proof validation at
/// the same target.
pub proof fn lemma_proof_round_trip(m: BlockModel, nonce: u64, target: u64)
    requires
        nonce_valid(content_digest(cleared(m)), nonce, target),
    ensures
        valid_wire_proof(with_proof(cleared(m), u64_be_bytes(nonce)), target),
{
    let attached = with_proof(cleared(m), u64_be_bytes(nonce));
    lemma_u64_be_round_trip(nonce);
    lemma_cleared_ignores_proof(cleared(m), u64_be_bytes(nonce));
    assert(cleared(cleared(m)) =~= cleared(m));
    assert(cleared(attached) == cleared(m));
}

/// A block minted from any block's cleared form validates: whenever the
/// nonce search succeeds, attaching the found nonce's wire bytes yields a
/// block that passes proof validation at the same target.
pub proof fn lemma_minted_block_validates(m: BlockModel, target: u64, limit: int)
    requires
        0 <= limit <= u64::MAX as int + 1,
    ensures
        match first_valid_nonce(content_digest(cleared(m)), target, limit) {
            Some(n) => valid_wire_proof(with_proof(cleared(m), u64_be_bytes(n)), target),
            None => true,
        },
{
    lemma_first_valid_nonce_from(content_digest(cleared(m)), target, 0, limit);
    match first_valid_nonce(content_digest(cleared(m)), target, limit) {
        Some(n) => lemma_proof_round_trip(m, n, target),
        None => (),
    }
}

/// The validation path for a received block: accept it exactly when its
/// proof field is 8 bytes and the encoded nonce is valid for the digest of
/// the proof-cleared block; hand back the original proof-attached block.
pub fn validate_block(b: &Block, engine: &ProofEngine) -> (r: Option<Block>)
    ensures
        match r {
            Some(accepted) => valid_wire_proof(b@, engine.target) && accepted@ == b@,
            None => !valid_wire_proof(b@, engine.target),
        },
{
    let mut work = b.duplicate();
    let proof_bytes = work.take_proof();
    if proof_bytes.len() != NONCE_BYTES {
        return None;
    }
    let nonce = decode_u64_be(proof_bytes.as_slice());
    let digest = block_digest(&work);
    if engine.verify(digest.as_slice(), nonce) {
        Some(b.duplicate())
    } else {
        None
    }
}

/// The minting path for a fetched proposal: search for a nonce over the
/// digest of the proof-cleared proposal; on success return the proposal with
/// the nonce's wire bytes attached, beside the broadcast message carrying
/// the proof-attached block's canonical bytes.
pub fn mint_block(proposal: Block, engine: &ProofEngine) -> (r: Option<(Block, NetworkMessage)>)
    ensures
        match r {
            Some(pair) => match first_valid_nonce(
                content_digest(cleared(proposal@)),
                engine.target,
                engine.search_limit as int,
            ) {
                Some(n) => {
                    &&& pair.0@ == with_proof(cleared(proposal@), u64_be_bytes(n))
                    &&& pair.1.module@ == "consensus"@
                    &&& pair.1.msg_type@ == "proposal"@
                    &&& pair.1.payload@ == serial_of(pair.0@)
                },
                None => false,
            },
            None => first_valid_nonce(
                content_digest(cleared(proposal@)),
                engine.target,
                engine.search_limit as int,
            ) is None,
        },
{
    let mut work = proposal;
    let _discarded = work.take_proof();
    let digest = block_digest(&work);
    match engine.mint(digest.as_slice()) {
        Some(n) => {
            let proof_bytes = encode_u64_be(n);
            work.set_proof(proof_bytes);
            let payload = serialize_block(&work);
            let message = NetworkMessage {
                module: "consensus".to_string(),
                msg_type: "proposal".to_string(),
                payload,
            };
            Some((work, message))
        },
        None => None,
    }
}

/// The state the loop is in after an event: a tick leaves it awaiting the
/// proposal it asked for; every other event returns it to idle.
pub open spec fn next_state(event: LoopEvent) -> LoopState {
    match event {
        LoopEvent::Tick => LoopState::AwaitingProposal,
        _ => LoopState::Idle,
    }
}

/// Whether an event makes the loop publish: only a successful proposal
/// reply whose nonce search succeeds does.
pub open spec fn event_publishes(event: LoopEvent, target: u64, limit: int) -> bool {
    match event {
        LoopEvent::ProposalReply(Some(p)) => first_valid_nonce(
            content_digest(cleared(p@)),
            target,
            limit,
        ) is Some,
        _ => false,
    }
}

/// One iteration of the consensus loop: consumes the event the select woke
/// on and decides the next state and the single action to perform. A
/// proposal reply arrives exactly while a proposal is outstanding.
pub fn step(state: LoopState, event: LoopEvent, engine: &ProofEngine) -> (r: (LoopState, Action))
    requires
        (state is AwaitingProposal) <==> (event is ProposalReply),
    ensures
        r.0 == next_state(event),
        (r.1 is Publish) == event_publishes(event, engine.target, engine.search_limit as int),
        match event {
            LoopEvent::Inbound(msg) => match msg {
                ConsensusMsg::BLOCK(b) => match r.1 {
                    Action::SubmitVerify { block } => valid_wire_proof(b@, engine.target)
                        && block@ == b@,
                    Action::NoAction => !valid_wire_proof(b@, engine.target),
                    _ => false,
                },
                ConsensusMsg::CONFIG(_) => r.1 is NoAction,
            },
            LoopEvent::Tick => match r.1 {
                Action::FetchProposal { height } => height == 0,
                _ => false,
            },
            LoopEvent::ProposalReply(opt) => match opt {
                None => r.1 is NoAction,
                Some(p) => match r.1 {
                    Action::Publish { block, message } => match first_valid_nonce(
                        content_digest(cleared(p@)),
                        engine.target,
                        engine.search_limit as int,
                    ) {
                        Some(n) => {
                            &&& block@ == with_proof(cleared(p@), u64_be_bytes(n))
                            &&& message.module@ == "consensus"@
                            &&& message.msg_type@ == "proposal"@
                            &&& message.payload@ == serial_of(block@)
                        },
                        None => false,
                    },
                    Action::NoAction => first_valid_nonce(
                        content_digest(cleared(p@)),
                        engine.target,
                        engine.search_limit as int,
                    ) is None,
                    _ => false,
                },
            },
        },
{
    match event {
        LoopEvent::Inbound(msg) => match msg {
            ConsensusMsg::BLOCK(b) => match validate_block(&b, engine) {
                Some(accepted) => (LoopState::Idle, Action::SubmitVerify { block: accepted }),
                None => (LoopState::Idle, Action::NoAction),
            },
            // A reconfiguration is accepted and discarded: by design it
            // changes neither the target nor the interval yet.
            ConsensusMsg::CONFIG(_) => (LoopState::Idle, Action::NoAction),
        },
        LoopEvent::Tick => (
            LoopState::AwaitingProposal,
            Action::FetchProposal { height: 0 },
        ),
        LoopEvent::ProposalReply(opt) => match opt {
            None => (LoopState::Idle, Action::NoAction),
            Some(p) => match mint_block(p, engine) {
                Some((block, message)) => (LoopState::Idle, Action::Publish { block, message }),
                None => (LoopState::Idle, Action::NoAction),
            },
        },
    }
}

} // verus!
