use consensus::block::{Block, BlockHeader};
use consensus::codec::{block_digest, serialize_block};
use consensus::consensus::{
    step, validate_block, mint_block, Action, ConsensusMsg, LoopEvent, LoopState,
};
use consensus::engine::ProofEngine;
use consensus::wire::{decode_u64_be, encode_u64_be};

fn bare_block(height: u64) -> Block {
    Block {
        header: BlockHeader {
            prevhash: vec![7; 32],
            timestamp: 1000 + height,
            height,
            proof: vec![],
        },
        body: vec![height as u8; 4],
    }
}

fn proven_block(height: u64, engine: &ProofEngine) -> (Block, u64) {
    let mut b = bare_block(height);
    let digest = block_digest(&b);
    let n = engine.mint(&digest).expect("search must succeed at this target");
    b.set_proof(encode_u64_be(n));
    (b, n)
}

#[test]
fn malformed_proof_lengths_take_no_downstream_action() {
    let engine = ProofEngine::new(0, 10);
    for len in [0usize, 1, 7, 9, 16] {
        let mut b = bare_block(1);
        b.set_proof(vec![0; len]);
        assert!(validate_block(&b, &engine).is_none());
        let (state, action) = step(LoopState::Idle, LoopEvent::Inbound(ConsensusMsg::BLOCK(b)), &engine);
        assert!(matches!(state, LoopState::Idle));
        assert!(matches!(action, Action::NoAction));
    }
}

#[test]
fn proof_round_trip_revalidates() {
    let engine = ProofEngine::new(4, 1_000_000);
    let (mut b, n) = proven_block(3, &engine);
    // Decode the attached proof again and re-verify: same verdict.
    let accepted = validate_block(&b, &engine).expect("minted proof must validate");
    assert_eq!(accepted.header.proof, b.header.proof);
    let proof = b.take_proof();
    assert_eq!(decode_u64_be(&proof), n);
    let digest = block_digest(&b);
    assert!(engine.verify(&digest, n));
}

#[test]
fn end_to_end_validation_scenario() {
    let engine = ProofEngine::new(4, 1_000_000);
    let (b, n) = proven_block(9, &engine);

    // The well-proven block triggers exactly one downstream submission,
    // carrying the original proof-attached block.
    let event = LoopEvent::Inbound(ConsensusMsg::BLOCK(b));
    let (state, action) = step(LoopState::Idle, event, &engine);
    assert!(matches!(state, LoopState::Idle));
    match action {
        Action::SubmitVerify { block } => {
            assert_eq!(block.header.height, 9);
            assert_eq!(block.header.proof, encode_u64_be(n));
        }
        _ => panic!("expected a submission"),
    }

    // The same block with a wrong nonce triggers nothing.
    let mut cleared = bare_block(9);
    let digest = block_digest(&cleared);
    let bad = (0..).find(|k| !engine.verify(&digest, *k)).unwrap();
    cleared.set_proof(encode_u64_be(bad));
    let event = LoopEvent::Inbound(ConsensusMsg::BLOCK(cleared));
    let (state, action) = step(LoopState::Idle, event, &engine);
    assert!(matches!(state, LoopState::Idle));
    assert!(matches!(action, Action::NoAction));
}

#[test]
fn liveness_under_outage() {
    let engine = ProofEngine::new(0, 10);
    let outage_ticks = 3;
    let mut state = LoopState::Idle;
    for _ in 0..outage_ticks {
        let (s, action) = step(state, LoopEvent::Tick, &engine);
        assert!(matches!(action, Action::FetchProposal { height: 0 }));
        let (s2, action) = step(s, LoopEvent::ProposalReply(None), &engine);
        // A failed fetch consumes the tick with no side effect.
        assert!(matches!(action, Action::NoAction));
        assert!(matches!(s2, LoopState::Idle));
        state = s2;
    }
    // The first cycle after recovery proceeds normally.
    let (s, action) = step(state, LoopEvent::Tick, &engine);
    assert!(matches!(action, Action::FetchProposal { height: 0 }));
    let proposal = bare_block(1);
    let (s2, action) = step(s, LoopEvent::ProposalReply(Some(proposal)), &engine);
    assert!(matches!(s2, LoopState::Idle));
    match action {
        Action::Publish { block, message } => {
            assert_eq!(block.header.proof, encode_u64_be(0));
            assert_eq!(message.module, "consensus");
            assert_eq!(message.msg_type, "proposal");
            assert_eq!(message.payload, serialize_block(&block));
        }
        _ => panic!("expected a publication"),
    }
}

#[test]
fn mint_block_attaches_found_nonce() {
    let engine = ProofEngine::new(4, 1_000_000);
    let proposal = bare_block(2);
    let digest = block_digest(&proposal);
    let n = engine.mint(&digest).expect("search must succeed at this target");
    let (minted, message) = mint_block(proposal, &engine).expect("minting must succeed");
    assert_eq!(minted.header.proof, encode_u64_be(n));
    assert_eq!(message.payload, serialize_block(&minted));
    // The minted block passes the validation path at the same target.
    assert!(validate_block(&minted, &engine).is_some());
}

#[test]
fn mint_block_reports_exhausted_search() {
    let engine = ProofEngine::new(512, 20);
    let proposal = bare_block(4);
    assert!(mint_block(proposal, &engine).is_none());
}

#[test]
fn queued_events_process_in_order() {
    // Events that queued while a search ran are consumed one at a time, in
    // order, none dropped.
    let engine = ProofEngine::new(4, 1_000_000);
    let heights = [11u64, 12, 13];
    let mut queued: Vec<LoopEvent> = Vec::new();
    for h in heights {
        let (b, _) = proven_block(h, &engine);
        queued.push(LoopEvent::Inbound(ConsensusMsg::BLOCK(b)));
    }
    let mut seen: Vec<u64> = Vec::new();
    let mut state = LoopState::Idle;
    for event in queued {
        let (s, action) = step(state, event, &engine);
        state = s;
        match action {
            Action::SubmitVerify { block } => seen.push(block.header.height),
            _ => panic!("every queued block was well-proven"),
        }
    }
    assert_eq!(seen, heights.to_vec());
}

#[test]
fn reconfigure_is_accepted_and_discarded() {
    let engine = ProofEngine::new(4, 10);
    let cfg = consensus::consensus::ConsensusConfiguration {
        height: 8,
        block_interval: 6,
        validators: vec![vec![1, 2, 3]],
    };
    let (state, action) = step(
        LoopState::Idle,
        LoopEvent::Inbound(ConsensusMsg::CONFIG(cfg)),
        &engine,
    );
    assert!(matches!(state, LoopState::Idle));
    assert!(matches!(action, Action::NoAction));
}
