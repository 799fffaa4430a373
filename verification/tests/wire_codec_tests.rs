use consensus::block::{Block, BlockHeader};
use consensus::codec::{deserialize_block, serialize_block, block_digest};
use consensus::wire::{decode_u64_be, encode_u64_be};

fn sample_block() -> Block {
    Block {
        header: BlockHeader {
            prevhash: vec![0xaa, 0xbb],
            timestamp: 7,
            height: 5,
            proof: vec![],
        },
        body: vec![1, 2, 3],
    }
}

#[test]
fn encode_nonce_known_bytes() {
    assert_eq!(encode_u64_be(42), vec![0, 0, 0, 0, 0, 0, 0, 42]);
    assert_eq!(
        encode_u64_be(0x0102030405060708),
        vec![1, 2, 3, 4, 5, 6, 7, 8]
    );
}

#[test]
fn decode_nonce_known_value() {
    assert_eq!(decode_u64_be(&[1, 2, 3, 4, 5, 6, 7, 8]), 0x0102030405060708);
    assert_eq!(decode_u64_be(&[0, 0, 0, 0, 0, 0, 0, 42]), 42);
}

#[test]
fn nonce_round_trip() {
    for x in [0u64, 1, 42, 0xdead_beef_0110_2233, u64::MAX] {
        assert_eq!(decode_u64_be(&encode_u64_be(x)), x);
    }
}

#[test]
fn serialize_block_known_bytes() {
    let b = sample_block();
    let mut expected: Vec<u8> = Vec::new();
    expected.extend(encode_u64_be(5)); // height
    expected.extend(encode_u64_be(7)); // timestamp
    expected.extend(encode_u64_be(2)); // prevhash length
    expected.extend([0xaa, 0xbb]);
    expected.extend(encode_u64_be(0)); // proof length
    expected.extend(encode_u64_be(3)); // body length
    expected.extend([1, 2, 3]);
    assert_eq!(serialize_block(&b), expected);
}

#[test]
fn block_round_trip() {
    let b = Block {
        header: BlockHeader {
            prevhash: vec![9; 32],
            timestamp: 123456789,
            height: 77,
            proof: vec![0, 0, 0, 0, 0, 0, 0, 42],
        },
        body: vec![5, 4, 3, 2, 1],
    };
    let bytes = serialize_block(&b);
    let back = deserialize_block(&bytes).expect("canonical bytes must parse");
    assert_eq!(back.header.prevhash, b.header.prevhash);
    assert_eq!(back.header.timestamp, b.header.timestamp);
    assert_eq!(back.header.height, b.header.height);
    assert_eq!(back.header.proof, b.header.proof);
    assert_eq!(back.body, b.body);
}

#[test]
fn deserialize_rejects_short_input() {
    assert!(deserialize_block(&[]).is_none());
    assert!(deserialize_block(&[0; 39]).is_none());
}

#[test]
fn deserialize_rejects_overlong_length_word() {
    let b = sample_block();
    let mut bytes = serialize_block(&b);
    // Claim a previous-hash length far past the end of the buffer.
    bytes[16] = 0xff;
    assert!(deserialize_block(&bytes).is_none());
}

#[test]
fn deserialize_rejects_trailing_bytes() {
    let b = sample_block();
    let mut bytes = serialize_block(&b);
    bytes.push(0);
    assert!(deserialize_block(&bytes).is_none());
}

#[test]
fn digest_matches_blake2b_of_canonical_bytes() {
    let b = sample_block();
    let bytes = serialize_block(&b);
    let expected = blake2b_simd::blake2b(&bytes).as_bytes().to_vec();
    let got = block_digest(&b);
    assert_eq!(got, expected);
    assert_eq!(got.len(), 64);
    assert_ne!(got, bytes);
}
