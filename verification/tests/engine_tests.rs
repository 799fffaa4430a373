use consensus::engine::{check_nonce, ProofEngine};

fn sample_digest() -> Vec<u8> {
    (0u8..64).collect()
}

#[test]
fn target_zero_accepts_everything() {
    let engine = ProofEngine::new(0, 10);
    let d = sample_digest();
    assert!(engine.verify(&d, 0));
    assert!(engine.verify(&d, 123456));
    assert_eq!(engine.mint(&d), Some(0));
}

#[test]
fn mint_finds_least_valid_nonce() {
    let engine = ProofEngine::new(4, 1_000_000);
    let d = sample_digest();
    let n = engine.mint(&d).expect("a 4-bit target is easy to meet");
    assert!(engine.verify(&d, n));
    for m in 0..n {
        assert!(!engine.verify(&d, m));
    }
}

#[test]
fn mint_gives_up_at_search_limit() {
    let strict = ProofEngine::new(512, 50);
    let d = sample_digest();
    // A 512-bit target demands an all-zero hash: no small nonce will do.
    assert_eq!(strict.mint(&d), None);
}

#[test]
fn difficulty_is_monotonic() {
    let engine = ProofEngine::new(4, 1_000_000);
    let d = sample_digest();
    let n = engine.mint(&d).expect("a 4-bit target is easy to meet");
    for weaker in 0..=4 {
        assert!(check_nonce(&d, n, weaker));
    }
}

#[test]
fn check_nonce_depends_on_digest() {
    // A nonce valid for one digest is in general not valid for another:
    // find a pair that separates them, which must exist at an 8-bit target.
    let engine = ProofEngine::new(8, 1_000_000);
    let d1 = sample_digest();
    let n = engine.mint(&d1).expect("an 8-bit target is reachable");
    let mut separated = false;
    for k in 0u8..64 {
        let d2: Vec<u8> = (0..64).map(|i| (i as u8).wrapping_add(k + 1)).collect();
        if !engine.verify(&d2, n) {
            separated = true;
            break;
        }
    }
    assert!(separated);
}
