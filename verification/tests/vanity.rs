//! The search engine on stub candidates: rendering, matching, fee batches,
//! and first-match-wins coordination.

use vanity_tx::coordinator::{scan_signed_batch, Coordinator};
use vanity_tx::fees::{generate_batch, worker_start_offset};
use vanity_tx::hexfmt::{prefix_matches, rendered_hash};
use vanity_tx::tx::{make_outcome, SignedCandidate};

fn stub_candidate(hash: Vec<u8>, max_fee: u64) -> SignedCandidate {
    SignedCandidate { bytes: vec![0xde, 0xad], hash, max_fee_per_gas: max_fee }
}

#[test]
fn rendered_hash_is_marker_plus_lowercase_hex() {
    let hash = vec![0x00u8, 0xab, 0x5f, 0xff];
    assert_eq!(rendered_hash(&hash), b"0x00ab5fff".to_vec());
    assert_eq!(rendered_hash(&Vec::new()), b"0x".to_vec());
}

#[test]
fn empty_prefix_matches_any_hash() {
    assert!(prefix_matches(&vec![0x12u8, 0x34], &Vec::new()));
    assert!(prefix_matches(&Vec::new(), &Vec::new()));
}

#[test]
fn prefix_is_tested_against_marked_rendering() {
    let hash = vec![0x00u8, 0xab];
    assert!(prefix_matches(&hash, &b"0x00ab".to_vec()));
    assert!(prefix_matches(&hash, &b"0x00".to_vec()));
    assert!(prefix_matches(&hash, &b"0".to_vec()));
    // without the marker, the digits alone do not match
    assert!(!prefix_matches(&hash, &b"00".to_vec()));
    // the rendering is lowercase
    assert!(!prefix_matches(&hash, &b"0x00AB".to_vec()));
    // a prefix longer than the rendering never matches
    assert!(!prefix_matches(&hash, &b"0x00ab12".to_vec()));
}

#[test]
fn batch_is_consecutive_and_advances_cursor() {
    let (batch, next) = generate_batch(100, 5, 3);
    assert_eq!(batch.len(), 5);
    for (k, c) in batch.iter().enumerate() {
        assert_eq!(c.max_fee_per_gas, 100 + k as u64 + 3);
        assert_eq!(c.max_priority_fee_per_gas, 3);
    }
    assert_eq!(next, 105);
}

#[test]
fn batch_saturates_at_the_top_of_the_fee_range() {
    let (batch, next) = generate_batch(u64::MAX - 1, 3, 5);
    assert_eq!(batch.len(), 3);
    // base fees MAX-1, MAX, MAX: capped instead of wrapping
    assert_eq!(batch[0].max_fee_per_gas, u64::MAX);
    assert_eq!(batch[1].max_fee_per_gas, u64::MAX);
    assert_eq!(batch[2].max_fee_per_gas, u64::MAX);
    assert_eq!(next, u64::MAX);
}

#[test]
fn worker_ranges_are_disjoint() {
    let spacing = 1000u64;
    let s0 = worker_start_offset(0, spacing);
    let s1 = worker_start_offset(1, spacing);
    let s2 = worker_start_offset(2, spacing);
    assert_eq!(s0, 0);
    assert_eq!(s1, 1000);
    assert_eq!(s2, 2000);
    // workers that each walk fewer values than the spacing never collide
    for a in 0..100u64 {
        for b in 0..100u64 {
            assert_ne!(s0 + a, s1 + b);
            assert_ne!(s1 + a, s2 + b);
        }
    }
}

#[test]
fn at_most_one_claim_is_accepted() {
    let mut coord = Coordinator::new();
    let mut accepted = 0;
    for k in 0..5u64 {
        let outcome = make_outcome(stub_candidate(vec![k as u8; 32], k + 1), 21000);
        if coord.try_claim(outcome) {
            accepted += 1;
        }
    }
    assert_eq!(accepted, 1);
    let winner = coord.take_result().expect("one outcome is published");
    // the first claim won; the rest were discarded
    assert_eq!(winner.candidate.max_fee_per_gas, 1);
    // a published outcome is consumed at most once
    assert!(coord.take_result().is_none());
}

#[test]
fn injected_cancellation_blocks_claims() {
    let mut coord = Coordinator::new();
    coord.cancel();
    assert!(!coord.try_claim(make_outcome(stub_candidate(vec![0; 32], 9), 1)));
    assert!(coord.take_result().is_none());
}

#[test]
fn first_matching_candidate_wins_end_to_end() {
    // Template nonce 5, gas limit 21000, chain id 1; target prefix "0x00";
    // two workers with batches of four. The second worker's fee value 7
    // hashes to 0x00ab..., everything else misses. Only the fee and the
    // hash take part here; the stub hashes stand in for the signer.
    let gas_limit = 21000u64;
    let prefix = b"0x00".to_vec();
    let miss = |seed: u8| {
        let mut h = vec![0x11u8; 32];
        h[1] = seed;
        h
    };
    let mut winning_hash = vec![0u8; 32];
    winning_hash[1] = 0xab;
    let worker0: Vec<SignedCandidate> =
        (0..4u64).map(|k| stub_candidate(miss(k as u8), k)).collect();
    let worker1: Vec<SignedCandidate> = (4..8u64)
        .map(|k| {
            if k == 7 {
                stub_candidate(winning_hash.clone(), 7)
            } else {
                stub_candidate(miss(k as u8), k)
            }
        })
        .collect();

    let mut coord = Coordinator::new();
    // worker zero finds nothing and never publishes
    assert!(scan_signed_batch(&worker0, &prefix, gas_limit, &mut coord).is_none());
    // worker one claims with its fourth candidate, fee value 7
    assert_eq!(scan_signed_batch(&worker1, &prefix, gas_limit, &mut coord), Some(3));
    let outcome = coord.take_result().expect("the claimer published");
    assert_eq!(outcome.candidate.hash, winning_hash);
    assert_eq!(outcome.candidate.max_fee_per_gas, 7);
    assert_eq!(outcome.total_fee_wei, 21000u128 * 7);
    // a later batch observes the cancellation and is not scanned
    assert!(scan_signed_batch(&worker1, &prefix, gas_limit, &mut coord).is_none());
}
