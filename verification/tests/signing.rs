//! The signer and the worker loop against the real signing crates.

use std::sync::atomic::{AtomicBool, Ordering};

use ethers_core::types::transaction::eip1559::Eip1559TransactionRequest;
use ethers_core::types::transaction::eip2718::TypedTransaction;
use ethers_signers::LocalWallet;
use tiny_keccak::{Hasher, Keccak};

use vanity_tx::hexfmt::rendered_hash;
use vanity_tx::signer::sign_candidate;
use vanity_tx::tx::{FeeCandidate, SignError, TxTemplate};
use vanity_tx::worker::run_worker;

fn test_key() -> Vec<u8> {
    vec![0x01u8; 32]
}

fn template() -> TxTemplate {
    TxTemplate {
        payload: vec![0x60, 0x01, 0x60, 0x02],
        nonce: 5,
        gas_limit: 21000,
        chain_id: 1,
    }
}

#[test]
fn signing_is_deterministic() {
    let key = test_key();
    let t = template();
    let fee = FeeCandidate { max_fee_per_gas: 19_250_000, max_priority_fee_per_gas: 1_250_000 };
    let a = sign_candidate(&key, &t, &fee).expect("a valid key signs");
    let b = sign_candidate(&key, &t, &fee).expect("a valid key signs");
    assert_eq!(a.bytes, b.bytes);
    assert_eq!(a.hash, b.hash);
    assert_eq!(a.hash.len(), 32);
    assert_eq!(a.max_fee_per_gas, fee.max_fee_per_gas);
}

#[test]
fn signing_agrees_with_direct_assembly() {
    let key = test_key();
    let t = template();
    let fee = FeeCandidate { max_fee_per_gas: 42, max_priority_fee_per_gas: 7 };
    let ours = sign_candidate(&key, &t, &fee).expect("a valid key signs");

    let wallet = LocalWallet::from_bytes(&key).expect("a valid key");
    let tx = Eip1559TransactionRequest::new()
        .data(t.payload.clone())
        .nonce(t.nonce)
        .gas(t.gas_limit)
        .chain_id(t.chain_id)
        .max_fee_per_gas(fee.max_fee_per_gas)
        .max_priority_fee_per_gas(fee.max_priority_fee_per_gas);
    let typed = TypedTransaction::Eip1559(tx);
    let sig = wallet.sign_transaction_sync(&typed).expect("signs");
    let bytes = typed.rlp_signed(&sig).to_vec();
    let hash: [u8; 32] = typed.hash(&sig).into();

    assert_eq!(ours.bytes, bytes);
    assert_eq!(ours.hash, hash.to_vec());
}

#[test]
fn hash_is_digest_of_signed_bytes() {
    let key = test_key();
    let t = template();
    let fee = FeeCandidate { max_fee_per_gas: 42, max_priority_fee_per_gas: 7 };
    let c = sign_candidate(&key, &t, &fee).expect("a valid key signs");
    let mut hasher = Keccak::v256();
    hasher.update(&c.bytes);
    let mut out = [0u8; 32];
    hasher.finalize(&mut out);
    assert_eq!(c.hash, out.to_vec());
}

#[test]
fn zero_key_is_rejected_as_invalid() {
    let r = sign_candidate(
        &vec![0u8; 32],
        &template(),
        &FeeCandidate { max_fee_per_gas: 1, max_priority_fee_per_gas: 1 },
    );
    assert!(matches!(r, Err(SignError::InvalidKey)));
}

#[test]
fn empty_prefix_accepts_first_candidate() {
    let key = test_key();
    let t = template();
    let flag = AtomicBool::new(false);
    let r = run_worker(&t, &key, &Vec::new(), 18_000_000, 1_250_000, 4, 2, &flag)
        .expect("the worker does not fail");
    let o = r.expect("the very first candidate wins");
    assert_eq!(o.candidate.max_fee_per_gas, 18_000_000 + 1_250_000);
    assert_eq!(o.total_fee_wei, 21000u128 * (18_000_000u128 + 1_250_000u128));
    assert!(flag.load(Ordering::Relaxed));
}

#[test]
fn unreachable_prefix_exhausts_budget_and_reports_not_found() {
    // "zz" holds no hexadecimal digit, so no rendered hash can ever match;
    // the bounded budget ends the search instead of letting it hang.
    let key = test_key();
    let t = template();
    let flag = AtomicBool::new(false);
    let r = run_worker(&t, &key, &b"0xzz".to_vec(), 18_000_000, 1_250_000, 3, 2, &flag)
        .expect("the worker does not fail");
    assert!(r.is_none());
}

#[test]
fn cancelled_worker_stops_without_result() {
    let key = test_key();
    let t = template();
    let flag = AtomicBool::new(true);
    let r = run_worker(&t, &key, &Vec::new(), 0, 0, 4, 4, &flag)
        .expect("the worker does not fail");
    assert!(r.is_none());
}

#[test]
fn invalid_key_ends_the_worker() {
    let t = template();
    let flag = AtomicBool::new(false);
    let r = run_worker(&t, &vec![0u8; 32], &Vec::new(), 0, 0, 4, 1, &flag);
    assert!(matches!(r, Err(SignError::InvalidKey)));
}

#[test]
fn short_prefix_is_found_within_budget() {
    // one hex digit after the marker: expected within sixteen candidates,
    // all but certain within two thousand
    let key = test_key();
    let t = template();
    let flag = AtomicBool::new(false);
    let r = run_worker(&t, &key, &b"0x0".to_vec(), 18_000_000, 1_250_000, 256, 8, &flag)
        .expect("the worker does not fail");
    let o = r.expect("a one-digit prefix is found within the budget");
    assert!(o.candidate.hash[0] < 16);
    assert!(rendered_hash(&o.candidate.hash).starts_with(b"0x0"));
}
