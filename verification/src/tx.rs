//! The data the search works on: the immutable transaction template, one
//! point of the fee space, a signed candidate, and the winning outcome.

use vstd::prelude::*;

verus! {

/// The immutable part of the transaction under search: a contract-creation
/// transaction (no destination), built once and shared read-only by every
/// worker.
pub struct TxTemplate {
    /// Call data of the creation transaction.
    pub payload: Vec<u8>,
    /// The sender's transaction counter.
    pub nonce: u64,
    /// The most gas the transaction may consume.
    pub gas_limit: u64,
    /// The chain the transaction is scoped to.
    pub chain_id: u64,
}

/// One point of the fee search space: what the sender offers per unit of
/// gas, in the chain's smallest unit.
#[derive(Clone, Copy, PartialEq, Eq, Structural)]
pub struct FeeCandidate {
    /// The most the sender pays per unit of gas.
    pub max_fee_per_gas: u64,
    /// The part of the fee offered to the block producer.
    pub max_priority_fee_per_gas: u64,
}

/// One signed candidate: its wire-encoded bytes, its 32-byte hash, and the
/// fee it was built with.
pub struct SignedCandidate {
    /// The signed transaction, ready for raw broadcast.
    pub bytes: Vec<u8>,
    /// The transaction hash.
    pub hash: Vec<u8>,
    /// The max fee per gas the candidate offers.
    pub max_fee_per_gas: u64,
}

impl SignedCandidate {
    /// A candidate is well formed when its hash has the fixed digest width.
    pub open spec fn wf(self) -> bool {
        self.hash@.len() == 32
    }

    /// A copy of the candidate: same bytes, same hash, same fee.
    pub fn duplicate(&self) -> (r: SignedCandidate)
        ensures
            r.bytes@ == self.bytes@,
            r.hash@ == self.hash@,
            r.max_fee_per_gas == self.max_fee_per_gas,
    {
        let bytes = self.bytes.clone();
        let hash = self.hash.clone();
        proof {
            assert(bytes@ =~= self.bytes@);
            assert(hash@ =~= self.hash@);
        }
        SignedCandidate { bytes, hash, max_fee_per_gas: self.max_fee_per_gas }
    }
}

/// The winning candidate together with the total fee cost it commits to.
pub struct SearchOutcome {
    /// The candidate that won the search.
    pub candidate: SignedCandidate,
    /// Gas limit times max fee per gas, in the chain's smallest unit.
    pub total_fee_wei: u128,
}

/// The total fee cost a candidate commits to: gas limit times max fee per
/// gas. The product of two 64-bit values always fits here.
pub open spec fn total_fee_spec(gas_limit: u64, max_fee_per_gas: u64) -> u128 {
    (gas_limit * max_fee_per_gas) as u128
}

/// Builds the search outcome from the winning candidate.
pub fn make_outcome(candidate: SignedCandidate, gas_limit: u64) -> (r: SearchOutcome)
    ensures
        r.candidate == candidate,
        r.total_fee_wei == total_fee_spec(gas_limit, candidate.max_fee_per_gas),
{
    proof {
        assert(gas_limit as int * candidate.max_fee_per_gas as int <= u128::MAX)
            by (nonlinear_arith)
            requires
                gas_limit <= u64::MAX,
                candidate.max_fee_per_gas <= u64::MAX,
        ;
    }
    let total: u128 = (gas_limit as u128) * (candidate.max_fee_per_gas as u128);
    SearchOutcome { candidate, total_fee_wei: total }
}

/// Why signing one candidate failed.
#[derive(Clone, Copy, PartialEq, Eq, Structural, Debug)]
pub enum SignError {
    /// The private key is not a valid signing key; no candidate will ever
    /// sign, so the worker reports instead of retrying.
    InvalidKey,
    /// The signer refused this candidate; the search skips it and goes on.
    Rejected,
}

} // verus!
