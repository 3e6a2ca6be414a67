//! One worker's search loop: walk a private fee range in batches, sign and
//! test each candidate, poll the shared cancellation flag, and claim
//! first-match-wins through an atomic swap.

use vstd::prelude::*;
use core::sync::atomic::{AtomicBool, Ordering};

use crate::fees::{candidate_at, generate_batch, sat_add_u64};
use crate::hexfmt::{matches_spec, prefix_matches};
use crate::signer::{key_scalar_valid, sign_candidate, spec_signed_bytes, spec_signed_hash};
use crate::tx::{make_outcome, total_fee_spec, FeeCandidate, SearchOutcome, SignError, TxTemplate};

verus! {

/// What the winning outcome of a worker says: it is the signed candidate for
/// `fee`, its hash matches the target prefix, and its total fee cost is gas
/// limit times the candidate's max fee.
pub open spec fn winning_outcome(
    key: Seq<u8>,
    template: TxTemplate,
    fee: FeeCandidate,
    prefix: Seq<u8>,
    o: SearchOutcome,
) -> bool {
    &&& o.candidate.bytes@ == spec_signed_bytes(key, template, fee)
    &&& o.candidate.hash@ == spec_signed_hash(key, template, fee)
    &&& o.candidate.max_fee_per_gas == fee.max_fee_per_gas
    &&& o.total_fee_wei == total_fee_spec(template.gas_limit, fee.max_fee_per_gas)
    &&& matches_spec(o.candidate.hash@, prefix)
}

/// One worker's search. Starting at `start_base_fee`, it generates batches
/// of candidate fees, signs each candidate, and tests the rendered hash
/// against the target prefix, polling the shared cancellation flag before
/// each candidate. On a match it swaps the flag: only the worker whose swap
/// observed the flag still clear returns its outcome; a worker that found a
/// match an instant too late discards it and returns empty-handed, as does
/// one that observes cancellation or exhausts its batch budget. A candidate
/// the signer refuses is skipped; a key no signer accepts ends the worker
/// with the error. The budget bounds the loop, so a search for an
/// unreachable prefix ends rather than hangs.
pub fn run_worker(
    template: &TxTemplate,
    key: &Vec<u8>,
    prefix: &Vec<u8>,
    start_base_fee: u64,
    priority_fee: u64,
    batch_size: usize,
    max_batches: usize,
    flag: &AtomicBool,
) -> (r: Result<Option<SearchOutcome>, SignError>)
    requires
        key@.len() == 32,
        2 * template.chain_id + 36 <= u64::MAX,
    ensures
        r matches Ok(s) ==> (s matches Some(o) ==> exists|k: int|
            0 <= k < max_batches * batch_size && winning_outcome(
                key@,
                *template,
                candidate_at(start_base_fee, k, priority_fee),
                prefix@,
                o,
            )),
        r matches Err(e) ==> e == SignError::InvalidKey && !key_scalar_valid(key@),
{
    let mut cursor = start_base_fee;
    let mut b: usize = 0;
    while b < max_batches
        invariant
            b <= max_batches,
            cursor == sat_add_u64(start_base_fee as int, (b * batch_size) as int),
            key@.len() == 32,
            2 * template.chain_id + 36 <= u64::MAX,
        decreases max_batches - b,
    {
        let (batch, next_cursor) = generate_batch(cursor, batch_size, priority_fee);
        let mut i: usize = 0;
        while i < batch_size
            invariant
                i <= batch_size,
                b < max_batches,
                batch@.len() == batch_size,
                forall|m: int|
                    0 <= m < batch_size ==> batch@[m] == candidate_at(cursor, m, priority_fee),
                cursor == sat_add_u64(start_base_fee as int, (b * batch_size) as int),
                key@.len() == 32,
                2 * template.chain_id + 36 <= u64::MAX,
            decreases batch_size - i,
        {
            if flag.load(Ordering::Relaxed) {
                return Ok(None);
            }
            let fee = batch[i];
            match sign_candidate(key, template, &fee) {
                Ok(c) => {
                    if prefix_matches(&c.hash, prefix) {
                        let was_set = flag.swap(true, Ordering::Relaxed);
                        if !was_set {
                            let o = make_outcome(c, template.gas_limit);
                            proof {
                                assert((b + 1) * batch_size <= max_batches * batch_size)
                                    by (nonlinear_arith)
                                    requires
                                        b + 1 <= max_batches,
                                        0 <= batch_size,
                                ;
                                assert((b + 1) * batch_size == b * batch_size + batch_size)
                                    by (nonlinear_arith);
                                let k = b * batch_size + i;
                                assert(candidate_at(start_base_fee, k, priority_fee)
                                    == candidate_at(cursor, i as int, priority_fee));
                                assert(winning_outcome(
                                    key@,
                                    *template,
                                    candidate_at(start_base_fee, k, priority_fee),
                                    prefix@,
                                    o,
                                ));
                            }
                            return Ok(Some(o));
                        } else {
                            return Ok(None);
                        }
                    }
                },
                Err(e) => {
                    match e {
                        SignError::InvalidKey => {
                            return Err(SignError::InvalidKey);
                        },
                        SignError::Rejected => {},
                    }
                },
            }
            i += 1;
        }
        proof {
            assert((b + 1) * batch_size == b * batch_size + batch_size) by (nonlinear_arith);
        }
        cursor = next_cursor;
        b += 1;
    }
    Ok(None)
}

} // verus!
