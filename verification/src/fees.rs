//! Partitioning the base-fee search space across workers and generating
//! batches of fee candidates from a per-worker cursor.

use vstd::prelude::*;

use crate::tx::FeeCandidate;

verus! {

/// `a + b`, capped at the largest base fee the search can represent.
pub open spec fn sat_add_u64(a: int, b: int) -> u64
    recommends
        0 <= a,
        0 <= b,
{
    if a + b > u64::MAX {
        u64::MAX
    } else {
        (a + b) as u64
    }
}

/// The starting base-fee offset of worker `index`.
///
/// Spacing is a fixed constant chosen large, not computed: if one worker
/// walks more than `spacing` values before any match is found, it starts
/// colliding with the next worker's range. That boundary is accepted, and
/// `lemma_worker_ranges_disjoint` states disjointness only below it.
pub fn worker_start_offset(index: u64, spacing: u64) -> (r: u64)
    requires
        index * spacing <= u64::MAX,
    ensures
        r == index * spacing,
{
    index * spacing
}

/// Fee ranges of distinct workers are pairwise disjoint: as long as every
/// worker has tested fewer than `count` values, with `count` at most the
/// spacing, no two workers ever test the same base-fee offset.
pub proof fn lemma_worker_ranges_disjoint(
    i: int,
    j: int,
    spacing: int,
    count: int,
    a: int,
    b: int,
)
    requires
        0 <= i,
        0 <= j,
        i != j,
        0 < count <= spacing,
        0 <= a < count,
        0 <= b < count,
    ensures
        i * spacing + a != j * spacing + b,
{
    if i < j {
        assert((i + 1) * spacing == i * spacing + spacing) by (nonlinear_arith);
        assert((i + 1) * spacing <= j * spacing) by (nonlinear_arith)
            requires
                i + 1 <= j,
                0 <= spacing,
        ;
    } else {
        assert((j + 1) * spacing == j * spacing + spacing) by (nonlinear_arith);
        assert((j + 1) * spacing <= i * spacing) by (nonlinear_arith)
            requires
                j + 1 <= i,
                0 <= spacing,
        ;
    }
}

/// Distinct workers never sign an identical fee pair: with a common starting
/// base fee and priority fee, and every walked value below the saturation
/// cap, the max-fee values two different workers derive are pairwise
/// distinct as long as each has walked fewer values than the spacing.
pub proof fn lemma_worker_fee_pairs_disjoint(
    start: u64,
    i: int,
    j: int,
    spacing: int,
    count: int,
    a: int,
    b: int,
    priority_fee: u64,
)
    requires
        0 <= i,
        0 <= j,
        i != j,
        0 < count <= spacing,
        0 <= a < count,
        0 <= b < count,
        start + i * spacing + spacing + priority_fee <= u64::MAX,
        start + j * spacing + spacing + priority_fee <= u64::MAX,
    ensures
        candidate_at(sat_add_u64(start as int, i * spacing), a, priority_fee).max_fee_per_gas
            != candidate_at(sat_add_u64(start as int, j * spacing), b, priority_fee).max_fee_per_gas,
{
    lemma_worker_ranges_disjoint(i, j, spacing, count, a, b);
}

/// The base fee of the `k`-th candidate generated from `cursor`.
pub open spec fn base_fee_at(cursor: u64, k: int) -> u64 {
    sat_add_u64(cursor as int, k)
}

/// The fee candidate built from the `k`-th base fee after `cursor` and the
/// fixed priority fee.
pub open spec fn candidate_at(cursor: u64, k: int, priority_fee: u64) -> FeeCandidate {
    FeeCandidate {
        max_fee_per_gas: sat_add_u64(base_fee_at(cursor, k) as int, priority_fee as int),
        max_priority_fee_per_gas: priority_fee,
    }
}

/// Produces `batch_size` fee candidates with consecutive base fees starting
/// at `cursor`, each paired with the same priority fee, and the cursor
/// advanced past the batch. Base fees saturate at the top of the
/// representable range instead of wrapping; below that bound they are
/// strictly increasing, and no value is reordered or skipped.
pub fn generate_batch(cursor: u64, batch_size: usize, priority_fee: u64) -> (r: (
    Vec<FeeCandidate>,
    u64,
))
    ensures
        r.0@.len() == batch_size,
        forall|k: int| 0 <= k < batch_size ==> r.0@[k] == candidate_at(cursor, k, priority_fee),
        r.1 == sat_add_u64(cursor as int, batch_size as int),
{
    let mut out: Vec<FeeCandidate> = Vec::new();
    let mut base: u64 = cursor;
    let mut k: usize = 0;
    while k < batch_size
        invariant
            k <= batch_size,
            out@.len() == k,
            base == sat_add_u64(cursor as int, k as int),
            forall|m: int| 0 <= m < k ==> out@[m] == candidate_at(cursor, m, priority_fee),
        decreases batch_size - k,
    {
        let max_fee = base.saturating_add(priority_fee);
        out.push(
            FeeCandidate { max_fee_per_gas: max_fee, max_priority_fee_per_gas: priority_fee },
        );
        base = base.saturating_add(1);
        k += 1;
    }
    (out, base)
}

} // verus!
