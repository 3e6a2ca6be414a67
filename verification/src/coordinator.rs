//! First-match-wins coordination: the cancellation token every worker polls,
//! and the single slot through which the claiming worker publishes.

use vstd::prelude::*;

use crate::hexfmt::{lemma_empty_prefix_matches, matches_spec, prefix_matches};
use crate::tx::{make_outcome, total_fee_spec, SearchOutcome, SignedCandidate};

verus! {

/// The coordinator state as a plain value: the cancellation flag and the
/// outcome slot.
pub ghost struct CoordView {
    pub cancelled: bool,
    pub published: Option<SearchOutcome>,
}

/// A fresh coordinator state: flag clear, slot empty.
pub open spec fn fresh_coord() -> CoordView {
    CoordView { cancelled: false, published: None }
}

/// One claim arriving at state `c`: if the flag is still clear it is set and
/// the outcome is published; otherwise nothing changes and the outcome is
/// discarded.
pub open spec fn claim_spec(c: CoordView, outcome: SearchOutcome) -> CoordView {
    if c.cancelled {
        c
    } else {
        CoordView { cancelled: true, published: Some(outcome) }
    }
}

/// The state after a run of claims arrives at `c` in order.
pub open spec fn run_claims(c: CoordView, outcomes: Seq<SearchOutcome>) -> CoordView
    decreases outcomes.len(),
{
    if outcomes.len() == 0 {
        c
    } else {
        run_claims(claim_spec(c, outcomes[0]), outcomes.drop_first())
    }
}

/// How many of the claims in `outcomes`, arriving at `c` in order, are
/// accepted.
pub open spec fn accepted_claims(c: CoordView, outcomes: Seq<SearchOutcome>) -> nat
    decreases outcomes.len(),
{
    if outcomes.len() == 0 {
        0
    } else {
        (if c.cancelled {
            0nat
        } else {
            1nat
        }) + accepted_claims(claim_spec(c, outcomes[0]), outcomes.drop_first())
    }
}

/// Once the flag is set, no further claim is accepted and the state never
/// changes again.
pub proof fn lemma_cancelled_accepts_none(c: CoordView, outcomes: Seq<SearchOutcome>)
    requires
        c.cancelled,
    ensures
        accepted_claims(c, outcomes) == 0,
        run_claims(c, outcomes) == c,
    decreases outcomes.len(),
{
    if outcomes.len() > 0 {
        lemma_cancelled_accepts_none(c, outcomes.drop_first());
    }
}

/// The cancellation flag transitions at most once per run. However many
/// claims arrive, in whatever order they are serialized, at most one is
/// accepted against a fresh coordinator; when any arrive at all, exactly the
/// first is accepted and its outcome is the one published, and every later
/// claim is discarded.
pub proof fn lemma_first_claim_wins(outcomes: Seq<SearchOutcome>)
    ensures
        accepted_claims(fresh_coord(), outcomes) <= 1,
        outcomes.len() == 0 ==> accepted_claims(fresh_coord(), outcomes) == 0,
        outcomes.len() > 0 ==> accepted_claims(fresh_coord(), outcomes) == 1 && run_claims(
            fresh_coord(),
            outcomes,
        ).published == Some(outcomes[0]),
{
    if outcomes.len() > 0 {
        let after = claim_spec(fresh_coord(), outcomes[0]);
        lemma_cancelled_accepts_none(after, outcomes.drop_first());
    }
}

/// The cancellation token and single-slot result channel, as one sequential
/// state. Under true parallelism the flag transition is an atomic swap (see
/// the worker module); this type is the serialized view of those
/// transitions, in whatever order they resolve.
pub struct Coordinator {
    cancelled: bool,
    published: Option<SearchOutcome>,
}

impl View for Coordinator {
    type V = CoordView;

    closed spec fn view(&self) -> CoordView {
        CoordView { cancelled: self.cancelled, published: self.published }
    }
}

impl Coordinator {
    /// A fresh coordinator: flag clear, slot empty.
    pub fn new() -> (r: Coordinator)
        ensures
            r@ == fresh_coord(),
    {
        Coordinator { cancelled: false, published: None }
    }

    /// Whether some claim or an injected cancellation has set the flag.
    pub fn is_cancelled(&self) -> (r: bool)
        ensures
            r == self@.cancelled,
    {
        self.cancelled
    }

    /// Cooperative cancellation injected from outside the search (a
    /// deadline): sets the flag without claiming the win.
    pub fn cancel(&mut self)
        ensures
            final(self)@ == (CoordView { cancelled: true, published: old(self)@.published }),
    {
        self.cancelled = true;
    }

    /// First writer wins: the claim is accepted exactly when the flag was
    /// still clear, and only then is the outcome published; a later claim
    /// changes nothing and its outcome is discarded.
    pub fn try_claim(&mut self, outcome: SearchOutcome) -> (accepted: bool)
        ensures
            accepted == !old(self)@.cancelled,
            final(self)@ == claim_spec(old(self)@, outcome),
    {
        if self.cancelled {
            false
        } else {
            self.cancelled = true;
            self.published = Some(outcome);
            true
        }
    }

    /// Hands the published outcome to the orchestrator and empties the slot,
    /// so a published outcome is consumed at most once.
    pub fn take_result(&mut self) -> (r: Option<SearchOutcome>)
        ensures
            r == old(self)@.published,
            final(self)@ == (CoordView { cancelled: old(self)@.cancelled, published: None }),
    {
        self.published.take()
    }
}

/// Whether some candidate of the batch matches the target prefix.
pub open spec fn has_match(cands: Seq<SignedCandidate>, prefix: Seq<u8>) -> bool {
    exists|k: int| 0 <= k < cands.len() && matches_spec(cands[k].hash@, prefix)
}

/// `k` is the first index of the batch whose hash the prefix matches.
pub open spec fn is_first_match(cands: Seq<SignedCandidate>, prefix: Seq<u8>, k: int) -> bool {
    &&& 0 <= k < cands.len()
    &&& matches_spec(cands[k].hash@, prefix)
    &&& forall|m: int| 0 <= m < k ==> !matches_spec(cands[m].hash@, prefix)
}

/// With the empty target prefix, the very first candidate of any non-empty
/// batch is already the first match, so a scan accepts it immediately.
pub proof fn lemma_empty_prefix_first_candidate(cands: Seq<SignedCandidate>)
    requires
        cands.len() > 0,
    ensures
        is_first_match(cands, Seq::empty(), 0),
{
    lemma_empty_prefix_matches(cands[0].hash@);
}

/// Tests each signed candidate of one batch, in order, against the target
/// prefix, and on the first match claims the win. If cancellation had
/// already been observed, nothing is scanned; matching itself has no false
/// negatives and no false positives. Returns the index of the candidate
/// whose outcome this call published.
pub fn scan_signed_batch(
    cands: &Vec<SignedCandidate>,
    prefix: &Vec<u8>,
    gas_limit: u64,
    coord: &mut Coordinator,
) -> (r: Option<usize>)
    ensures
        old(coord)@.cancelled ==> r is None && final(coord)@ == old(coord)@,
        !old(coord)@.cancelled && !has_match(cands@, prefix@) ==> r is None && final(coord)@ == old(
            coord,
        )@,
        !old(coord)@.cancelled && has_match(cands@, prefix@) ==> (r matches Some(k) && {
            &&& is_first_match(cands@, prefix@, k as int)
            &&& final(coord)@.cancelled
            &&& (final(coord)@.published matches Some(o) && {
                &&& o.candidate.bytes@ == cands@[k as int].bytes@
                &&& o.candidate.hash@ == cands@[k as int].hash@
                &&& o.candidate.max_fee_per_gas == cands@[k as int].max_fee_per_gas
                &&& o.total_fee_wei == total_fee_spec(gas_limit, cands@[k as int].max_fee_per_gas)
            })
        }),
{
    if coord.is_cancelled() {
        return None;
    }
    let mut i: usize = 0;
    while i < cands.len()
        invariant
            i <= cands@.len(),
            *coord == *old(coord),
            !old(coord)@.cancelled,
            forall|m: int| 0 <= m < i ==> !matches_spec(cands@[m].hash@, prefix@),
        decreases cands@.len() - i,
    {
        if prefix_matches(&cands[i].hash, prefix) {
            let winner = cands[i].duplicate();
            let outcome = make_outcome(winner, gas_limit);
            // the flag was clear on entry, and nothing else set it since
            let _ = coord.try_claim(outcome);
            return Some(i);
        }
        i += 1;
    }
    None
}

} // verus!
