//! The reduction step of the simulation: binary trial outcomes are combined
//! into a hit count by commutative integer addition, so the result does not
//! depend on how trials were partitioned across workers.

use vstd::prelude::*;

verus! {

/// Number of `true` entries in a sequence of trial outcomes.
pub open spec fn count_true(s: Seq<bool>) -> int
    decreases s.len(),
{
    if s.len() == 0 {
        0
    } else {
        count_true(s.drop_last()) + if s.last() {
            1int
        } else {
            0int
        }
    }
}

/// The hit count never falls below zero nor exceeds the number of trials.
pub proof fn lemma_count_true_bounds(s: Seq<bool>)
    ensures
        0 <= count_true(s) <= s.len(),
    decreases s.len(),
{
    if s.len() > 0 {
        lemma_count_true_bounds(s.drop_last());
    }
}

/// Combining partial counts is exact: the hit count of the concatenation of
/// two outcome sequences is the sum of their hit counts. Together with the
/// commutativity of integer addition, the total does not depend on how the
/// trials were partitioned across workers.
pub proof fn lemma_count_true_concat(a: Seq<bool>, b: Seq<bool>)
    ensures
        count_true(a + b) == count_true(a) + count_true(b),
    decreases b.len(),
{
    if b.len() == 0 {
        assert(a + b =~= a);
    } else {
        lemma_count_true_concat(a, b.drop_last());
        assert((a + b).drop_last() =~= a + b.drop_last());
        assert((a + b).last() == b.last());
    }
}

/// A run of trials whose outcomes all equal `o` hits exactly `s.len()` times
/// if `o` is `true` and never otherwise, so a deterministic request yields a
/// hit count of all trials or of none.
pub proof fn lemma_count_true_constant(s: Seq<bool>, o: bool)
    requires
        forall|k: int| 0 <= k < s.len() ==> s[k] == o,
    ensures
        count_true(s) == if o {
            s.len() as int
        } else {
            0
        },
    decreases s.len(),
{
    if s.len() > 0 {
        lemma_count_true_constant(s.drop_last(), o);
    }
}

/// Turning outcomes pointwise from hit to miss never increases the hit
/// count: if every trial that hits under `b` also hits under `a`, then `b`
/// counts no more hits than `a`. Raising the target price turns each
/// trial's outcome this way, so it never increases the estimated
/// probability.
pub proof fn lemma_count_true_pointwise_le(a: Seq<bool>, b: Seq<bool>)
    requires
        a.len() == b.len(),
        forall|k: int| 0 <= k < b.len() ==> (b[k] ==> a[k]),
    ensures
        count_true(b) <= count_true(a),
    decreases b.len(),
{
    if b.len() > 0 {
        lemma_count_true_pointwise_le(a.drop_last(), b.drop_last());
        assert(b.last() ==> a.last()) by {
            assert(b[b.len() - 1] ==> a[b.len() - 1]);
        }
    }
}

/// Counts the `true` entries of `outcomes`.
pub fn count_hits(outcomes: &Vec<bool>) -> (hits: usize)
    ensures
        hits == count_true(outcomes@),
        hits <= outcomes.len(),
{
    let mut hits: usize = 0;
    let mut i: usize = 0;
    while i < outcomes.len()
        invariant
            i <= outcomes.len(),
            hits == count_true(outcomes@.take(i as int)),
            hits <= i,
        decreases outcomes.len() - i,
    {
        proof {
            assert(outcomes@.take(i + 1).drop_last() =~= outcomes@.take(i as int));
            assert(outcomes@.take(i + 1).last() == outcomes@[i as int]);
        }
        if outcomes[i] {
            hits = hits + 1;
        }
        i = i + 1;
    }
    proof {
        assert(outcomes@.take(outcomes@.len() as int) =~= outcomes@);
    }
    hits
}

} // verus!
