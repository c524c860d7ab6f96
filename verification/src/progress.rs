use vstd::prelude::*;
use vstd::arithmetic::div_mod::{lemma_div_is_ordered, lemma_div_multiples_vanish};

verus! {

/// The completion percentage the terminal progress protocol is handed each
/// time a task is dequeued: `checked * 100 / total`, rounded down.
pub open spec fn spec_percent(checked: int, total: int) -> int {
    checked * 100 / total
}

/// Computes the completion percentage for the progress signal. The signal
/// is monotone over a run: `checked` only grows and `total` is fixed, so
/// the percentage never decreases.
pub fn percent_complete(checked: usize, total: usize) -> (p: usize)
    requires
        0 < total,
        checked <= total,
        total <= usize::MAX / 100,
    ensures
        p == spec_percent(checked as int, total as int),
        p <= 100,
{
    proof {
        assert(checked * 100 <= total * 100) by (nonlinear_arith)
            requires
                checked <= total,
        ;
        lemma_div_is_ordered(checked as int * 100, total as int * 100, total as int);
        lemma_div_multiples_vanish(100, total as int);
        assert(total as int * 100 == 100 * (total as int)) by (nonlinear_arith);
    }
    (checked * 100) / total
}

/// The percentage signal never runs backwards: more checked repositories
/// against the same total can only raise it.
pub proof fn lemma_percent_monotone(c1: int, c2: int, total: int)
    requires
        0 < total,
        0 <= c1 <= c2,
    ensures
        spec_percent(c1, total) <= spec_percent(c2, total),
{
    assert(c1 * 100 <= c2 * 100) by (nonlinear_arith)
        requires
            c1 <= c2,
    ;
    lemma_div_is_ordered(c1 * 100, c2 * 100, total);
}

} // verus!
