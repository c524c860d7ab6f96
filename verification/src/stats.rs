use vstd::prelude::*;
use crate::outcome::Outcome;

verus! {

/// Aggregate counters for one run of the engine.
///
/// `total` is fixed at construction (the number of discovered tasks) and
/// never changes; the three counters only grow, one step per recorded
/// outcome. Workers share one `Stats` value and serialize their access to
/// it; the methods here state what each increment does to the counters.
pub struct Stats {
    pub checked: usize,
    pub updated: usize,
    pub unclean: usize,
    pub total: usize,
}

/// The number of `Updated` outcomes in a batch.
pub open spec fn spec_updated_count(outcomes: Seq<Outcome>) -> nat {
    outcomes.filter(|o: Outcome| o is Updated).len()
}

/// The number of `Unclean` outcomes in a batch.
pub open spec fn spec_unclean_count(outcomes: Seq<Outcome>) -> nat {
    outcomes.filter(|o: Outcome| o is Unclean).len()
}

impl Stats {
    /// The counters never outrun the work: no more repositories are checked
    /// than were discovered, and only checked repositories can have been
    /// updated or found unclean.
    pub open spec fn wf(self) -> bool {
        &&& self.checked <= self.total
        &&& self.updated + self.unclean <= self.checked
    }

    /// Fresh counters for a run over `total` discovered repositories.
    pub fn new(total: usize) -> (s: Stats)
        ensures
            s.checked == 0,
            s.updated == 0,
            s.unclean == 0,
            s.total == total,
            s.wf(),
    {
        Stats { checked: 0, updated: 0, unclean: 0, total }
    }

    /// Ticks the checked counter when a task is dequeued, before any
    /// repository work begins. The queue holds exactly `total` tasks, so a
    /// dequeue can only happen while `checked < total`.
    pub fn inc_checked(&mut self)
        requires
            old(self).checked < old(self).total,
        ensures
            final(self).checked == old(self).checked + 1,
            final(self).updated == old(self).updated,
            final(self).unclean == old(self).unclean,
            final(self).total == old(self).total,
    {
        self.checked = self.checked + 1;
    }

    /// Ticks the updated counter when a repository was fast-forwarded.
    /// At most one of `updated`/`unclean` is ticked per checked task, so
    /// the sum stays strictly below `checked` before the tick.
    pub fn inc_updated(&mut self)
        requires
            old(self).updated + old(self).unclean < old(self).checked,
            old(self).checked <= old(self).total,
        ensures
            final(self).updated == old(self).updated + 1,
            final(self).checked == old(self).checked,
            final(self).unclean == old(self).unclean,
            final(self).total == old(self).total,
            final(self).wf(),
    {
        self.updated = self.updated + 1;
    }

    /// Ticks the unclean counter when a repository had local changes.
    pub fn inc_unclean(&mut self)
        requires
            old(self).updated + old(self).unclean < old(self).checked,
            old(self).checked <= old(self).total,
        ensures
            final(self).unclean == old(self).unclean + 1,
            final(self).checked == old(self).checked,
            final(self).updated == old(self).updated,
            final(self).total == old(self).total,
            final(self).wf(),
    {
        self.unclean = self.unclean + 1;
    }

    /// Records one terminal outcome: the checked counter always ticks, the
    /// updated or unclean counter ticks exactly when the outcome says so.
    pub fn record(&mut self, outcome: &Outcome)
        requires
            old(self).wf(),
            old(self).checked < old(self).total,
        ensures
            final(self).wf(),
            final(self).checked == old(self).checked + 1,
            final(self).total == old(self).total,
            final(self).updated == old(self).updated + if *outcome is Updated { 1int } else { 0 },
            final(self).unclean == old(self).unclean + if *outcome is Unclean { 1int } else { 0 },
    {
        self.inc_checked();
        match outcome {
            Outcome::Updated { .. } => self.inc_updated(),
            Outcome::Unclean => self.inc_unclean(),
            _ => (),
        }
    }
}

/// At completion the counters bound each other: each task contributed one
/// checked tick and at most one of the updated and unclean ticks, so
/// `updated + unclean` never exceeds `checked` (the batch size).
pub proof fn lemma_counts_bounded(outcomes: Seq<Outcome>)
    ensures
        spec_updated_count(outcomes) + spec_unclean_count(outcomes) <= outcomes.len(),
    decreases outcomes.len(),
{
    let pu = |o: Outcome| o is Updated;
    let pc = |o: Outcome| o is Unclean;
    if outcomes.len() == 0 {
        outcomes.lemma_filter_len(pu);
        outcomes.lemma_filter_len(pc);
    } else {
        let s = outcomes.drop_last();
        let x = outcomes.last();
        lemma_counts_bounded(s);
        assert(outcomes =~= s.push(x));
        s.lemma_filter_push(x, pu);
        s.lemma_filter_push(x, pc);
    }
}

/// A second engine run over repositories the first run already
/// fast-forwarded sees every task come back up-to-date, so its updated and
/// unclean counters are both zero.
pub proof fn lemma_second_run_counts(outcomes: Seq<Outcome>)
    requires
        forall|i: int| 0 <= i < outcomes.len() ==> outcomes[i] == Outcome::UpToDate,
    ensures
        spec_updated_count(outcomes) == 0,
        spec_unclean_count(outcomes) == 0,
    decreases outcomes.len(),
{
    let pu = |o: Outcome| o is Updated;
    let pc = |o: Outcome| o is Unclean;
    if outcomes.len() == 0 {
        outcomes.lemma_filter_len(pu);
        outcomes.lemma_filter_len(pc);
    } else {
        let s = outcomes.drop_last();
        let x = outcomes.last();
        lemma_second_run_counts(s);
        assert(outcomes =~= s.push(x));
        s.lemma_filter_push(x, pu);
        s.lemma_filter_push(x, pc);
    }
}

/// How many elements satisfying a predicate a sequence holds depends only
/// on its multiset of elements, not on their order.
proof fn lemma_filter_len_multiset<A>(a: Seq<A>, b: Seq<A>, p: spec_fn(A) -> bool)
    requires
        a.to_multiset() == b.to_multiset(),
    ensures
        a.filter(p).len() == b.filter(p).len(),
    decreases a.len(),
{
    broadcast use vstd::seq_lib::group_to_multiset_ensures;
    broadcast use vstd::multiset::group_multiset_axioms;

    assert(a.to_multiset().len() == a.len());
    assert(b.to_multiset().len() == b.len());
    if a.len() == 0 {
        assert(b.len() == 0);
        a.lemma_filter_len(p);
        b.lemma_filter_len(p);
    } else {
        let x = a.last();
        let a1 = a.drop_last();
        assert(a =~= a1.push(x));
        assert(a.to_multiset() =~= a1.to_multiset().insert(x));
        assert(b.to_multiset().count(x) > 0);
        assert(b.contains(x));
        let i = choose|i: int| 0 <= i < b.len() && b[i] == x;
        let b1 = b.remove(i);
        assert(a1.to_multiset() =~= a.to_multiset().remove(x));
        assert(b1.to_multiset() =~= b.to_multiset().remove(x));
        lemma_filter_len_multiset(a1, b1, p);
        a1.lemma_filter_push(x, p);
        let front = b.take(i);
        let back = b.skip(i + 1);
        assert(b =~= (front + seq![x]) + back);
        assert(b1 =~= front + back);
        Seq::<A>::filter_distributes_over_add(front + seq![x], back, p);
        Seq::<A>::filter_distributes_over_add(front, seq![x], p);
        Seq::<A>::filter_distributes_over_add(front, back, p);
        assert(seq![x] =~= Seq::<A>::empty().push(x));
        Seq::<A>::empty().lemma_filter_push(x, p);
        Seq::<A>::empty().lemma_filter_len(p);
    }
}

/// Determinism of the tallies under scheduling: two runs that produce the
/// same multiset of outcomes — as runs over one repository set with
/// different worker counts do — agree on the checked, updated and unclean
/// counts, whatever order the outcomes were reported in.
pub proof fn lemma_counts_order_independent(a: Seq<Outcome>, b: Seq<Outcome>)
    requires
        a.to_multiset() == b.to_multiset(),
    ensures
        a.len() == b.len(),
        spec_updated_count(a) == spec_updated_count(b),
        spec_unclean_count(a) == spec_unclean_count(b),
{
    broadcast use vstd::seq_lib::group_to_multiset_ensures;

    assert(a.to_multiset().len() == a.len());
    assert(b.to_multiset().len() == b.len());
    lemma_filter_len_multiset(a, b, |o: Outcome| o is Updated);
    lemma_filter_len_multiset(a, b, |o: Outcome| o is Unclean);
}

/// Aggregates one completed run, an outcome per discovered task: at the
/// end, checked equals total, and the updated and unclean counters count
/// exactly the outcomes that say so.
#[verifier::loop_isolation(false)]
pub fn tally(outcomes: &Vec<Outcome>, total: usize) -> (s: Stats)
    requires
        outcomes@.len() == total,
    ensures
        s.total == total,
        s.checked == total,
        s.updated == spec_updated_count(outcomes@),
        s.unclean == spec_unclean_count(outcomes@),
        s.wf(),
{
    let mut s = Stats::new(total);
    let mut i: usize = 0;
    while i < outcomes.len()
        invariant
            i <= total,
            s.total == total,
            s.checked == i,
            s.updated == spec_updated_count(outcomes@.take(i as int)),
            s.unclean == spec_unclean_count(outcomes@.take(i as int)),
            s.wf(),
        decreases total - i,
    {
        proof {
            assert(outcomes@.take(i as int + 1) =~= outcomes@.take(i as int).push(
                outcomes@[i as int],
            ));
            outcomes@.take(i as int).lemma_filter_push(
                outcomes@[i as int],
                |o: Outcome| o is Updated,
            );
            outcomes@.take(i as int).lemma_filter_push(
                outcomes@[i as int],
                |o: Outcome| o is Unclean,
            );
        }
        s.record(&outcomes[i]);
        i += 1;
    }
    proof {
        assert(outcomes@.take(total as int) =~= outcomes@);
    }
    s
}

} // verus!
