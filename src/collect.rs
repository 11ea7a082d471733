//! The single consumer at the end of the walk: it gathers the outputs that
//! the walk's workers hand over, one batch per repository root.
use vstd::prelude::*;
use vstd::seq_lib::{lemma_flatten_concat, lemma_multiset_commutative, to_multiset_contains, to_multiset_remove, to_multiset_len};

use crate::discovery::{output_views, OutputView, ReviewRequestOutput};

verus! {

/// Gathers the outputs of a walk in the order in which they arrive.
pub struct ReviewCollector {
    outputs: Vec<ReviewRequestOutput>,
}

impl View for ReviewCollector {
    type V = Seq<OutputView>;

    closed spec fn view(&self) -> Seq<OutputView> {
        output_views(self.outputs@)
    }
}

impl ReviewCollector {
    /// A collector that holds nothing yet.
    pub fn new() -> (r: Self)
        ensures
            r@ == Seq::<OutputView>::empty(),
    {
        let r = ReviewCollector { outputs: Vec::new() };
        assert(r@ =~= Seq::<OutputView>::empty());
        r
    }

    /// Appends the outputs of one directory, in their order.
    pub fn receive(&mut self, batch: Vec<ReviewRequestOutput>)
        ensures
            final(self)@ == old(self)@ + output_views(batch@),
    {
        let ghost start = self.outputs@;
        let mut rest = batch;
        let ghost all = rest@;
        while rest.len() > 0
            invariant
                self.outputs@.len() + rest@.len() == start.len() + all.len(),
                self.outputs@.len() >= start.len(),
                output_views(self.outputs@) == output_views(start) + output_views(all).subrange(
                    0,
                    self.outputs@.len() - start.len(),
                ),
                rest@ == all.subrange(self.outputs@.len() - start.len(), all.len() as int),
            decreases rest@.len(),
        {
            let ghost k = self.outputs@.len() - start.len();
            let o = rest.remove(0);
            assert(o == all[k]);
            assert(rest@ =~= all.subrange(k + 1, all.len() as int));
            let ghost prev = self.outputs@;
            self.outputs.push(o);
            assert(output_views(self.outputs@) =~= output_views(prev).push(all[k]@));
            assert(output_views(all).subrange(0, k + 1) =~= output_views(all).subrange(0, k).push(
                all[k]@,
            ));
            assert(output_views(self.outputs@) =~= output_views(start) + output_views(
                all,
            ).subrange(0, self.outputs@.len() - start.len()));
        }
        assert(output_views(all).subrange(0, all.len() as int) =~= output_views(all));
    }

    /// The outputs gathered, in arrival order.
    pub fn into_results(self) -> (r: Vec<ReviewRequestOutput>)
        ensures
            output_views(r@) == self@,
    {
        self.outputs
    }
}

/// Whatever order the walk's workers deliver their batches in, the outputs
/// gathered are the same up to their order: two deliveries of the same
/// batches, each batch once, collect the same multiset.
pub proof fn lemma_arrival_order_irrelevant(a: Seq<Seq<OutputView>>, b: Seq<Seq<OutputView>>)
    requires
        a.to_multiset() == b.to_multiset(),
    ensures
        a.flatten().to_multiset() == b.flatten().to_multiset(),
    decreases a.len(),
{
    broadcast use vstd::multiset::group_multiset_axioms;

    if a.len() == 0 {
        to_multiset_len(a);
        to_multiset_len(b);
        assert(b =~= Seq::<Seq<OutputView>>::empty());
    } else {
        let x = a[0];
        to_multiset_contains(a, x);
        to_multiset_contains(b, x);
        let i = choose|i: int| 0 <= i < b.len() && b[i] == x;
        let a1 = a.drop_first();
        let b1 = b.remove(i);
        to_multiset_remove(a, 0);
        assert(a.remove(0) =~= a1);
        to_multiset_remove(b, i);
        lemma_arrival_order_irrelevant(a1, b1);
        let lo = b.subrange(0, i);
        let hi = b.subrange(i + 1, b.len() as int);
        assert(b =~= lo + (seq![x] + hi));
        assert(b1 =~= lo + hi);
        lemma_flatten_concat(lo, seq![x] + hi);
        lemma_flatten_concat(seq![x], hi);
        lemma_flatten_concat(lo, hi);
        seq![x].lemma_flatten_singleton();
        lemma_multiset_commutative(lo.flatten(), x + hi.flatten());
        lemma_multiset_commutative(x, hi.flatten());
        lemma_multiset_commutative(lo.flatten(), hi.flatten());
        lemma_multiset_commutative(x, a1.flatten());
        assert(a.flatten() == x + a1.flatten());
        assert(a.flatten().to_multiset() =~= b.flatten().to_multiset());
    }
}

} // verus!
