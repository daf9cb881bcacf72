//! Facts about sequences that the proofs of several modules use.

use vstd::prelude::*;

verus! {

/// Filtering a sequence with one more element keeps what was kept of the
/// sequence, and the element if it passes.
pub(crate) proof fn lemma_filter_push<A>(items: Seq<A>, item: A, keep: spec_fn(A) -> bool)
    ensures
        items.push(item).filter(keep) == if keep(item) {
            items.filter(keep).push(item)
        } else {
            items.filter(keep)
        },
{
    reveal(Seq::filter);
    assert(items.push(item).drop_last() =~= items);
}

/// Filtering the empty sequence keeps nothing.
pub(crate) proof fn lemma_filter_empty<A>(keep: spec_fn(A) -> bool)
    ensures
        Seq::<A>::empty().filter(keep) == Seq::<A>::empty(),
{
    reveal(Seq::filter);
}

} // verus!
