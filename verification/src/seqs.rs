//! Facts about sequences that the loops of this library lean on.

use vstd::prelude::*;

verus! {

/// Filtering a list that grew by one item.
pub proof fn lemma_filter_push<A>(s: Seq<A>, x: A, test: spec_fn(A) -> bool)
    ensures
        s.push(x).filter(test) == if test(x) {
            s.filter(test).push(x)
        } else {
            s.filter(test)
        },
{
    reveal(Seq::filter);
    assert(s.push(x).drop_last() =~= s);
}

} // verus!
