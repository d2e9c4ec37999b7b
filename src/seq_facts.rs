//! Facts about sequences that the stores' loops rely on.

use vstd::prelude::*;

verus! {

/// Filtering a sequence that grew by one element.
pub proof fn lemma_filter_push<A>(s: Seq<A>, pred: spec_fn(A) -> bool, x: A)
    ensures
        s.push(x).filter(pred) == (if pred(x) {
            s.filter(pred).push(x)
        } else {
            s.filter(pred)
        }),
{
    reveal(Seq::filter);
    assert(s.push(x).drop_last() =~= s);
}

/// A prefix that grew by the next element.
pub proof fn lemma_take_next<A>(s: Seq<A>, i: int)
    requires
        0 <= i < s.len(),
    ensures
        s.take(i + 1) == s.take(i).push(s[i]),
{
    assert(s.take(i + 1) =~= s.take(i).push(s[i]));
}

/// No element that the predicate refuses survives a filter.
pub proof fn lemma_filter_excludes<A>(s: Seq<A>, pred: spec_fn(A) -> bool, x: A)
    requires
        !pred(x),
    ensures
        !s.filter(pred).contains(x),
{
    if s.filter(pred).contains(x) {
        let i = choose|i: int| 0 <= i < s.filter(pred).len() && s.filter(pred)[i] == x;
        s.lemma_filter_pred(pred, i);
    }
}

} // verus!
