//! Lemmas about `Seq::filter` used to relate the managers' loops and
//! removals to filtered sequences.

use vstd::prelude::*;

verus! {

/// Extending a prefix by one element extends its filtered image by that
/// element exactly when the element satisfies the predicate.
pub proof fn lemma_filter_take_step<A>(s: Seq<A>, pred: spec_fn(A) -> bool, i: int)
    requires
        0 <= i < s.len(),
    ensures
        s.take(i + 1).filter(pred) =~= (if pred(s[i]) {
            s.take(i).filter(pred).push(s[i])
        } else {
            s.take(i).filter(pred)
        }),
{
    reveal(Seq::filter);
    let t = s.take(i + 1);
    assert(t.drop_last() =~= s.take(i));
    assert(t.last() == s[i]);
}

/// A sequence whose elements all satisfy the predicate is unchanged by
/// filtering.
pub proof fn lemma_filter_all_pass<A>(s: Seq<A>, pred: spec_fn(A) -> bool)
    requires
        forall|k: int| 0 <= k < s.len() ==> pred(s[k]),
    ensures
        s.filter(pred) =~= s,
    decreases s.len(),
{
    reveal(Seq::filter);
    if s.len() > 0 {
        lemma_filter_all_pass(s.drop_last(), pred);
    }
}

/// If exactly the element at index `j` fails the predicate, filtering
/// removes that element and nothing else.
pub proof fn lemma_filter_removes_unique<A>(s: Seq<A>, pred: spec_fn(A) -> bool, j: int)
    requires
        0 <= j < s.len(),
        !pred(s[j]),
        forall|k: int| 0 <= k < s.len() && k != j ==> pred(s[k]),
    ensures
        s.filter(pred) =~= s.remove(j),
    decreases s.len(),
{
    reveal(Seq::filter);
    if j == s.len() - 1 {
        lemma_filter_all_pass(s.drop_last(), pred);
        assert(s.remove(j) =~= s.drop_last());
    } else {
        lemma_filter_removes_unique(s.drop_last(), pred, j);
        assert(s.remove(j).drop_last() =~= s.drop_last().remove(j));
        assert(s.remove(j) =~= s.drop_last().remove(j).push(s.last()));
    }
}

} // verus!
