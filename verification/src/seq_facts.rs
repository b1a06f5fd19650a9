//! General facts about `Seq::filter` used by the store's cascade proofs.

use vstd::prelude::*;

verus! {

/// Every element of a filtered sequence comes from the original sequence.
pub proof fn lemma_filter_is_subset<A>(s: Seq<A>, pred: spec_fn(A) -> bool, i: int)
    requires
        0 <= i < s.filter(pred).len(),
    ensures
        s.contains(s.filter(pred)[i]),
    decreases s.len(),
{
    reveal(Seq::filter);
    if s.len() == 0 {
    } else {
        let dl = s.drop_last();
        let sub = dl.filter(pred);
        if pred(s.last()) && i == sub.len() {
            assert(s.filter(pred)[i] == s.last());
            assert(s[s.len() - 1] == s.last());
        } else {
            assert(s.filter(pred)[i] == sub[i]);
            lemma_filter_is_subset(dl, pred, i);
            let j = choose|j: int| 0 <= j < dl.len() && dl[j] == sub[i];
            assert(s[j] == sub[i]);
        }
    }
}

/// Filtering keeps a family of pairwise-distinct keys pairwise distinct.
pub proof fn lemma_filter_distinct_keys<A>(
    s: Seq<A>,
    pred: spec_fn(A) -> bool,
    key: spec_fn(A) -> u64,
)
    requires
        forall|i: int, j: int|
            0 <= i < j < s.len() ==> key(#[trigger] s[i]) != key(#[trigger] s[j]),
    ensures
        forall|i: int, j: int|
            0 <= i < j < s.filter(pred).len() ==> key(#[trigger] s.filter(pred)[i]) != key(
                #[trigger] s.filter(pred)[j],
            ),
    decreases s.len(),
{
    reveal(Seq::filter);
    if s.len() == 0 {
    } else {
        let dl = s.drop_last();
        let sub = dl.filter(pred);
        lemma_filter_distinct_keys(dl, pred, key);
        assert forall|i: int, j: int| 0 <= i < j < s.filter(pred).len() implies key(
            #[trigger] s.filter(pred)[i],
        ) != key(#[trigger] s.filter(pred)[j]) by {
            if pred(s.last()) && j == sub.len() {
                assert(s.filter(pred)[j] == s.last());
                assert(s.filter(pred)[i] == sub[i]);
                lemma_filter_is_subset(dl, pred, i);
                let m = choose|m: int| 0 <= m < dl.len() && dl[m] == sub[i];
                assert(s[m] == sub[i]);
                assert(key(s[m]) != key(s[s.len() - 1]));
            } else {
                assert(s.filter(pred)[i] == sub[i]);
                assert(s.filter(pred)[j] == sub[j]);
            }
        }
    }
}

} // verus!
