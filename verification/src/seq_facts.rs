//! Facts about `Seq::filter` that the table operations lean on: how a
//! filter interacts with appending one element, and that filtering keeps
//! membership, pairwise-distinct keys and non-decreasing stamps.

use vstd::prelude::*;

verus! {

/// Filtering after a push appends the pushed element exactly when it
/// satisfies the predicate.
pub proof fn lemma_filter_push<A>(s: Seq<A>, x: A, p: spec_fn(A) -> bool)
    ensures
        s.push(x).filter(p) == if p(x) {
            s.filter(p).push(x)
        } else {
            s.filter(p)
        },
{
    reveal(Seq::filter);
    assert(s.push(x).drop_last() =~= s);
    assert(s.push(x).last() == x);
}

/// A filter that every element satisfies keeps the sequence whole.
pub proof fn lemma_filter_all<A>(s: Seq<A>, p: spec_fn(A) -> bool)
    requires
        forall|i: int| 0 <= i < s.len() ==> p(#[trigger] s[i]),
    ensures
        s.filter(p) == s,
    decreases s.len(),
{
    reveal(Seq::filter);
    if s.len() > 0 {
        lemma_filter_all(s.drop_last(), p);
        assert(s.drop_last().filter(p).push(s.last()) =~= s);
    }
}

/// A filter that no element satisfies empties the sequence.
pub proof fn lemma_filter_none<A>(s: Seq<A>, p: spec_fn(A) -> bool)
    requires
        forall|i: int| 0 <= i < s.len() ==> !p(#[trigger] s[i]),
    ensures
        s.filter(p) == Seq::<A>::empty(),
    decreases s.len(),
{
    reveal(Seq::filter);
    if s.len() > 0 {
        lemma_filter_none(s.drop_last(), p);
    }
}

/// Every element of a filtered sequence occurs in the unfiltered one.
pub proof fn lemma_filter_membership<A>(s: Seq<A>, p: spec_fn(A) -> bool)
    ensures
        forall|i: int| 0 <= i < s.filter(p).len() ==> s.contains(#[trigger] s.filter(p)[i]),
    decreases s.len(),
{
    reveal(Seq::filter);
    if s.len() == 0 {
    } else {
        let dl = s.drop_last();
        lemma_filter_membership(dl, p);
        assert forall|i: int| 0 <= i < s.filter(p).len() implies s.contains(#[trigger] s.filter(p)[i]) by {
            if i < dl.filter(p).len() {
                assert(dl.contains(dl.filter(p)[i]));
                let k = choose|k: int| 0 <= k < dl.len() && dl[k] == dl.filter(p)[i];
                assert(s[k] == s.filter(p)[i]);
            } else {
                assert(s.filter(p)[i] == s.last());
                assert(s[s.len() - 1] == s.last());
            }
        }
    }
}

/// Filtering keeps keys pairwise distinct.
pub proof fn lemma_filter_preserves_distinct<A, B>(s: Seq<A>, p: spec_fn(A) -> bool, key: spec_fn(A) -> B)
    requires
        forall|i: int, j: int| 0 <= i < j < s.len() ==> key(#[trigger] s[i]) != key(#[trigger] s[j]),
    ensures
        forall|i: int, j: int|
            0 <= i < j < s.filter(p).len() ==> key(#[trigger] s.filter(p)[i]) != key(
                #[trigger] s.filter(p)[j]),
    decreases s.len(),
{
    reveal(Seq::filter);
    if s.len() == 0 {
    } else {
        let dl = s.drop_last();
        assert(forall|i: int| 0 <= i < dl.len() ==> #[trigger] dl[i] == s[i]);
        lemma_filter_preserves_distinct(dl, p, key);
        lemma_filter_membership(dl, p);
        assert forall|i: int, j: int|
            0 <= i < j < s.filter(p).len() implies key(#[trigger] s.filter(p)[i]) != key(
            #[trigger] s.filter(p)[j]) by {
            if j < dl.filter(p).len() {
            } else if p(s.last()) && j == dl.filter(p).len() {
                assert(s.filter(p)[j] == s.last());
                assert(dl.contains(dl.filter(p)[i]));
                let k = choose|k: int| 0 <= k < dl.len() && dl[k] == dl.filter(p)[i];
                assert(key(s[k]) != key(s[s.len() - 1]));
            }
        }
    }
}

/// Filtering keeps integer stamps non-decreasing.
pub proof fn lemma_filter_preserves_sorted<A>(s: Seq<A>, p: spec_fn(A) -> bool, stamp: spec_fn(A) -> int)
    requires
        forall|i: int, j: int| 0 <= i <= j < s.len() ==> stamp(#[trigger] s[i]) <= stamp(#[trigger] s[j]),
    ensures
        forall|i: int, j: int|
            0 <= i <= j < s.filter(p).len() ==> stamp(#[trigger] s.filter(p)[i]) <= stamp(
                #[trigger] s.filter(p)[j]),
    decreases s.len(),
{
    reveal(Seq::filter);
    if s.len() == 0 {
    } else {
        let dl = s.drop_last();
        assert(forall|i: int| 0 <= i < dl.len() ==> #[trigger] dl[i] == s[i]);
        lemma_filter_preserves_sorted(dl, p, stamp);
        lemma_filter_membership(dl, p);
        assert forall|i: int, j: int|
            0 <= i <= j < s.filter(p).len() implies stamp(#[trigger] s.filter(p)[i]) <= stamp(
            #[trigger] s.filter(p)[j]) by {
            if j < dl.filter(p).len() {
            } else if p(s.last()) && j == dl.filter(p).len() {
                assert(s.filter(p)[j] == s.last());
                if i < j {
                    assert(dl.contains(dl.filter(p)[i]));
                    let k = choose|k: int| 0 <= k < dl.len() && dl[k] == dl.filter(p)[i];
                    assert(stamp(s[k]) <= stamp(s[s.len() - 1]));
                }
            }
        }
    }
}

} // verus!
