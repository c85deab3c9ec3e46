//! Summation over sequences: the spec-level fold behind every aggregate in
//! the report, with the lemmas that running-accumulator loops and the
//! order-independence law rest on.
use vstd::prelude::*;

verus! {

/// Sum of `f` over the elements of `s`.
pub open spec fn sum_by<A>(s: Seq<A>, f: spec_fn(A) -> int) -> int
    decreases s.len(),
{
    if s.len() == 0 {
        0
    } else {
        sum_by(s.drop_last(), f) + f(s.last())
    }
}

/// Every prefix sum stays within `±lim`: what a running accumulator of
/// bounded mantissas needs of its input.
pub open spec fn prefix_sums_in<A>(s: Seq<A>, f: spec_fn(A) -> int, lim: int) -> bool {
    forall|i: int| 0 <= i <= s.len() ==> -lim <= #[trigger] sum_by(s.take(i), f) <= lim
}

/// Every single contribution stays within `±lim`.
pub open spec fn vals_in_range<A>(s: Seq<A>, f: spec_fn(A) -> int, lim: int) -> bool {
    forall|i: int| 0 <= i < s.len() ==> -lim <= #[trigger] f(s[i]) <= lim
}

/// Extending a prefix by one element adds that element's contribution.
pub proof fn lemma_sum_take_step<A>(s: Seq<A>, f: spec_fn(A) -> int, i: int)
    requires
        0 <= i < s.len(),
    ensures
        sum_by(s.take(i + 1), f) == sum_by(s.take(i), f) + f(s[i]),
{
    assert(s.take(i + 1).drop_last() =~= s.take(i));
    assert(s.take(i + 1).last() == s[i]);
}

/// The whole sequence is its own full prefix.
pub proof fn lemma_sum_take_all<A>(s: Seq<A>, f: spec_fn(A) -> int)
    ensures
        sum_by(s.take(s.len() as int), f) == sum_by(s, f),
{
    assert(s.take(s.len() as int) =~= s);
}

/// A bound on every prefix sum bounds the total.
pub proof fn lemma_sum_in_range<A>(s: Seq<A>, f: spec_fn(A) -> int, lim: int)
    requires
        prefix_sums_in(s, f, lim),
    ensures
        -lim <= sum_by(s, f) <= lim,
{
    lemma_sum_take_all(s, f);
    assert(-lim <= sum_by(s.take(s.len() as int), f) <= lim);
}

/// Removing an element takes away exactly its contribution.
pub proof fn lemma_sum_remove<A>(s: Seq<A>, f: spec_fn(A) -> int, i: int)
    requires
        0 <= i < s.len(),
    ensures
        sum_by(s.remove(i), f) == sum_by(s, f) - f(s[i]),
    decreases s.len(),
{
    if i == s.len() - 1 {
        assert(s.remove(i) =~= s.drop_last());
    } else {
        lemma_sum_remove(s.drop_last(), f, i);
        assert(s.remove(i).drop_last() =~= s.drop_last().remove(i));
        assert(s.remove(i).last() == s.last());
    }
}

/// Summation is order-independent: two sequences holding the same multiset
/// of elements have the same sum.
pub proof fn lemma_sum_permutation<A>(s1: Seq<A>, s2: Seq<A>, f: spec_fn(A) -> int)
    requires
        s1.to_multiset() == s2.to_multiset(),
    ensures
        sum_by(s1, f) == sum_by(s2, f),
    decreases s1.len(),
{
    broadcast use vstd::seq_lib::group_to_multiset_ensures;

    if s1.len() > 0 {
        let a = s1.last();
        assert(s1.contains(a));
        assert(s1.to_multiset().count(a) > 0);
        assert(s2.contains(a));
        let j = choose|j: int| 0 <= j < s2.len() && s2[j] == a;
        assert(s1.drop_last() =~= s1.remove(s1.len() - 1));
        assert(s1.remove(s1.len() - 1).to_multiset() =~= s1.to_multiset().remove(a));
        assert(s2.remove(j).to_multiset() =~= s2.to_multiset().remove(a));
        lemma_sum_permutation(s1.drop_last(), s2.remove(j), f);
        lemma_sum_remove(s2, f, j);
    } else {
        if s2.len() > 0 {
            assert(s2.contains(s2.last()));
            assert(s2.to_multiset().count(s2.last()) > 0);
            assert(s1.to_multiset().count(s2.last()) == 0);
        }
    }
}

} // verus!
