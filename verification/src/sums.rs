//! Sums of byte counts, and the facts about them that the aggregation proofs use.

use vstd::prelude::*;

verus! {

/// The sum of all entries of `s`.
pub open spec fn sum(s: Seq<nat>) -> nat
    decreases s.len(),
{
    if s.len() == 0 {
        0
    } else {
        sum(s.drop_last()) + s.last()
    }
}

/// The sum of a prefix never exceeds the sum of the whole.
pub proof fn lemma_sum_prefix_le(s: Seq<nat>, n: int)
    requires
        0 <= n <= s.len(),
    ensures
        sum(s.take(n)) <= sum(s),
    decreases s.len() - n,
{
    if n == s.len() {
        assert(s.take(n) =~= s);
    } else {
        assert(s.take(n + 1).drop_last() =~= s.take(n));
        lemma_sum_prefix_le(s, n + 1);
    }
}

/// Taking one more entry into a prefix adds that entry to the prefix sum.
pub proof fn lemma_sum_take_next(s: Seq<nat>, n: int)
    requires
        0 <= n < s.len(),
    ensures
        sum(s.take(n + 1)) == sum(s.take(n)) + s[n],
{
    assert(s.take(n + 1).drop_last() =~= s.take(n));
}

/// If every entry of `a` is bounded by the entry of `b` at the same index,
/// and `b` is at least as long, then the sum of `a` is bounded by that of `b`.
pub proof fn lemma_sum_pointwise_le(a: Seq<nat>, b: Seq<nat>)
    requires
        a.len() <= b.len(),
        forall|i: int| 0 <= i < a.len() ==> a[i] <= b[i],
    ensures
        sum(a) <= sum(b),
    decreases b.len(),
{
    if a.len() == 0 {
    } else if a.len() == b.len() {
        lemma_sum_pointwise_le(a.drop_last(), b.drop_last());
    } else {
        lemma_sum_pointwise_le(a, b.drop_last());
    }
}

/// Taking one entry out of a sequence takes it out of the sum.
pub proof fn lemma_sum_remove(s: Seq<nat>, j: int)
    requires
        0 <= j < s.len(),
    ensures
        sum(s) == sum(s.remove(j)) + s[j],
    decreases s.len(),
{
    if j == s.len() - 1 {
        assert(s.remove(j) =~= s.drop_last());
    } else {
        lemma_sum_remove(s.drop_last(), j);
        assert(s.remove(j).drop_last() =~= s.drop_last().remove(j));
    }
}

/// The sum of a figure over a list does not depend on the order of the
/// list: two lists with the same entries, each as often, give the same sum.
pub proof fn lemma_sum_ignores_order<T>(a: Seq<T>, b: Seq<T>, figure: spec_fn(T) -> nat)
    requires
        a.to_multiset() == b.to_multiset(),
    ensures
        sum(a.map_values(figure)) == sum(b.map_values(figure)),
    decreases a.len(),
{
    a.to_multiset_ensures();
    b.to_multiset_ensures();
    assert(a.len() == a.to_multiset().len());
    assert(b.len() == b.to_multiset().len());
    if a.len() > 0 {
        let x = a.last();
        assert(a[a.len() - 1] == x);
        assert(a.contains(x));
        assert(a.to_multiset().count(x) > 0);
        assert(b.contains(x));
        let j = choose|j: int| 0 <= j < b.len() && b[j] == x;
        let shorter_a = a.drop_last();
        let shorter_b = b.remove(j);
        assert(a.remove(a.len() - 1) =~= shorter_a);
        assert(a.remove(a.len() - 1).to_multiset() =~= a.to_multiset().remove(x));
        assert(shorter_b.to_multiset() =~= b.to_multiset().remove(x));
        lemma_sum_ignores_order(shorter_a, shorter_b, figure);
        assert(a.map_values(figure).drop_last() =~= shorter_a.map_values(figure));
        assert(b.map_values(figure).remove(j) =~= shorter_b.map_values(figure));
        lemma_sum_remove(b.map_values(figure), j);
    }
}

/// Mapping two lists with the same entries, each as often, gives two lists
/// with the same entries, each as often.
pub proof fn lemma_map_keeps_entries<T, U>(a: Seq<T>, b: Seq<T>, f: spec_fn(T) -> U)
    requires
        a.to_multiset() == b.to_multiset(),
    ensures
        a.map_values(f).to_multiset() == b.map_values(f).to_multiset(),
    decreases a.len(),
{
    a.to_multiset_ensures();
    b.to_multiset_ensures();
    assert(a.len() == a.to_multiset().len());
    assert(b.len() == b.to_multiset().len());
    if a.len() == 0 {
        assert(a.map_values(f) =~= b.map_values(f));
    } else {
        let x = a.last();
        assert(a[a.len() - 1] == x);
        assert(a.contains(x));
        assert(a.to_multiset().count(x) > 0);
        assert(b.contains(x));
        let j = choose|j: int| 0 <= j < b.len() && b[j] == x;
        let shorter_a = a.drop_last();
        let shorter_b = b.remove(j);
        assert(a.remove(a.len() - 1) =~= shorter_a);
        assert(a.remove(a.len() - 1).to_multiset() =~= a.to_multiset().remove(x));
        assert(shorter_b.to_multiset() =~= b.to_multiset().remove(x));
        lemma_map_keeps_entries(shorter_a, shorter_b, f);
        let mapped_a = a.map_values(f);
        let mapped_b = b.map_values(f);
        assert(mapped_a.remove(a.len() - 1) =~= shorter_a.map_values(f));
        assert(mapped_b.remove(j) =~= shorter_b.map_values(f));
        mapped_a.to_multiset_ensures();
        mapped_b.to_multiset_ensures();
        assert(mapped_a.remove(a.len() - 1).to_multiset() == mapped_a.to_multiset().remove(f(x)));
        assert(mapped_b.remove(j).to_multiset() == mapped_b.to_multiset().remove(f(x)));
        assert(mapped_a.contains(f(x))) by {
            assert(mapped_a[a.len() - 1] == f(x));
        }
        assert(mapped_b.contains(f(x))) by {
            assert(mapped_b[j] == f(x));
        }
        assert(mapped_a.to_multiset() =~= mapped_a.to_multiset().remove(f(x)).insert(f(x)));
        assert(mapped_b.to_multiset() =~= mapped_b.to_multiset().remove(f(x)).insert(f(x)));
    }
}

} // verus!
