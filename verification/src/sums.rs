//! Sums over sequences, and how they change when the sequence does.

use vstd::prelude::*;

verus! {

/// The sum of `f` over the elements of `s`.
pub open spec fn sum_of<T>(s: Seq<T>, f: spec_fn(T) -> nat) -> nat
    decreases s.len(),
{
    if s.len() == 0 {
        0
    } else {
        sum_of(s.drop_last(), f) + f(s.last())
    }
}

/// Replacing one element changes the sum by the change of that element's term.
pub proof fn lemma_sum_of_update<T>(s: Seq<T>, i: int, x: T, f: spec_fn(T) -> nat)
    requires
        0 <= i < s.len(),
    ensures
        sum_of(s.update(i, x), f) + f(s[i]) == sum_of(s, f) + f(x),
    decreases s.len(),
{
    let t = s.update(i, x);
    if i == s.len() - 1 {
        assert(t.drop_last() =~= s.drop_last());
    } else {
        assert(t.drop_last() =~= s.drop_last().update(i, x));
        lemma_sum_of_update(s.drop_last(), i, x, f);
    }
}

/// Each term is at most the sum.
pub proof fn lemma_sum_of_elem_le<T>(s: Seq<T>, i: int, f: spec_fn(T) -> nat)
    requires
        0 <= i < s.len(),
    ensures
        f(s[i]) <= sum_of(s, f),
    decreases s.len(),
{
    if i < s.len() - 1 {
        lemma_sum_of_elem_le(s.drop_last(), i, f);
    }
}

/// The sum over the first `i + 1` elements adds the term of element `i` to the sum over the first `i`.
pub proof fn lemma_sum_of_prefix_step<T>(s: Seq<T>, i: int, f: spec_fn(T) -> nat)
    requires
        0 <= i < s.len(),
    ensures
        sum_of(s.subrange(0, i + 1), f) == sum_of(s.subrange(0, i), f) + f(s[i]),
{
    assert(s.subrange(0, i + 1).drop_last() =~= s.subrange(0, i));
}

/// A prefix sums to at most the whole.
pub proof fn lemma_sum_of_prefix_le<T>(s: Seq<T>, i: int, f: spec_fn(T) -> nat)
    requires
        0 <= i <= s.len(),
    ensures
        sum_of(s.subrange(0, i), f) <= sum_of(s, f),
    decreases s.len() - i,
{
    if i < s.len() {
        lemma_sum_of_prefix_step(s, i, f);
        lemma_sum_of_prefix_le(s, i + 1, f);
    } else {
        assert(s.subrange(0, i) =~= s);
    }
}

/// Termwise smaller terms give a smaller sum.
pub proof fn lemma_sum_of_pointwise_le<T>(s: Seq<T>, f: spec_fn(T) -> nat, g: spec_fn(T) -> nat)
    requires
        forall|i: int| 0 <= i < s.len() ==> f(s[i]) <= g(s[i]),
    ensures
        sum_of(s, f) <= sum_of(s, g),
    decreases s.len(),
{
    if s.len() > 0 {
        lemma_sum_of_pointwise_le(s.drop_last(), f, g);
    }
}

/// Termwise addition of two sequences of equal length adds their sums.
pub proof fn lemma_sum_of_pointwise_add(a: Seq<u64>, b: Seq<u64>, c: Seq<u64>)
    requires
        a.len() == b.len(),
        c.len() == a.len(),
        forall|i: int| 0 <= i < a.len() ==> c[i] == a[i] + b[i],
    ensures
        sum_of(c, |x: u64| x as nat) == sum_of(a, |x: u64| x as nat) + sum_of(b, |x: u64| x as nat),
    decreases a.len(),
{
    if a.len() > 0 {
        lemma_sum_of_pointwise_add(a.drop_last(), b.drop_last(), c.drop_last());
    }
}

/// Appending an element adds its term.
pub proof fn lemma_sum_of_push<T>(s: Seq<T>, x: T, f: spec_fn(T) -> nat)
    ensures
        sum_of(s.push(x), f) == sum_of(s, f) + f(x),
{
    assert(s.push(x).drop_last() =~= s);
}

/// A sequence of zeros sums to zero.
pub proof fn lemma_sum_of_zeros(s: Seq<u64>)
    requires
        forall|i: int| 0 <= i < s.len() ==> s[i] == 0,
    ensures
        sum_of(s, |x: u64| x as nat) == 0,
    decreases s.len(),
{
    if s.len() > 0 {
        lemma_sum_of_zeros(s.drop_last());
    }
}

} // verus!
