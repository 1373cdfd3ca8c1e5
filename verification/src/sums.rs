//! Sums over sequences, and how they follow the sequence as it changes.

use vstd::prelude::*;

verus! {

/// The sum of `term` over the elements of `items`.
pub open spec fn sum<T>(items: Seq<T>, term: spec_fn(T) -> int) -> int
    decreases items.len(),
{
    if items.len() == 0 {
        0
    } else {
        sum(items.drop_last(), term) + term(items.last())
    }
}

/// A new last element adds its term to the sum.
pub proof fn lemma_sum_push<T>(items: Seq<T>, item: T, term: spec_fn(T) -> int)
    ensures
        sum(items.push(item), term) == sum(items, term) + term(item),
{
    assert(items.push(item).drop_last() =~= items);
}

/// Replacing an element replaces its term in the sum.
pub proof fn lemma_sum_update<T>(items: Seq<T>, at: int, item: T, term: spec_fn(T) -> int)
    requires
        0 <= at < items.len(),
    ensures
        sum(items.update(at, item), term) == sum(items, term) - term(items[at]) + term(item),
    decreases items.len(),
{
    if at == items.len() - 1 {
        assert(items.update(at, item).drop_last() =~= items.drop_last());
    } else {
        lemma_sum_update(items.drop_last(), at, item, term);
        assert(items.update(at, item).drop_last() =~= items.drop_last().update(at, item));
    }
}

/// Removing an element takes its term out of the sum.
pub proof fn lemma_sum_remove<T>(items: Seq<T>, at: int, term: spec_fn(T) -> int)
    requires
        0 <= at < items.len(),
    ensures
        sum(items.remove(at), term) == sum(items, term) - term(items[at]),
    decreases items.len(),
{
    if at == items.len() - 1 {
        assert(items.remove(at) =~= items.drop_last());
    } else {
        lemma_sum_remove(items.drop_last(), at, term);
        assert(items.remove(at).drop_last() =~= items.drop_last().remove(at));
        assert(items.remove(at).last() == items.last());
    }
}

/// Where every term is zero, so is the sum.
pub proof fn lemma_sum_zero<T>(items: Seq<T>, term: spec_fn(T) -> int)
    requires
        forall|i: int| 0 <= i < items.len() ==> term(#[trigger] items[i]) == 0,
    ensures
        sum(items, term) == 0,
    decreases items.len(),
{
    if items.len() > 0 {
        assert(forall|i: int|
            0 <= i < items.drop_last().len() ==> items.drop_last()[i] == items[i]);
        lemma_sum_zero(items.drop_last(), term);
        assert(term(items[items.len() - 1]) == 0);
    }
}

/// Where no term is negative, the sum is at least each of its terms.
pub proof fn lemma_sum_holds_term<T>(items: Seq<T>, at: int, term: spec_fn(T) -> int)
    requires
        0 <= at < items.len(),
        forall|i: int| 0 <= i < items.len() ==> term(#[trigger] items[i]) >= 0,
    ensures
        sum(items, term) >= term(items[at]),
        sum(items, term) >= 0,
    decreases items.len(),
{
    assert(forall|i: int| 0 <= i < items.drop_last().len() ==> items.drop_last()[i] == items[i]);
    assert(term(items[items.len() - 1]) >= 0);
    if items.len() > 1 {
        if at == items.len() - 1 {
            lemma_sum_holds_term(items.drop_last(), 0, term);
        } else {
            lemma_sum_holds_term(items.drop_last(), at, term);
        }
    } else {
        assert(sum(items.drop_last(), term) == 0);
    }
}

/// Two terms that agree on every element give the same sum.
pub proof fn lemma_sum_same_terms<T>(items: Seq<T>, term: spec_fn(T) -> int, other: spec_fn(T) -> int)
    requires
        forall|i: int| 0 <= i < items.len() ==> term(#[trigger] items[i]) == other(items[i]),
    ensures
        sum(items, term) == sum(items, other),
    decreases items.len(),
{
    if items.len() > 0 {
        assert(forall|i: int|
            0 <= i < items.drop_last().len() ==> items.drop_last()[i] == items[i]);
        lemma_sum_same_terms(items.drop_last(), term, other);
        assert(term(items[items.len() - 1]) == other(items[items.len() - 1]));
    }
}

/// Two terms that agree on every element but one give sums that differ as
/// the terms of that element do.
pub proof fn lemma_sum_change_at<T>(
    items: Seq<T>,
    at: int,
    term: spec_fn(T) -> int,
    other: spec_fn(T) -> int,
)
    requires
        0 <= at < items.len(),
        forall|i: int|
            0 <= i < items.len() && i != at ==> term(#[trigger] items[i]) == other(items[i]),
    ensures
        sum(items, other) == sum(items, term) - term(items[at]) + other(items[at]),
    decreases items.len(),
{
    assert(forall|i: int| 0 <= i < items.drop_last().len() ==> items.drop_last()[i] == items[i]);
    if at == items.len() - 1 {
        lemma_sum_same_terms(items.drop_last(), term, other);
    } else {
        lemma_sum_change_at(items.drop_last(), at, term, other);
        assert(term(items[items.len() - 1]) == other(items[items.len() - 1]));
    }
}

/// Where every term is at most the other term of its element, the sum is
/// at most the other sum.
pub proof fn lemma_sum_le<T>(items: Seq<T>, term: spec_fn(T) -> int, other: spec_fn(T) -> int)
    requires
        forall|i: int| 0 <= i < items.len() ==> term(#[trigger] items[i]) <= other(items[i]),
    ensures
        sum(items, term) <= sum(items, other),
    decreases items.len(),
{
    if items.len() > 0 {
        assert(forall|i: int|
            0 <= i < items.drop_last().len() ==> items.drop_last()[i] == items[i]);
        lemma_sum_le(items.drop_last(), term, other);
        assert(term(items[items.len() - 1]) <= other(items[items.len() - 1]));
    }
}

/// Where `scale` times every term is at most `other_scale` times the other
/// term of its element, the same holds of the sums.
pub proof fn lemma_sum_scaled_le<T>(
    items: Seq<T>,
    term: spec_fn(T) -> int,
    other: spec_fn(T) -> int,
    scale: int,
    other_scale: int,
)
    requires
        forall|i: int|
            0 <= i < items.len() ==> scale * term(#[trigger] items[i]) <= other_scale * other(
                items[i],
            ),
    ensures
        scale * sum(items, term) <= other_scale * sum(items, other),
    decreases items.len(),
{
    if items.len() > 0 {
        assert(forall|i: int|
            0 <= i < items.drop_last().len() ==> items.drop_last()[i] == items[i]);
        lemma_sum_scaled_le(items.drop_last(), term, other, scale, other_scale);
        let last = items[items.len() - 1];
        assert(scale * term(last) <= other_scale * other(last));
        let rest = sum(items.drop_last(), term);
        let other_rest = sum(items.drop_last(), other);
        assert(scale * (rest + term(last)) == scale * rest + scale * term(last))
            by (nonlinear_arith);
        assert(other_scale * (other_rest + other(last)) == other_scale * other_rest + other_scale
            * other(last)) by (nonlinear_arith);
    } else {
        assert(scale * 0 == 0 && other_scale * 0 == 0) by (nonlinear_arith);
    }
}

} // verus!
