//! Finding the first entry of a sequence that satisfies a condition.

use vstd::prelude::*;

verus! {

/// `i` is the first position of `items` whose entry satisfies `wanted`.
pub open spec fn is_first<T>(items: Seq<T>, wanted: spec_fn(T) -> bool, i: int) -> bool {
    &&& 0 <= i < items.len()
    &&& wanted(items[i])
    &&& forall|j: int| 0 <= j < i ==> !wanted(#[trigger] items[j])
}

/// Some entry of `items` satisfies `wanted`.
pub open spec fn any<T>(items: Seq<T>, wanted: spec_fn(T) -> bool) -> bool {
    exists|i: int| 0 <= i < items.len() && wanted(#[trigger] items[i])
}

/// The first position of `items` whose entry satisfies `wanted`, if there is one.
pub open spec fn first<T>(items: Seq<T>, wanted: spec_fn(T) -> bool) -> Option<int> {
    if any(items, wanted) {
        Some(choose|i: int| is_first(items, wanted, i))
    } else {
        None
    }
}

proof fn lemma_first_exists<T>(items: Seq<T>, wanted: spec_fn(T) -> bool, n: int)
    requires
        0 <= n < items.len(),
        wanted(items[n]),
    ensures
        exists|i: int| is_first(items, wanted, i),
    decreases n,
{
    if exists|j: int| 0 <= j < n && wanted(#[trigger] items[j]) {
        let j = choose|j: int| 0 <= j < n && wanted(#[trigger] items[j]);
        lemma_first_exists(items, wanted, j);
    } else {
        assert(is_first(items, wanted, n));
    }
}

/// A position that is the first match is what `first` gives.
pub proof fn lemma_first_is<T>(items: Seq<T>, wanted: spec_fn(T) -> bool, i: int)
    requires
        is_first(items, wanted, i),
    ensures
        first(items, wanted) == Some(i),
{
    assert(any(items, wanted));
    let f = choose|k: int| is_first(items, wanted, k);
    if f < i {
        assert(!wanted(items[f]));
    } else if i < f {
        assert(!wanted(items[i]));
    }
}

/// What `first` gives is the first match, and it gives nothing only where nothing matches.
pub proof fn lemma_first<T>(items: Seq<T>, wanted: spec_fn(T) -> bool)
    ensures
        first(items, wanted) matches Some(i) ==> is_first(items, wanted, i),
        first(items, wanted) is None ==> forall|j: int|
            0 <= j < items.len() ==> !wanted(#[trigger] items[j]),
{
    if any(items, wanted) {
        let n = choose|i: int| 0 <= i < items.len() && wanted(#[trigger] items[i]);
        lemma_first_exists(items, wanted, n);
    }
}

/// Where nothing matches, `first` gives nothing.
pub proof fn lemma_first_none<T>(items: Seq<T>, wanted: spec_fn(T) -> bool)
    requires
        forall|j: int| 0 <= j < items.len() ==> !wanted(#[trigger] items[j]),
    ensures
        first(items, wanted) is None,
{
}

/// Conditions that agree on every entry have the same first match.
pub proof fn lemma_first_agrees<T>(
    items: Seq<T>,
    wanted: spec_fn(T) -> bool,
    other: spec_fn(T) -> bool,
)
    requires
        forall|j: int| 0 <= j < items.len() ==> wanted(#[trigger] items[j]) == other(items[j]),
    ensures
        first(items, wanted) == first(items, other),
{
    lemma_first(items, wanted);
    match first(items, wanted) {
        Some(i) => {
            assert(is_first(items, other, i));
            lemma_first_is(items, other, i);
        },
        None => {
            lemma_first_none(items, other);
        },
    }
}

} // verus!
