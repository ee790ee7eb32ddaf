//! Folds and searches over sequences, as the contracts of the library state them.

use vstd::prelude::*;

verus! {

/// The least index at or after `from` whose element satisfies `p`, if there is one.
pub open spec fn first_from<A>(s: Seq<A>, p: spec_fn(A) -> bool, from: int) -> Option<int>
    decreases s.len() - from,
{
    if from < 0 || from >= s.len() {
        None
    } else if p(s[from]) {
        Some(from)
    } else {
        first_from(s, p, from + 1)
    }
}

/// The least index whose element satisfies `p`, if there is one.
pub open spec fn first_where<A>(s: Seq<A>, p: spec_fn(A) -> bool) -> Option<int> {
    first_from(s, p, 0)
}

/// What [`first_from`] finds is the index of an element that satisfies `p`,
/// and no element between `from` and that index does.
pub proof fn lemma_first_from<A>(s: Seq<A>, p: spec_fn(A) -> bool, from: int)
    requires
        0 <= from,
    ensures
        match first_from(s, p, from) {
            Some(i) => from <= i < s.len() && p(s[i]) && forall|j: int| from <= j < i ==> !p(s[j]),
            None => forall|j: int| from <= j < s.len() ==> !p(s[j]),
        },
    decreases s.len() - from,
{
    if from < s.len() && !p(s[from]) {
        lemma_first_from(s, p, from + 1);
    }
}

/// [`first_where`] finds something exactly where something is to be found.
pub proof fn lemma_first_where_exists<A>(s: Seq<A>, p: spec_fn(A) -> bool)
    ensures
        first_where(s, p) is Some <==> exists|i: int| 0 <= i < s.len() && p(s[i]),
        first_where(s, p) matches Some(k) ==> 0 <= k < s.len() && p(s[k]),
{
    lemma_first_from(s, p, 0);
}

/// [`first_where`] finds something in a sequence with one more element
/// exactly where it finds something in the sequence, or the element is one
/// to be found.
pub proof fn lemma_first_where_push<A>(s: Seq<A>, x: A, p: spec_fn(A) -> bool)
    ensures
        first_where(s.push(x), p) is Some <==> (first_where(s, p) is Some || p(x)),
{
    let t = s.push(x);
    lemma_first_from(s, p, 0);
    lemma_first_from(t, p, 0);
    if let Some(k) = first_where(s, p) {
        assert(t[k] == s[k]);
    }
    if p(x) {
        assert(t[s.len() as int] == x);
    }
    if let Some(k) = first_where(t, p) {
        if k < s.len() {
            assert(t[k] == s[k]);
        }
    }
}

/// An index as the contracts count it.
pub open spec fn index_view(i: Option<usize>) -> Option<int> {
    match i {
        Some(i) => Some(i as int),
        None => None,
    }
}

/// The mathematical value of a result: that of what it holds.
pub open spec fn result_view<T: DeepView, E: DeepView>(r: Result<T, E>) -> Result<T::V, E::V> {
    match r {
        Ok(t) => Ok(t.deep_view()),
        Err(e) => Err(e.deep_view()),
    }
}

/// Runs `step` over `items` from the left, starting from `init`.
pub open spec fn fold<A, S>(items: Seq<A>, init: S, step: spec_fn(S, A) -> S) -> S
    decreases items.len(),
{
    if items.len() == 0 {
        init
    } else {
        fold(items.drop_first(), step(init, items[0]), step)
    }
}

/// One step of [`fold`], phrased for a loop that walks `items` by index.
pub proof fn lemma_fold_step<A, S>(items: Seq<A>, i: int, acc: S, step: spec_fn(S, A) -> S)
    requires
        0 <= i <= items.len(),
    ensures
        fold(items.skip(i), acc, step) == (if i == items.len() {
            acc
        } else {
            fold(items.skip(i + 1), step(acc, items[i]), step)
        }),
{
    if i < items.len() {
        assert(items.skip(i).drop_first() =~= items.skip(i + 1));
    }
}

/// Runs `step` over `items` from the left, starting from `init`, and stops at
/// the first error.
pub open spec fn try_fold<A, S, E>(
    items: Seq<A>,
    init: S,
    step: spec_fn(S, A) -> Result<S, E>,
) -> Result<S, E>
    decreases items.len(),
{
    if items.len() == 0 {
        Ok(init)
    } else {
        match step(init, items[0]) {
            Ok(next) => try_fold(items.drop_first(), next, step),
            Err(e) => Err(e),
        }
    }
}

/// One step of [`try_fold`], phrased for a loop that walks `items` by index.
pub proof fn lemma_try_fold_step<A, S, E>(
    items: Seq<A>,
    i: int,
    acc: S,
    step: spec_fn(S, A) -> Result<S, E>,
)
    requires
        0 <= i <= items.len(),
    ensures
        try_fold(items.skip(i), acc, step) == (if i == items.len() {
            Ok(acc)
        } else {
            match step(acc, items[i]) {
                Ok(next) => try_fold(items.skip(i + 1), next, step),
                Err(e) => Err(e),
            }
        }),
{
    if i < items.len() {
        assert(items.skip(i).drop_first() =~= items.skip(i + 1));
    }
}

/// What holds of the start of a fold, and is kept by every step, holds of
/// its end.
pub proof fn lemma_fold_invariant<A, S>(
    items: Seq<A>,
    init: S,
    step: spec_fn(S, A) -> S,
    inv: spec_fn(S) -> bool,
)
    requires
        inv(init),
        forall|s: S, i: int| 0 <= i < items.len() && inv(s) ==> inv(#[trigger] step(s, items[i])),
    ensures
        inv(fold(items, init, step)),
    decreases items.len(),
{
    if items.len() > 0 {
        let rest = items.drop_first();
        assert forall|s: S, i: int| 0 <= i < rest.len() && inv(s) implies inv(
            #[trigger] step(s, rest[i]),
        ) by {
            assert(rest[i] == items[i + 1]);
        }
        lemma_fold_invariant(rest, step(init, items[0]), step, inv);
    }
}

/// What holds of the start of a fold, and is kept by every step that
/// succeeds, holds of its end if it succeeds.
pub proof fn lemma_try_fold_invariant<A, S, E>(
    items: Seq<A>,
    init: S,
    step: spec_fn(S, A) -> Result<S, E>,
    inv: spec_fn(S) -> bool,
)
    requires
        inv(init),
        forall|s: S, i: int|
            0 <= i < items.len() && inv(s) && (#[trigger] step(s, items[i])) is Ok ==> inv(
                step(s, items[i])->Ok_0,
            ),
    ensures
        try_fold(items, init, step) matches Ok(end) ==> inv(end),
    decreases items.len(),
{
    if items.len() > 0 {
        let rest = items.drop_first();
        if let Ok(next) = step(init, items[0]) {
            assert forall|s: S, i: int|
                0 <= i < rest.len() && inv(s) && (#[trigger] step(s, rest[i])) is Ok implies inv(
                step(s, rest[i])->Ok_0,
            ) by {
                assert(rest[i] == items[i + 1]);
            }
            lemma_try_fold_invariant(rest, next, step, inv);
        }
    }
}

/// A fold whose every step appends one element, which stands in the relation
/// `rel` to the item of the step, ends with one element for each item, in
/// the order of the items, after the elements it started from.
pub proof fn lemma_try_fold_appends<A, B, E>(
    items: Seq<A>,
    init: Seq<B>,
    step: spec_fn(Seq<B>, A) -> Result<Seq<B>, E>,
    rel: spec_fn(A, B) -> bool,
)
    requires
        forall|acc: Seq<B>, i: int|
            0 <= i < items.len() && (#[trigger] step(acc, items[i])) is Ok ==> {
                let next = step(acc, items[i])->Ok_0;
                next.len() == acc.len() + 1 && next.drop_last() == acc && rel(items[i], next.last())
            },
    ensures
        try_fold(items, init, step) matches Ok(end) ==> {
            &&& end.len() == init.len() + items.len()
            &&& forall|k: int| 0 <= k < init.len() ==> end[k] == init[k]
            &&& forall|k: int| 0 <= k < items.len() ==> rel(#[trigger] items[k], end[init.len() + k])
        },
    decreases items.len(),
{
    if items.len() > 0 {
        let rest = items.drop_first();
        if let Ok(next) = step(init, items[0]) {
            assert(next.drop_last() == init);
            assert forall|acc: Seq<B>, i: int|
                0 <= i < rest.len() && (#[trigger] step(acc, rest[i])) is Ok implies {
                let after = step(acc, rest[i])->Ok_0;
                after.len() == acc.len() + 1 && after.drop_last() == acc && rel(
                    rest[i],
                    after.last(),
                )
            } by {
                assert(rest[i] == items[i + 1]);
            }
            lemma_try_fold_appends(rest, next, step, rel);
            if let Ok(end) = try_fold(rest, next, step) {
                assert forall|k: int| 0 <= k < init.len() implies end[k] == init[k] by {
                    assert(end[k] == next[k]);
                    assert(next.drop_last()[k] == next[k]);
                }
                assert forall|k: int| 0 <= k < items.len() implies rel(
                    #[trigger] items[k],
                    end[init.len() + k],
                ) by {
                    if k == 0 {
                        assert(end[init.len() as int] == next[init.len() as int]);
                        assert(next.last() == next[init.len() as int]);
                    } else {
                        assert(items[k] == rest[k - 1]);
                        assert(rel(rest[k - 1], end[next.len() + (k - 1)]));
                    }
                }
            }
        }
    }
}

} // verus!
