//! Lemmas on going through a sequence one item at a time.

use vstd::prelude::*;

verus! {

/// One more item is one more step.
pub proof fn lemma_fold_step<A, B>(items: Seq<A>, i: int, start: B, step: spec_fn(B, A) -> B)
    requires
        0 <= i < items.len(),
    ensures
        items.take(i + 1).fold_left(start, step) == step(
            items.take(i).fold_left(start, step),
            items[i],
        ),
{
    assert(items.take(i + 1).drop_last() =~= items.take(i));
}

/// What holds at the start, and after a step if it held before, holds at the end.
pub proof fn lemma_fold_keeps<A, B>(
    items: Seq<A>,
    start: B,
    step: spec_fn(B, A) -> B,
    holds: spec_fn(B) -> bool,
)
    requires
        holds(start),
        forall|b: B, i: int|
            0 <= i < items.len() && holds(b) ==> #[trigger] holds(step(b, items[i])),
    ensures
        holds(items.fold_left(start, step)),
    decreases items.len(),
{
    if items.len() > 0 {
        let front = items.drop_last();
        assert forall|b: B, i: int|
            0 <= i < front.len() && holds(b) implies #[trigger] holds(step(b, front[i])) by {
            assert(holds(step(b, items[i])));
        }
        lemma_fold_keeps(front, start, step, holds);
        assert(holds(step(front.fold_left(start, step), items[items.len() - 1])));
    }
}

/// What a step with the item `i` brings about, and later steps do not undo,
/// holds at the end.
pub proof fn lemma_fold_reaches<A, B>(
    items: Seq<A>,
    i: int,
    start: B,
    step: spec_fn(B, A) -> B,
    holds: spec_fn(B) -> bool,
)
    requires
        0 <= i < items.len(),
        forall|b: B| #[trigger] holds(step(b, items[i])),
        forall|b: B, j: int|
            i < j < items.len() && holds(b) ==> #[trigger] holds(step(b, items[j])),
    ensures
        holds(items.fold_left(start, step)),
    decreases items.len(),
{
    let front = items.drop_last();
    if i < items.len() - 1 {
        assert forall|b: B, j: int|
            i < j < front.len() && holds(b) implies #[trigger] holds(step(b, front[j])) by {
            assert(holds(step(b, items[j])));
        }
        lemma_fold_reaches(front, i, start, step, holds);
        assert(holds(step(front.fold_left(start, step), items[items.len() - 1])));
    } else {
        assert(holds(step(front.fold_left(start, step), items[i])));
    }
}

/// The items have different keys.
pub open spec fn keys_differ<A, K>(items: Seq<A>, key: spec_fn(A) -> K) -> bool {
    forall|i: int, j: int|
        0 <= i < j < items.len() ==> key(#[trigger] items[i]) != key(#[trigger] items[j])
}

/// A step with an item changes only what is found at the key of the item, and
/// what is found there depends only on what was found there before.
pub open spec fn steps_by_key<A, B, K, V>(
    items: Seq<A>,
    step: spec_fn(B, A) -> B,
    key: spec_fn(A) -> K,
    at: spec_fn(B, K) -> V,
) -> bool {
    &&& forall|b: B, i: int, k: K|
        0 <= i < items.len() && k != key(items[i]) ==> #[trigger] at(step(b, items[i]), k) == at(
            b,
            k,
        )
    &&& forall|b: B, c: B, i: int|
        0 <= i < items.len() && at(b, key(items[i])) == at(c, key(items[i])) ==> #[trigger] at(
            step(b, items[i]),
            key(items[i]),
        ) == #[trigger] at(step(c, items[i]), key(items[i]))
}

/// A shorter run of steps by key is one too.
proof fn lemma_front_steps_by_key<A, B, K, V>(
    items: Seq<A>,
    step: spec_fn(B, A) -> B,
    key: spec_fn(A) -> K,
    at: spec_fn(B, K) -> V,
)
    requires
        items.len() > 0,
        steps_by_key(items, step, key, at),
    ensures
        steps_by_key(items.drop_last(), step, key, at),
{
    let front = items.drop_last();
    assert forall|b: B, i: int, k: K|
        0 <= i < front.len() && k != key(front[i]) implies #[trigger] at(step(b, front[i]), k)
        == at(b, k) by {
        assert(at(step(b, items[i]), k) == at(b, k));
    }
    assert forall|b: B, c: B, i: int|
        0 <= i < front.len() && at(b, key(front[i])) == at(c, key(front[i])) implies #[trigger] at(
        step(b, front[i]),
        key(front[i]),
    ) == #[trigger] at(step(c, front[i]), key(front[i])) by {
        assert(at(step(b, items[i]), key(items[i])) == at(step(c, items[i]), key(items[i])));
    }
}

/// What is found in the end at a key of no item is what was found there at the
/// start.
pub proof fn lemma_keyed_fold_elsewhere<A, B, K, V>(
    items: Seq<A>,
    start: B,
    step: spec_fn(B, A) -> B,
    key: spec_fn(A) -> K,
    at: spec_fn(B, K) -> V,
    k: K,
)
    requires
        steps_by_key(items, step, key, at),
        forall|i: int| 0 <= i < items.len() ==> key(#[trigger] items[i]) != k,
    ensures
        at(items.fold_left(start, step), k) == at(start, k),
    decreases items.len(),
{
    if items.len() > 0 {
        let front = items.drop_last();
        let last = items.len() - 1;
        lemma_front_steps_by_key(items, step, key, at);
        assert forall|i: int| 0 <= i < front.len() implies key(#[trigger] front[i]) != k by {
            assert(key(items[i]) != k);
        }
        lemma_keyed_fold_elsewhere(front, start, step, key, at, k);
        let before = front.fold_left(start, step);
        assert(key(items[last]) != k);
        assert(at(step(before, items[last]), k) == at(before, k));
    }
}

/// Steps by different keys do not disturb each other: what is found in the end
/// at the key of an item is what a step with that item alone leaves there.
pub proof fn lemma_keyed_fold_at<A, B, K, V>(
    items: Seq<A>,
    start: B,
    step: spec_fn(B, A) -> B,
    key: spec_fn(A) -> K,
    at: spec_fn(B, K) -> V,
    i: int,
)
    requires
        0 <= i < items.len(),
        keys_differ(items, key),
        steps_by_key(items, step, key, at),
    ensures
        at(items.fold_left(start, step), key(items[i])) == at(
            step(start, items[i]),
            key(items[i]),
        ),
    decreases items.len(),
{
    let front = items.drop_last();
    let last = items.len() - 1;
    let before = front.fold_left(start, step);
    lemma_front_steps_by_key(items, step, key, at);
    if i < last {
        assert(keys_differ(front, key)) by {
            assert forall|m: int, n: int| 0 <= m < n < front.len() implies key(#[trigger] front[m])
                != key(#[trigger] front[n]) by {
                assert(key(items[m]) != key(items[n]));
            }
        }
        lemma_keyed_fold_at(front, start, step, key, at, i);
        assert(front[i] == items[i]);
        assert(key(items[i]) != key(items[last]));
        assert(at(step(before, items[last]), key(items[i])) == at(before, key(items[i])));
    } else {
        assert forall|j: int| 0 <= j < front.len() implies key(#[trigger] front[j]) != key(
            items[last],
        ) by {
            assert(key(items[j]) != key(items[last]));
        }
        lemma_keyed_fold_elsewhere(front, start, step, key, at, key(items[last]));
        assert(at(step(before, items[last]), key(items[last])) == at(
            step(start, items[last]),
            key(items[last]),
        ));
    }
}

/// Steps by different keys can be made in any order.
pub proof fn lemma_keyed_fold_in_any_order<A, B, K, V>(
    items: Seq<A>,
    others: Seq<A>,
    start: B,
    step: spec_fn(B, A) -> B,
    key: spec_fn(A) -> K,
    at: spec_fn(B, K) -> V,
    k: K,
)
    requires
        keys_differ(items, key),
        keys_differ(others, key),
        forall|a: A| #[trigger] items.contains(a) == others.contains(a),
        steps_by_key(items, step, key, at),
        steps_by_key(others, step, key, at),
    ensures
        at(items.fold_left(start, step), k) == at(others.fold_left(start, step), k),
{
    if exists|i: int| 0 <= i < items.len() && key(#[trigger] items[i]) == k {
        let i = choose|i: int| 0 <= i < items.len() && key(#[trigger] items[i]) == k;
        assert(items.contains(items[i]));
        assert(others.contains(items[i]));
        let j = choose|j: int| 0 <= j < others.len() && others[j] == items[i];
        lemma_keyed_fold_at(items, start, step, key, at, i);
        lemma_keyed_fold_at(others, start, step, key, at, j);
    } else {
        lemma_keyed_fold_elsewhere(items, start, step, key, at, k);
        assert forall|j: int| 0 <= j < others.len() implies key(#[trigger] others[j]) != k by {
            assert(others.contains(others[j]));
            assert(items.contains(others[j]));
            let i = choose|i: int| 0 <= i < items.len() && items[i] == others[j];
            assert(key(items[i]) != k);
        }
        lemma_keyed_fold_elsewhere(others, start, step, key, at, k);
    }
}

/// One more item is one more element of the set of what the items map to.
pub proof fn lemma_image_step<A, B>(items: Seq<A>, i: int, f: spec_fn(A) -> B)
    requires
        0 <= i < items.len(),
    ensures
        items.take(i + 1).map_values(f).to_set() == items.take(i).map_values(f).to_set().insert(
            f(items[i]),
        ),
{
    let before = items.take(i).map_values(f);
    let after = items.take(i + 1).map_values(f);
    assert(after =~= before.push(f(items[i])));
    assert forall|b: B| after.to_set().contains(b) == before.to_set().insert(f(items[i])).contains(
        b,
    ) by {
        if before.contains(b) {
            let j = choose|j: int| 0 <= j < before.len() && before[j] == b;
            assert(after[j] == b);
        }
        if b == f(items[i]) {
            assert(after[i] == b);
        }
    }
    assert(after.to_set() =~= before.to_set().insert(f(items[i])));
}

} // verus!
