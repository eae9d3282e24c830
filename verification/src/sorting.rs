//! Stable sorting.

use vstd::prelude::*;

verus! {

/// A list with an item put before the first one that it does not come after.
pub open spec fn placed<V>(list: Seq<V>, item: V, order: spec_fn(V, V) -> bool) -> Seq<V>
    decreases list.len(),
{
    if list.len() == 0 {
        seq![item]
    } else if order(list[0], item) {
        seq![list[0]] + placed(list.skip(1), item, order)
    } else {
        seq![item] + list
    }
}

/// A list in order, equal items as they stood.
pub open spec fn sorted<V>(list: Seq<V>, order: spec_fn(V, V) -> bool) -> Seq<V>
    decreases list.len(),
{
    if list.len() == 0 {
        Seq::empty()
    } else {
        placed(sorted(list.skip(1), order), list[0], order)
    }
}

/// Whether no item of a list comes before an earlier one.
pub open spec fn in_order<V>(list: Seq<V>, order: spec_fn(V, V) -> bool) -> bool {
    forall|i: int, j: int| 0 <= i < j < list.len() ==> !order(#[trigger] list[j], #[trigger] list[i])
}

/// Whether an order is strict and weak: whatever comes before something else does not
/// come after it, and what is before a third one cannot be separated from it.
pub open spec fn is_order<V>(order: spec_fn(V, V) -> bool) -> bool {
    &&& forall|a: V, b: V| #[trigger] order(a, b) ==> !order(b, a)
    &&& forall|a: V, b: V, c: V|
        #![trigger order(a, b), order(b, c)]
        !order(a, b) && !order(b, c) ==> !order(a, c)
}

/// What some values show.
pub open spec fn views<T: View>(list: Seq<T>) -> Seq<T::V> {
    list.map_values(|x: T| x@)
}

proof fn placed_at<V>(list: Seq<V>, item: V, order: spec_fn(V, V) -> bool, at: int)
    requires
        0 <= at <= list.len(),
        forall|k: int| 0 <= k < at ==> order(#[trigger] list[k], item),
        at < list.len() ==> !order(list[at], item),
    ensures
        placed(list, item, order) == list.insert(at, item),
    decreases list.len(),
{
    if list.len() == 0 {
        assert(list.insert(at, item) =~= seq![item]);
    } else if at == 0 {
        assert(list.insert(at, item) =~= seq![item] + list);
    } else {
        let rest = list.skip(1);
        assert forall|k: int| 0 <= k < at - 1 implies order(#[trigger] rest[k], item) by {
            assert(rest[k] == list[k + 1]);
        }
        placed_at(rest, item, order, at - 1);
        assert(order(list[0], item));
        assert(list.insert(at, item) =~= seq![list[0]] + rest.insert(at - 1, item));
    }
}

/// Sorts a list; equal items stay as they stood.
pub fn stable_sort<T: View, F: Fn(&T, &T) -> bool>(
    list: Vec<T>,
    less: F,
    Ghost(order): Ghost<spec_fn(T::V, T::V) -> bool>,
) -> (r: Vec<T>)
    requires
        forall|a: &T, b: &T| call_requires(less, (a, b)),
        forall|a: &T, b: &T, found: bool|
            call_ensures(less, (a, b), found) ==> found == order(a@, b@),
    ensures
        views(r@) == sorted(views(list@), order),
{
    let ghost shown = views(list@);
    let mut rest: Vec<T> = list;
    let mut out: Vec<T> = Vec::new();
    proof {
        assert(views(out@) =~= Seq::empty());
        assert(shown.skip(shown.len() as int) =~= Seq::empty());
    }
    while rest.len() > 0
        invariant
            forall|a: &T, b: &T| call_requires(less, (a, b)),
            forall|a: &T, b: &T, found: bool|
                call_ensures(less, (a, b), found) ==> found == order(a@, b@),
            rest@.len() <= shown.len(),
            views(rest@) == shown.take(rest@.len() as int),
            views(out@) == sorted(shown.skip(rest@.len() as int), order),
        decreases rest@.len(),
    {
        let ghost n = rest@.len();
        let ghost tail = shown.skip(n as int);
        let ghost before = views(rest@);
        let item: T = rest.pop().unwrap();
        proof {
            assert(before[n - 1] == item@);
            assert(views(rest@) =~= shown.take(n - 1));
            assert(shown.skip(n - 1)[0] == item@);
            assert(shown.skip(n - 1).skip(1) =~= tail);
        }
        let mut at: usize = 0;
        let mut searching: bool = true;
        while searching && at < out.len()
            invariant
                at <= out@.len(),
                forall|a: &T, b: &T| call_requires(less, (a, b)),
                forall|a: &T, b: &T, found: bool|
                    call_ensures(less, (a, b), found) ==> found == order(a@, b@),
                forall|k: int| 0 <= k < at ==> order(#[trigger] views(out@)[k], item@),
                !searching ==> at < out@.len() && !order(views(out@)[at as int], item@),
            decreases out@.len() - at, searching as int,
        {
            assert(views(out@)[at as int] == out@[at as int]@);
            if less(&out[at], &item) {
                at += 1;
            } else {
                searching = false;
            }
        }
        let ghost placed_before = views(out@);
        out.insert(at, item);
        proof {
            assert(views(out@) =~= placed_before.insert(at as int, item@));
            placed_at(placed_before, item@, order, at as int);
        }
    }
    proof {
        assert(shown.skip(0) =~= shown);
    }
    out
}

proof fn placing_keeps_order<V>(list: Seq<V>, item: V, order: spec_fn(V, V) -> bool)
    requires
        is_order(order),
        in_order(list, order),
    ensures
        in_order(placed(list, item, order), order),
        placed(list, item, order).to_multiset() == list.to_multiset().insert(item),
    decreases list.len(),
{
    broadcast use vstd::seq_lib::group_to_multiset_ensures;

    let out = placed(list, item, order);
    if list.len() == 0 {
        assert(out =~= list.push(item));
    } else if order(list[0], item) {
        let rest = list.skip(1);
        assert forall|i: int, j: int| 0 <= i < j < rest.len() implies !order(
            #[trigger] rest[j],
            #[trigger] rest[i],
        ) by {
            assert(rest[j] == list[j + 1]);
            assert(rest[i] == list[i + 1]);
        }
        placing_keeps_order(rest, item, order);
        let tail = placed(rest, item, order);
        assert(list =~= seq![list[0]] + rest);
        vstd::seq_lib::lemma_multiset_commutative(seq![list[0]], rest);
        vstd::seq_lib::lemma_multiset_commutative(seq![list[0]], tail);
        assert(out.to_multiset() =~= list.to_multiset().insert(item));
        assert forall|i: int, j: int| 0 <= i < j < out.len() implies !order(
            #[trigger] out[j],
            #[trigger] out[i],
        ) by {
            assert(out[j] == tail[j - 1]);
            if i > 0 {
                assert(out[i] == tail[i - 1]);
            } else {
                assert(tail.to_multiset().contains(tail[j - 1]));
                assert(rest.to_multiset().insert(item).contains(tail[j - 1]));
                if tail[j - 1] == item {
                    assert(order(list[0], item));
                } else {
                    assert(rest.to_multiset().contains(tail[j - 1]));
                    assert(rest.contains(tail[j - 1]));
                    let k = choose|k: int| 0 <= k < rest.len() && rest[k] == tail[j - 1];
                    assert(rest[k] == list[k + 1]);
                    assert(!order(list[k + 1], list[0]));
                }
            }
        }
    } else {
        vstd::seq_lib::lemma_multiset_commutative(seq![item], list);
        assert(out.to_multiset() =~= list.to_multiset().insert(item));
        assert forall|i: int, j: int| 0 <= i < j < out.len() implies !order(
            #[trigger] out[j],
            #[trigger] out[i],
        ) by {
            assert(out[j] == list[j - 1]);
            if i > 0 {
                assert(out[i] == list[i - 1]);
            } else if j > 1 {
                assert(!order(list[j - 1], list[0]));
                assert(!order(list[0], item));
            }
        }
    }
}

/// A sorted list holds what the list holds, in order.
pub proof fn sorting_orders<V>(list: Seq<V>, order: spec_fn(V, V) -> bool)
    requires
        is_order(order),
    ensures
        in_order(sorted(list, order), order),
        sorted(list, order).to_multiset() == list.to_multiset(),
    decreases list.len(),
{
    broadcast use vstd::seq_lib::group_to_multiset_ensures;

    if list.len() > 0 {
        let rest = list.skip(1);
        sorting_orders(rest, order);
        placing_keeps_order(sorted(rest, order), list[0], order);
        assert(list =~= seq![list[0]] + rest);
        vstd::seq_lib::lemma_multiset_commutative(seq![list[0]], rest);
        assert(list.to_multiset() =~= rest.to_multiset().insert(list[0]));
    }
}

/// What has been put in its place is what was there and the new item.
proof fn placed_members<V>(list: Seq<V>, item: V, order: spec_fn(V, V) -> bool)
    ensures
        forall|x: V| #[trigger]
            placed(list, item, order).contains(x) <==> list.contains(x) || x == item,
    decreases list.len(),
{
    let grown = placed(list, item, order);
    if list.len() == 0 {
        assert(grown =~= seq![item]);
        assert(grown[0] == item);
    } else if order(list[0], item) {
        let rest = list.skip(1);
        let tail = placed(rest, item, order);
        placed_members(rest, item, order);
        assert(grown =~= seq![list[0]] + tail);
        assert forall|x: V| #[trigger] grown.contains(x) <==> list.contains(x) || x == item by {
            if grown.contains(x) {
                let k = choose|k: int| 0 <= k < grown.len() && grown[k] == x;
                if k > 0 {
                    assert(tail[k - 1] == x);
                    assert(tail.contains(x));
                    if x != item {
                        let j = choose|j: int| 0 <= j < rest.len() && rest[j] == x;
                        assert(list[j + 1] == x);
                    }
                }
            }
            if list.contains(x) || x == item {
                if x == list[0] {
                    assert(grown[0] == x);
                } else {
                    if list.contains(x) {
                        let j = choose|j: int| 0 <= j < list.len() && list[j] == x;
                        assert(rest[j - 1] == x);
                    }
                    assert(tail.contains(x));
                    let k = choose|k: int| 0 <= k < tail.len() && tail[k] == x;
                    assert(grown[k + 1] == x);
                }
            }
        }
    } else {
        assert(grown =~= seq![item] + list);
        assert forall|x: V| #[trigger] grown.contains(x) <==> list.contains(x) || x == item by {
            if list.contains(x) {
                let j = choose|j: int| 0 <= j < list.len() && list[j] == x;
                assert(grown[j + 1] == x);
            }
            assert(grown[0] == item);
        }
    }
}

/// Putting a list in order keeps its members: nothing is lost and nothing is added.
pub proof fn sorting_keeps_members<V>(list: Seq<V>, order: spec_fn(V, V) -> bool)
    ensures
        sorted(list, order).len() == list.len(),
        forall|x: V| #[trigger] sorted(list, order).contains(x) <==> list.contains(x),
    decreases list.len(),
{
    if list.len() > 0 {
        let rest = list.skip(1);
        sorting_keeps_members(rest, order);
        placed_members(sorted(rest, order), list[0], order);
        placed_length(sorted(rest, order), list[0], order);
        assert forall|x: V| #[trigger]
            sorted(list, order).contains(x) <==> list.contains(x) by {
            if rest.contains(x) {
                let j = choose|j: int| 0 <= j < rest.len() && rest[j] == x;
                assert(list[j + 1] == x);
            }
            if list.contains(x) && x != list[0] {
                let j = choose|j: int| 0 <= j < list.len() && list[j] == x;
                assert(rest[j - 1] == x);
            }
        }
    }
}

proof fn placed_length<V>(list: Seq<V>, item: V, order: spec_fn(V, V) -> bool)
    ensures
        placed(list, item, order).len() == list.len() + 1,
    decreases list.len(),
{
    if list.len() > 0 && order(list[0], item) {
        placed_length(list.skip(1), item, order);
    }
}

} // verus!
