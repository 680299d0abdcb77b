//! Ordered values, and sorting by their order.

use vstd::prelude::*;

verus! {

/// A type whose values stand in a strict order in which "does not stand
/// after" is transitive too: values may share a rank, and the ranks are
/// totally ordered.
pub trait Ranked: Sized {
    /// Whether `self` stands before `other`.
    spec fn before(&self, other: &Self) -> bool;

    proof fn lemma_before_irreflexive(a: &Self)
        ensures
            !a.before(a),
    ;

    proof fn lemma_before_transitive(a: &Self, b: &Self, c: &Self)
        requires
            a.before(b),
            b.before(c),
        ensures
            a.before(c),
    ;

    /// Where `a` does not stand after `b`, nor `b` after `c`, `a` does not
    /// stand after `c`.
    proof fn lemma_not_after_transitive(a: &Self, b: &Self, c: &Self)
        requires
            !b.before(a),
            !c.before(b),
        ensures
            !c.before(a),
    ;

    fn precedes(&self, other: &Self) -> (before: bool)
        ensures
            before == self.before(other),
    ;
}

/// Whether `a` and `b` share a rank: neither stands before the other.
pub open spec fn same_rank<T: Ranked>(a: &T, b: &T) -> bool {
    !a.before(b) && !b.before(a)
}

/// Whether no item of `items` stands before an earlier one.
pub open spec fn ascending<T: Ranked>(items: Seq<T>) -> bool {
    forall|i: int, j: int|
        0 <= i < j < items.len() ==> !(#[trigger] items[j]).before(#[trigger] &items[i])
}

/// Whether each item of `items` stands before all later ones.
pub open spec fn strictly_ascending<T: Ranked>(items: Seq<T>) -> bool {
    forall|i: int, j: int|
        0 <= i < j < items.len() ==> (#[trigger] items[i]).before(#[trigger] &items[j])
}

/// Whether an item of `items` shares the rank of `item`.
pub open spec fn has_rank_of<T: Ranked>(items: Seq<T>, item: &T) -> bool {
    exists|i: int| 0 <= i < items.len() && same_rank(#[trigger] &items[i], item)
}

/// A strictly ascending sequence is ascending.
pub proof fn lemma_strictly_ascending_is_ascending<T: Ranked>(items: Seq<T>)
    requires
        strictly_ascending(items),
    ensures
        ascending(items),
{
    assert forall|i: int, j: int| 0 <= i < j < items.len() implies !(#[trigger] items[j]).before(
        #[trigger] &items[i],
    ) by {
        if items[j].before(&items[i]) {
            T::lemma_before_transitive(&items[i], &items[j], &items[i]);
            T::lemma_before_irreflexive(&items[i]);
        }
    }
}

/// In an ascending sequence, what stands before `item` comes first: where
/// an item stands before `item`, so do all before it, and where one does
/// not, neither do those after it.
proof fn lemma_before_item_comes_first<T: Ranked>(sorted: Seq<T>, item: &T, i: int, j: int)
    requires
        ascending(sorted),
        0 <= i <= j < sorted.len(),
    ensures
        sorted[j].before(item) ==> sorted[i].before(item),
{
    if i < j && sorted[j].before(item) && !sorted[i].before(item) {
        T::lemma_not_after_transitive(item, &sorted[i], &sorted[j]);
        T::lemma_before_transitive(&sorted[j], item, &sorted[j]);
        T::lemma_before_irreflexive(&sorted[j]);
    }
}

/// The first place in the ascending `sorted` whose item does not stand before
/// `item`, found by halving.
fn place_of<T: Ranked>(sorted: &Vec<T>, item: &T) -> (place: usize)
    requires
        ascending(sorted@),
    ensures
        place <= sorted.len(),
        forall|k: int| 0 <= k < place ==> (#[trigger] sorted[k]).before(item),
        forall|k: int| place <= k < sorted.len() ==> !(#[trigger] sorted[k]).before(item),
{
    let mut low: usize = 0;
    let mut high: usize = sorted.len();
    while low < high
        invariant
            low <= high <= sorted.len(),
            ascending(sorted@),
            forall|k: int| 0 <= k < low ==> (#[trigger] sorted[k]).before(item),
            forall|k: int| high <= k < sorted.len() ==> !(#[trigger] sorted[k]).before(item),
        decreases high - low,
    {
        let middle = low + (high - low) / 2;
        if sorted[middle].precedes(item) {
            assert forall|k: int| 0 <= k < middle + 1 implies (#[trigger] sorted[k]).before(
                item,
            ) by {
                lemma_before_item_comes_first(sorted@, item, k, middle as int);
            }
            low = middle + 1;
        } else {
            assert forall|k: int| middle <= k < sorted.len() implies !(#[trigger] sorted[k]).before(
                item,
            ) by {
                lemma_before_item_comes_first(sorted@, item, middle as int, k);
            }
            high = middle;
        }
    }
    low
}

/// With `item` put at the place that `place_of` finds, an ascending sequence
/// stays ascending.
proof fn lemma_insert_keeps_ascending<T: Ranked>(sorted: Seq<T>, place: int, item: T)
    requires
        ascending(sorted),
        0 <= place <= sorted.len(),
        forall|k: int| 0 <= k < place ==> (#[trigger] sorted[k]).before(&item),
        forall|k: int| place <= k < sorted.len() ==> !(#[trigger] sorted[k]).before(&item),
    ensures
        ascending(sorted.insert(place, item)),
{
    let grown = sorted.insert(place, item);
    sorted.insert_ensures(place, item);
    assert forall|i: int, j: int| 0 <= i < j < grown.len() implies !(#[trigger] grown[j]).before(
        #[trigger] &grown[i],
    ) by {
        if j == place {
            assert(grown[i] == sorted[i]);
            if item.before(&sorted[i]) {
                T::lemma_before_transitive(&item, &sorted[i], &item);
                T::lemma_before_irreflexive(&item);
            }
        } else if i == place {
            assert(grown[j] == sorted[j - 1]);
        } else if j < place {
            assert(grown[i] == sorted[i] && grown[j] == sorted[j]);
        } else if i < place {
            assert(grown[i] == sorted[i] && grown[j] == sorted[j - 1]);
        } else {
            assert(grown[i] == sorted[i - 1] && grown[j] == sorted[j - 1]);
        }
    }
}

/// The items of `items` in ascending order.
pub fn sort<T: Ranked>(items: Vec<T>) -> (sorted: Vec<T>)
    ensures
        ascending(sorted@),
        sorted@.to_multiset() == items@.to_multiset(),
{
    let ghost all = items@;
    let mut rest = items;
    let mut sorted: Vec<T> = Vec::new();
    assert(sorted@.to_multiset().add(rest@.to_multiset()) =~= all.to_multiset()) by {
        broadcast use vstd::multiset::group_multiset_axioms;
        sorted@.to_multiset_ensures();
    }
    while rest.len() > 0
        invariant
            ascending(sorted@),
            sorted@.to_multiset().add(rest@.to_multiset()) == all.to_multiset(),
        decreases rest.len(),
    {
        let ghost before_pop = rest@;
        let ghost before_insert = sorted@;
        let item = rest.pop().unwrap();
        let place = place_of(&sorted, &item);
        proof {
            lemma_insert_keeps_ascending(sorted@, place as int, item);
            assert(before_pop =~= rest@.push(item));
            vstd::seq_lib::to_multiset_build(rest@, item);
            vstd::seq_lib::to_multiset_insert(before_insert, place as int, item);
        }
        sorted.insert(place, item);
        assert(sorted@.to_multiset().add(rest@.to_multiset()) =~= all.to_multiset()) by {
            broadcast use vstd::multiset::group_multiset_axioms;
        }
    }
    assert(sorted@.to_multiset() =~= all.to_multiset()) by {
        broadcast use vstd::multiset::group_multiset_axioms;
        rest@.to_multiset_ensures();
    }
    sorted
}

/// With `item` put at the place that `place_of` finds, where the item found
/// there stands after it, a strictly ascending sequence stays so.
proof fn lemma_insert_keeps_strictly_ascending<T: Ranked>(sorted: Seq<T>, place: int, item: T)
    requires
        strictly_ascending(sorted),
        0 <= place <= sorted.len(),
        forall|k: int| 0 <= k < place ==> (#[trigger] sorted[k]).before(&item),
        place < sorted.len() ==> item.before(&sorted[place]),
    ensures
        strictly_ascending(sorted.insert(place, item)),
{
    let grown = sorted.insert(place, item);
    sorted.insert_ensures(place, item);
    assert forall|i: int, j: int| 0 <= i < j < grown.len() implies (#[trigger] grown[i]).before(
        #[trigger] &grown[j],
    ) by {
        if j == place {
            assert(grown[i] == sorted[i]);
        } else if i == place {
            assert(grown[j] == sorted[j - 1]);
            if j - 1 > place {
                T::lemma_before_transitive(&item, &sorted[place], &sorted[j - 1]);
            }
        } else if j < place {
            assert(grown[i] == sorted[i] && grown[j] == sorted[j]);
        } else if i < place {
            assert(grown[i] == sorted[i] && grown[j] == sorted[j - 1]);
        } else {
            assert(grown[i] == sorted[i - 1] && grown[j] == sorted[j - 1]);
        }
    }
}

/// The ranks of `items` in ascending order, each by one of the items that
/// have it.
pub fn sort_distinct<T: Ranked>(items: Vec<T>) -> (distinct: Vec<T>)
    ensures
        strictly_ascending(distinct@),
        forall|i: int| 0 <= i < distinct.len() ==> items@.contains(#[trigger] distinct[i]),
        forall|j: int| 0 <= j < items.len() ==> has_rank_of(distinct@, #[trigger] &items[j]),
{
    let ghost all = items@;
    let mut rest = items;
    let mut distinct: Vec<T> = Vec::new();
    while rest.len() > 0
        invariant
            strictly_ascending(distinct@),
            rest@ == all.take(rest.len() as int),
            rest.len() <= all.len(),
            forall|i: int| 0 <= i < distinct.len() ==> all.contains(#[trigger] distinct[i]),
            forall|j: int|
                rest.len() <= j < all.len() ==> has_rank_of(distinct@, #[trigger] &all[j]),
        decreases rest.len(),
    {
        let ghost kept = distinct@;
        let ghost at = rest.len() - 1;
        let item = rest.pop().unwrap();
        assert(item == all[at]);
        assert(rest@ =~= all.take(at));
        proof {
            lemma_strictly_ascending_is_ascending(distinct@);
        }
        let place = place_of(&distinct, &item);
        if place < distinct.len() && !item.precedes(&distinct[place]) {
            assert(same_rank(&distinct[place as int], &all[at]));
        } else {
            proof {
                lemma_insert_keeps_strictly_ascending(kept, place as int, item);
                kept.insert_ensures(place as int, item);
            }
            distinct.insert(place, item);
            proof {
                T::lemma_before_irreflexive(&item);
                assert(same_rank(&distinct[place as int], &all[at]));
                assert forall|i: int| 0 <= i < distinct.len() implies all.contains(
                    #[trigger] distinct[i],
                ) by {
                    if i < place {
                        assert(distinct[i] == kept[i]);
                    } else if i > place {
                        assert(distinct[i] == kept[i - 1]);
                    }
                }
                assert forall|j: int| at < j < all.len() implies has_rank_of(
                    distinct@,
                    #[trigger] &all[j],
                ) by {
                    assert(has_rank_of(kept, &all[j]));
                    let i = choose|i: int|
                        0 <= i < kept.len() && same_rank(#[trigger] &kept[i], &all[j]);
                    if i < place {
                        assert(distinct[i] == kept[i]);
                    } else {
                        assert(distinct[i + 1] == kept[i]);
                    }
                }
            }
        }
    }
    distinct
}

/// The views of `items`, in order.
pub open spec fn views<T: View>(items: Seq<T>) -> Seq<T::V> {
    items.map_values(|item: T| item@)
}

/// Sequences that hold the same items as often hold the same views as often.
pub proof fn lemma_views_of_rearranged<T: View>(a: Seq<T>, b: Seq<T>)
    requires
        a.to_multiset() == b.to_multiset(),
    ensures
        views(a).to_multiset() == views(b).to_multiset(),
    decreases a.len(),
{
    broadcast use vstd::multiset::group_multiset_axioms;

    a.to_multiset_ensures();
    b.to_multiset_ensures();
    if a.len() == 0 {
        assert(b.len() == 0);
        assert(views(a) =~= views(b));
    } else {
        let item = a.last();
        let shorter = a.drop_last();
        assert(a =~= shorter.push(item));
        assert(a.to_multiset().count(item) > 0);
        assert(b.to_multiset().count(item) > 0);
        assert(b.contains(item));
        let at = choose|at: int| 0 <= at < b.len() && b[at] == item;
        let others = b.remove(at);
        vstd::seq_lib::to_multiset_build(shorter, item);
        vstd::seq_lib::to_multiset_remove(b, at);
        assert(shorter.to_multiset() =~= a.to_multiset().remove(item));
        assert(shorter.to_multiset() == others.to_multiset());
        lemma_views_of_rearranged(shorter, others);
        assert(views(a) =~= views(shorter).push(item@));
        assert(views(b) =~= views(others).insert(at, item@)) by {
            b.remove_ensures(at);
            views(others).insert_ensures(at, item@);
        }
        vstd::seq_lib::to_multiset_build(views(shorter), item@);
        vstd::seq_lib::to_multiset_insert(views(others), at, item@);
    }
}

/// Whether values of one rank have one view, so that the order is total on
/// the views.
pub open spec fn ranks_tell_views<T: Ranked + View>() -> bool {
    forall|a: T, b: T| same_rank(&a, &b) ==> #[trigger] a@ == #[trigger] b@
}

/// Where a rank stands for one view, the ranks of `items`, each by one of the
/// items that have it, show the views of `items` and no others.
pub proof fn lemma_distinct_views<T: Ranked + View>(items: Seq<T>, distinct: Seq<T>)
    requires
        ranks_tell_views::<T>(),
        forall|i: int| 0 <= i < distinct.len() ==> items.contains(#[trigger] distinct[i]),
        forall|j: int| 0 <= j < items.len() ==> has_rank_of(distinct, #[trigger] &items[j]),
    ensures
        views(distinct).to_set() == views(items).to_set(),
{
    assert forall|v: T::V| views(distinct).to_set().contains(v) implies views(
        items,
    ).to_set().contains(v) by {
        let i = choose|i: int| 0 <= i < distinct.len() && views(distinct)[i] == v;
        assert(items.contains(distinct[i]));
        let j = choose|j: int| 0 <= j < items.len() && items[j] == distinct[i];
        assert(views(items)[j] == v);
    }
    assert forall|v: T::V| views(items).to_set().contains(v) implies views(
        distinct,
    ).to_set().contains(v) by {
        let j = choose|j: int| 0 <= j < items.len() && views(items)[j] == v;
        assert(has_rank_of(distinct, &items[j]));
        let i = choose|i: int|
            0 <= i < distinct.len() && same_rank(#[trigger] &distinct[i], &items[j]);
        assert(distinct[i]@ == items[j]@);
        assert(views(distinct)[i] == v);
    }
    assert(views(distinct).to_set() =~= views(items).to_set());
}

} // verus!
