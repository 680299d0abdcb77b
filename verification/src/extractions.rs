//! What occurs in a column of a list of records: each value once, in order.

use crate::order::lemma_distinct_views;
use crate::order::ranks_tell_views;
use crate::order::same_rank;
use crate::order::sort_distinct;
use crate::order::strictly_ascending;
use crate::order::views;
use crate::text::lemma_text_before_connected;
use crate::types::child::Child;
use crate::types::day::Day;
use crate::types::descriptor::Descriptor;
use crate::types::entity::EntityColumn;
use crate::types::history::HistoryItem;
use crate::types::label::Label;
use crate::types::parent::Parent;
use crate::types::relationship::EntityRelationship;
use crate::types::role::Role;
use crate::types::year::Year;
use vstd::prelude::*;

verus! {

/// The labels of `cols`, in order.
pub open spec fn labels_of(cols: Seq<EntityColumn>) -> Seq<Seq<char>> {
    cols.map_values(|col: EntityColumn| col.label@)
}

/// The descriptors of `cols`, in order.
pub open spec fn descriptors_of(cols: Seq<EntityColumn>) -> Seq<Seq<char>> {
    cols.map_values(|col: EntityColumn| col.descriptor@)
}

/// The years of `items`, in order.
pub open spec fn years_of(items: Seq<HistoryItem>) -> Seq<int> {
    items.map_values(|item: HistoryItem| item.year@)
}

/// The days of `items`, in order.
pub open spec fn days_of(items: Seq<HistoryItem>) -> Seq<Option<int>> {
    items.map_values(|item: HistoryItem| item.day@)
}

/// The parents of `rels`, in order.
pub open spec fn parents_of(rels: Seq<EntityRelationship>) -> Seq<Seq<char>> {
    rels.map_values(|rel: EntityRelationship| rel.parent@)
}

/// The children of `rels`, in order.
pub open spec fn children_of(rels: Seq<EntityRelationship>) -> Seq<Seq<char>> {
    rels.map_values(|rel: EntityRelationship| rel.child@)
}

/// The roles of `rels`, in order, the absent role as the empty text.
pub open spec fn roles_of(rels: Seq<EntityRelationship>) -> Seq<Seq<char>> {
    rels.map_values(|rel: EntityRelationship| rel.role@)
}

/// The labels that occur in `cols`: each once, in the order of texts.
pub fn extract_labels(cols: &[EntityColumn]) -> (labels: Vec<Label>)
    ensures
        strictly_ascending(labels@),
        views(labels@).to_set() == labels_of(cols@).to_set(),
{
    let mut all: Vec<Label> = Vec::new();
    let mut i: usize = 0;
    while i < cols.len()
        invariant
            i <= cols.len(),
            all.len() == i,
            forall|k: int| 0 <= k < i ==> (#[trigger] all[k])@ == cols[k].label@,
        decreases cols.len() - i,
    {
        all.push(cols[i].label.clone());
        i += 1;
    }
    assert(views(all@) =~= labels_of(cols@));
    let labels = sort_distinct(all);
    proof {
        assert forall|a: Label, b: Label| same_rank(&a, &b) implies #[trigger] a@
            == #[trigger] b@ by {
            lemma_text_before_connected(a@, b@);
        }
        assert(ranks_tell_views::<Label>());
        lemma_distinct_views(all@, labels@);
    }
    labels
}

/// The descriptors that occur in `cols`: each once, in the order of texts.
pub fn extract_descriptors(cols: &[EntityColumn]) -> (descriptors: Vec<Descriptor>)
    ensures
        strictly_ascending(descriptors@),
        views(descriptors@).to_set() == descriptors_of(cols@).to_set(),
{
    let mut all: Vec<Descriptor> = Vec::new();
    let mut i: usize = 0;
    while i < cols.len()
        invariant
            i <= cols.len(),
            all.len() == i,
            forall|k: int| 0 <= k < i ==> (#[trigger] all[k])@ == cols[k].descriptor@,
        decreases cols.len() - i,
    {
        all.push(cols[i].descriptor.clone());
        i += 1;
    }
    assert(views(all@) =~= descriptors_of(cols@));
    let descriptors = sort_distinct(all);
    proof {
        assert forall|a: Descriptor, b: Descriptor| same_rank(&a, &b) implies #[trigger] a@
            == #[trigger] b@ by {
            lemma_text_before_connected(a@, b@);
        }
        assert(ranks_tell_views::<Descriptor>());
        lemma_distinct_views(all@, descriptors@);
    }
    descriptors
}

/// The years that occur in `items`: each once, the earliest first.
pub fn extract_years(items: &[HistoryItem]) -> (years: Vec<Year>)
    ensures
        strictly_ascending(years@),
        views(years@).to_set() == years_of(items@).to_set(),
{
    let mut all: Vec<Year> = Vec::new();
    let mut i: usize = 0;
    while i < items.len()
        invariant
            i <= items.len(),
            all.len() == i,
            forall|k: int| 0 <= k < i ==> (#[trigger] all[k])@ == items[k].year@,
        decreases items.len() - i,
    {
        all.push(items[i].year);
        i += 1;
    }
    assert(views(all@) =~= years_of(items@));
    let years = sort_distinct(all);
    proof {
        assert(ranks_tell_views::<Year>());
        lemma_distinct_views(all@, years@);
    }
    years
}

/// The days that occur in `items`: each once, "no day" first where it occurs,
/// then the days in their order.
pub fn extract_days(items: &[HistoryItem]) -> (days: Vec<Day>)
    ensures
        strictly_ascending(days@),
        views(days@).to_set() == days_of(items@).to_set(),
{
    let mut all: Vec<Day> = Vec::new();
    let mut i: usize = 0;
    while i < items.len()
        invariant
            i <= items.len(),
            all.len() == i,
            forall|k: int| 0 <= k < i ==> (#[trigger] all[k])@ == items[k].day@,
        decreases items.len() - i,
    {
        all.push(items[i].day);
        i += 1;
    }
    assert(views(all@) =~= days_of(items@));
    let days = sort_distinct(all);
    proof {
        assert(ranks_tell_views::<Day>());
        lemma_distinct_views(all@, days@);
    }
    days
}

/// The parents that occur in `rels`: each once, in the order of texts.
pub fn extract_parents(rels: &[EntityRelationship]) -> (parents: Vec<Parent>)
    ensures
        strictly_ascending(parents@),
        views(parents@).to_set() == parents_of(rels@).to_set(),
{
    let mut all: Vec<Parent> = Vec::new();
    let mut i: usize = 0;
    while i < rels.len()
        invariant
            i <= rels.len(),
            all.len() == i,
            forall|k: int| 0 <= k < i ==> (#[trigger] all[k])@ == rels[k].parent@,
        decreases rels.len() - i,
    {
        all.push(rels[i].parent.clone());
        i += 1;
    }
    assert(views(all@) =~= parents_of(rels@));
    let parents = sort_distinct(all);
    proof {
        assert forall|a: Parent, b: Parent| same_rank(&a, &b) implies #[trigger] a@
            == #[trigger] b@ by {
            lemma_text_before_connected(a@, b@);
        }
        assert(ranks_tell_views::<Parent>());
        lemma_distinct_views(all@, parents@);
    }
    parents
}

/// The children that occur in `rels`: each once, in the order of texts.
pub fn extract_children(rels: &[EntityRelationship]) -> (children: Vec<Child>)
    ensures
        strictly_ascending(children@),
        views(children@).to_set() == children_of(rels@).to_set(),
{
    let mut all: Vec<Child> = Vec::new();
    let mut i: usize = 0;
    while i < rels.len()
        invariant
            i <= rels.len(),
            all.len() == i,
            forall|k: int| 0 <= k < i ==> (#[trigger] all[k])@ == rels[k].child@,
        decreases rels.len() - i,
    {
        all.push(rels[i].child.clone());
        i += 1;
    }
    assert(views(all@) =~= children_of(rels@));
    let children = sort_distinct(all);
    proof {
        assert forall|a: Child, b: Child| same_rank(&a, &b) implies #[trigger] a@
            == #[trigger] b@ by {
            lemma_text_before_connected(a@, b@);
        }
        assert(ranks_tell_views::<Child>());
        lemma_distinct_views(all@, children@);
    }
    children
}

/// The roles that occur in `rels`: each once, in the order of texts. The
/// absent role is no role, and is left out.
pub fn extract_roles(rels: &[EntityRelationship]) -> (roles: Vec<Role>)
    ensures
        strictly_ascending(roles@),
        views(roles@).to_set() == roles_of(rels@).to_set().remove(Seq::<char>::empty()),
{
    let mut all: Vec<Role> = Vec::new();
    let mut i: usize = 0;
    while i < rels.len()
        invariant
            i <= rels.len(),
            forall|k: int|
                0 <= k < all.len() ==> (#[trigger] all[k])@.len() > 0 && roles_of(rels@).contains(
                    all[k]@,
                ),
            forall|j: int|
                0 <= j < i && (#[trigger] rels[j]).role@.len() > 0 ==> views(all@).contains(
                    rels[j].role@,
                ),
        decreases rels.len() - i,
    {
        let ghost gathered = all@;
        if !rels[i].role.to_str().is_empty() {
            all.push(rels[i].role.clone());
            proof {
                let last = all.len() - 1;
                assert(roles_of(rels@)[i as int] == all[last]@);
                assert(views(all@)[last] == rels[i as int].role@);
                assert forall|j: int|
                    0 <= j < i && (#[trigger] rels[j]).role@.len() > 0 implies views(
                    all@,
                ).contains(rels[j].role@) by {
                    let k = choose|k: int|
                        0 <= k < gathered.len() && views(gathered)[k] == rels[j].role@;
                    assert(views(all@)[k] == rels[j].role@);
                }
            }
        }
        i += 1;
    }
    let roles = sort_distinct(all);
    proof {
        assert forall|a: Role, b: Role| same_rank(&a, &b) implies #[trigger] a@
            == #[trigger] b@ by {
            lemma_text_before_connected(a@, b@);
        }
        assert(ranks_tell_views::<Role>());
        lemma_distinct_views(all@, roles@);
        let present = roles_of(rels@).to_set().remove(Seq::<char>::empty());
        assert forall|v: Seq<char>| views(all@).to_set().contains(v) implies present.contains(
            v,
        ) by {
            let k = choose|k: int| 0 <= k < all.len() && views(all@)[k] == v;
            assert(all[k]@.len() > 0);
        }
        assert forall|v: Seq<char>| present.contains(v) implies views(all@).to_set().contains(
            v,
        ) by {
            let j = choose|j: int| 0 <= j < rels.len() && roles_of(rels@)[j] == v;
            assert(rels[j].role@ == v);
            assert(v.len() > 0) by {
                if v.len() == 0 {
                    assert(v =~= Seq::<char>::empty());
                }
            }
        }
        assert(views(all@).to_set() =~= present);
    }
    roles
}

} // verus!
