use crate::order::Ranked;
use crate::text::lemma_texts_order;
use crate::text::same_text;
use crate::text::text_precedes;
use crate::text::texts_before;
use crate::types::description::Description;
use crate::types::descriptor::Descriptor;
use crate::types::label::Label;
use vstd::prelude::*;

verus! {

/// One attribute of an entity: what `descriptor` says of the entity `label`.
/// The store holds at most one description for a label and a descriptor.
#[derive(Debug, PartialEq, Eq, PartialOrd, Ord)]
pub struct EntityColumn {
    pub label: Label,
    pub descriptor: Descriptor,
    pub description: Description,
}

/// An entity's attribute as texts.
pub ghost struct EntityColumnView {
    pub label: Seq<char>,
    pub descriptor: Seq<char>,
    pub description: Seq<char>,
}

impl View for EntityColumn {
    type V = EntityColumnView;

    open spec fn view(&self) -> EntityColumnView {
        EntityColumnView {
            label: self.label@,
            descriptor: self.descriptor@,
            description: self.description@,
        }
    }
}

impl EntityColumnView {
    /// What identifies the attribute in the store: label and descriptor.
    pub open spec fn key(&self) -> (Seq<char>, Seq<char>) {
        (self.label, self.descriptor)
    }

    /// The texts that the attributes are ordered by.
    pub open spec fn rank(&self) -> (Seq<char>, Seq<char>, Seq<char>) {
        (self.label, self.descriptor, self.description)
    }
}

impl Clone for EntityColumn {
    fn clone(&self) -> (copy: Self)
        ensures
            copy@ == self@,
    {
        EntityColumn {
            label: self.label.clone(),
            descriptor: self.descriptor.clone(),
            description: self.description.clone(),
        }
    }
}

/// By label, then by descriptor, then by description.
impl Ranked for EntityColumn {
    open spec fn before(&self, other: &Self) -> bool {
        texts_before(self@.rank(), other@.rank())
    }

    proof fn lemma_before_irreflexive(a: &Self) {
        lemma_texts_order(a@.rank(), a@.rank(), a@.rank());
    }

    proof fn lemma_before_transitive(a: &Self, b: &Self, c: &Self) {
        lemma_texts_order(a@.rank(), b@.rank(), c@.rank());
    }

    proof fn lemma_not_after_transitive(a: &Self, b: &Self, c: &Self) {
        lemma_texts_order(a@.rank(), b@.rank(), c@.rank());
    }

    fn precedes(&self, other: &Self) -> (before: bool) {
        if !same_text(self.label.to_str(), other.label.to_str()) {
            text_precedes(self.label.to_str(), other.label.to_str())
        } else if !same_text(self.descriptor.to_str(), other.descriptor.to_str()) {
            text_precedes(self.descriptor.to_str(), other.descriptor.to_str())
        } else {
            text_precedes(self.description.to_str(), other.description.to_str())
        }
    }
}

} // verus!
