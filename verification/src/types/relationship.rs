use crate::order::Ranked;
use crate::text::lemma_texts_order;
use crate::text::same_text;
use crate::text::text_precedes;
use crate::text::texts_before;
use crate::types::child::Child;
use crate::types::parent::Parent;
use crate::types::role::Role;
use vstd::prelude::*;

verus! {

/// An edge between two entities: `child` belongs to `parent`, in the part
/// that `role` names if there is one. Two entities may have several edges,
/// one for each role and one without a role.
#[derive(Debug, PartialEq, Eq, PartialOrd, Ord)]
pub struct EntityRelationship {
    pub parent: Parent,
    pub child: Child,
    pub role: Role,
}

/// A relationship as texts.
pub ghost struct EntityRelationshipView {
    pub parent: Seq<char>,
    pub child: Seq<char>,
    pub role: Seq<char>,
}

impl View for EntityRelationship {
    type V = EntityRelationshipView;

    open spec fn view(&self) -> EntityRelationshipView {
        EntityRelationshipView { parent: self.parent@, child: self.child@, role: self.role@ }
    }
}

impl EntityRelationshipView {
    /// What identifies the edge in the store: parent, child and role, the
    /// absent role being a role like any other.
    pub open spec fn key(&self) -> (Seq<char>, Seq<char>, Seq<char>) {
        (self.parent, self.child, self.role)
    }
}

impl Clone for EntityRelationship {
    fn clone(&self) -> (copy: Self)
        ensures
            copy@ == self@,
    {
        EntityRelationship {
            parent: self.parent.clone(),
            child: self.child.clone(),
            role: self.role.clone(),
        }
    }
}

/// By parent, then by child, then by role, the absent role first.
impl Ranked for EntityRelationship {
    open spec fn before(&self, other: &Self) -> bool {
        texts_before(self@.key(), other@.key())
    }

    proof fn lemma_before_irreflexive(a: &Self) {
        lemma_texts_order(a@.key(), a@.key(), a@.key());
    }

    proof fn lemma_before_transitive(a: &Self, b: &Self, c: &Self) {
        lemma_texts_order(a@.key(), b@.key(), c@.key());
    }

    proof fn lemma_not_after_transitive(a: &Self, b: &Self, c: &Self) {
        lemma_texts_order(a@.key(), b@.key(), c@.key());
    }

    fn precedes(&self, other: &Self) -> (before: bool) {
        if !same_text(self.parent.to_str(), other.parent.to_str()) {
            text_precedes(self.parent.to_str(), other.parent.to_str())
        } else if !same_text(self.child.to_str(), other.child.to_str()) {
            text_precedes(self.child.to_str(), other.child.to_str())
        } else {
            text_precedes(self.role.to_str(), other.role.to_str())
        }
    }
}

} // verus!
