use crate::types::child::Child;
use crate::types::parent::Parent;
use crate::types::relationship::EntityRelationship;
use crate::types::relationship::EntityRelationshipView;
use crate::types::role::Role;
use vstd::prelude::*;

verus! {

/// A row of the table `relationships`. The role is part of the row's key, so
/// it is never null: the absent role is the empty text.
#[derive(Debug, PartialEq, Eq, PartialOrd, Ord)]
pub struct SqlEntityRelationship {
    pub parent: String,
    pub child: String,
    pub role: String,
}

/// A row of `relationships` as plain values.
pub ghost struct SqlEntityRelationshipView {
    pub parent: Seq<char>,
    pub child: Seq<char>,
    pub role: Seq<char>,
}

impl View for SqlEntityRelationship {
    type V = SqlEntityRelationshipView;

    open spec fn view(&self) -> SqlEntityRelationshipView {
        SqlEntityRelationshipView { parent: self.parent@, child: self.child@, role: self.role@ }
    }
}

impl SqlEntityRelationshipView {
    /// The relationship that the row holds.
    pub open spec fn relationship(&self) -> EntityRelationshipView {
        EntityRelationshipView { parent: self.parent, child: self.child, role: self.role }
    }
}

impl EntityRelationshipView {
    /// The row that holds the relationship.
    pub open spec fn row(&self) -> SqlEntityRelationshipView {
        SqlEntityRelationshipView { parent: self.parent, child: self.child, role: self.role }
    }
}

/// A relationship comes back from its row as it went in, and a row from its
/// relationship.
pub proof fn lemma_relationship_row_round_trip(
    relationship: EntityRelationshipView,
    row: SqlEntityRelationshipView,
)
    ensures
        relationship.row().relationship() == relationship,
        row.relationship().row() == row,
{
}

impl EntityRelationship {
    pub fn to_sql_entity_relationship(&self) -> (row: SqlEntityRelationship)
        ensures
            row@ == self@.row(),
    {
        SqlEntityRelationship {
            parent: self.parent.to_string(),
            child: self.child.to_string(),
            role: self.role.to_string(),
        }
    }
}

impl SqlEntityRelationship {
    pub fn to_relationship(&self) -> (relationship: EntityRelationship)
        ensures
            relationship@ == self@.relationship(),
    {
        EntityRelationship {
            parent: Parent::from(self.parent.as_str()),
            child: Child::from(self.child.as_str()),
            role: Role::from(self.role.as_str()),
        }
    }
}

impl Clone for SqlEntityRelationship {
    fn clone(&self) -> (copy: Self)
        ensures
            copy@ == self@,
    {
        SqlEntityRelationship {
            parent: self.parent.clone(),
            child: self.child.clone(),
            role: self.role.clone(),
        }
    }
}

} // verus!
