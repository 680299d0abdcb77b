use crate::c_api::auxil::c_bytes;
use crate::c_api::auxil::char_pointer_to_string;
use crate::c_api::auxil::fits_c_string;
use crate::c_api::auxil::is_input_outcome;
use crate::c_api::auxil::lemma_text_round_trip;
use crate::c_api::auxil::native_text;
use crate::c_api::auxil::string_to_char_pointer;
use crate::c_api::auxil::CharPointer;
use crate::errors::LoreCoreError;
use crate::types::child::Child;
use crate::types::parent::Parent;
use crate::types::relationship::EntityRelationship;
use crate::types::relationship::EntityRelationshipView;
use crate::types::role::Role;
use vstd::prelude::*;

verus! {

/// A relationship in the flat layout. The absent role is the empty string.
#[derive(Debug, PartialEq, Eq)]
pub struct CEntityRelationship {
    pub parent: CharPointer,
    pub child: CharPointer,
    pub role: CharPointer,
}

/// A flat relationship as plain values.
pub ghost struct CEntityRelationshipView {
    pub parent: Option<Seq<u8>>,
    pub child: Option<Seq<u8>>,
    pub role: Option<Seq<u8>>,
}

impl View for CEntityRelationship {
    type V = CEntityRelationshipView;

    open spec fn view(&self) -> CEntityRelationshipView {
        CEntityRelationshipView { parent: self.parent@, child: self.child@, role: self.role@ }
    }
}

impl Clone for CEntityRelationship {
    fn clone(&self) -> (copy: Self)
        ensures
            copy@ == self@,
    {
        CEntityRelationship {
            parent: self.parent.clone(),
            child: self.child.clone(),
            role: self.role.clone(),
        }
    }
}

impl EntityRelationshipView {
    /// Whether each text of the relationship can be a C string.
    pub open spec fn fits_boundary(&self) -> bool {
        fits_c_string(self.parent) && fits_c_string(self.child) && fits_c_string(self.role)
    }

    /// The relationship in the flat layout.
    pub open spec fn flat(&self) -> CEntityRelationshipView {
        CEntityRelationshipView {
            parent: Some(c_bytes(self.parent)),
            child: Some(c_bytes(self.child)),
            role: Some(c_bytes(self.role)),
        }
    }
}

impl CEntityRelationshipView {
    /// The relationship that the flat record holds, or the message for the
    /// first of parent, child and role that is no text.
    pub open spec fn native(&self) -> Result<EntityRelationshipView, Seq<char>> {
        match native_text(self.parent) {
            Ok(parent) => match native_text(self.child) {
                Ok(child) => match native_text(self.role) {
                    Ok(role) => Ok(EntityRelationshipView { parent, child, role }),
                    Err(message) => Err(message),
                },
                Err(message) => Err(message),
            },
            Err(message) => Err(message),
        }
    }
}

/// A relationship whose texts fit C strings comes back from the flat layout
/// as it went in: also one without a role.
pub proof fn lemma_relationship_round_trip(relationship: EntityRelationshipView)
    requires
        relationship.fits_boundary(),
    ensures
        relationship.flat().native() == Ok::<EntityRelationshipView, Seq<char>>(relationship),
{
    lemma_text_round_trip(relationship.parent);
    lemma_text_round_trip(relationship.child);
    lemma_text_round_trip(relationship.role);
}

/// `rel` in the flat layout, with newly allocated strings. It never fails.
pub fn to_c_relationship(rel: &EntityRelationship) -> (flat: Result<
    CEntityRelationship,
    LoreCoreError,
>)
    ensures
        flat is Ok,
        flat->Ok_0@ == rel@.flat(),
{
    Ok(
        CEntityRelationship {
            parent: string_to_char_pointer(rel.parent.to_str()),
            child: string_to_char_pointer(rel.child.to_str()),
            role: string_to_char_pointer(rel.role.to_str()),
        },
    )
}

/// The relationship that `rel` holds, its texts copied. A null pointer and
/// bytes that are no UTF-8 are input errors.
pub fn to_relationship(rel: &CEntityRelationship) -> (native: Result<
    EntityRelationship,
    LoreCoreError,
>)
    ensures
        is_input_outcome(native, rel@.native()),
{
    let parent = match char_pointer_to_string(&rel.parent) {
        Ok(parent) => parent,
        Err(error) => {
            return Err(error);
        },
    };
    let child = match char_pointer_to_string(&rel.child) {
        Ok(child) => child,
        Err(error) => {
            return Err(error);
        },
    };
    let role = match char_pointer_to_string(&rel.role) {
        Ok(role) => role,
        Err(error) => {
            return Err(error);
        },
    };
    Ok(
        EntityRelationship {
            parent: Parent::from(parent),
            child: Child::from(child),
            role: Role::from(role),
        },
    )
}

impl TryFrom<EntityRelationship> for CEntityRelationship {
    type Error = LoreCoreError;

    fn try_from(value: EntityRelationship) -> (flat: Result<Self, Self::Error>)
        ensures
            flat is Ok,
            flat->Ok_0@ == value@.flat(),
    {
        to_c_relationship(&value)
    }
}

impl vstd::std_specs::convert::TryFromSpecImpl<EntityRelationship> for CEntityRelationship {
    open spec fn obeys_try_from_spec() -> bool {
        false
    }

    open spec fn try_from_spec(value: EntityRelationship) -> Result<Self, Self::Error> {
        arbitrary()
    }
}

impl TryFrom<&CEntityRelationship> for EntityRelationship {
    type Error = LoreCoreError;

    fn try_from(value: &CEntityRelationship) -> (native: Result<Self, Self::Error>)
        ensures
            is_input_outcome(native, value@.native()),
    {
        to_relationship(value)
    }
}

impl vstd::std_specs::convert::TryFromSpecImpl<&CEntityRelationship> for EntityRelationship {
    open spec fn obeys_try_from_spec() -> bool {
        false
    }

    open spec fn try_from_spec(value: &CEntityRelationship) -> Result<Self, Self::Error> {
        arbitrary()
    }
}

} // verus!
