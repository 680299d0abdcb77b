use crate::c_api::auxil::c_bytes;
use crate::c_api::auxil::char_pointer_to_string;
use crate::c_api::auxil::fits_c_string;
use crate::c_api::auxil::is_input_outcome;
use crate::c_api::auxil::lemma_text_round_trip;
use crate::c_api::auxil::native_text;
use crate::c_api::auxil::string_to_char_pointer;
use crate::c_api::auxil::CharPointer;
use crate::errors::LoreCoreError;
use crate::types::description::Description;
use crate::types::descriptor::Descriptor;
use crate::types::entity::EntityColumn;
use crate::types::entity::EntityColumnView;
use crate::types::label::Label;
use vstd::prelude::*;

verus! {

/// An entity's attribute in the flat layout. The absent description is the
/// empty string.
#[derive(Debug, PartialEq, Eq)]
pub struct CEntityColumn {
    pub label: CharPointer,
    pub descriptor: CharPointer,
    pub description: CharPointer,
}

/// A flat attribute as plain values.
pub ghost struct CEntityColumnView {
    pub label: Option<Seq<u8>>,
    pub descriptor: Option<Seq<u8>>,
    pub description: Option<Seq<u8>>,
}

impl View for CEntityColumn {
    type V = CEntityColumnView;

    open spec fn view(&self) -> CEntityColumnView {
        CEntityColumnView {
            label: self.label@,
            descriptor: self.descriptor@,
            description: self.description@,
        }
    }
}

impl Clone for CEntityColumn {
    fn clone(&self) -> (copy: Self)
        ensures
            copy@ == self@,
    {
        CEntityColumn {
            label: self.label.clone(),
            descriptor: self.descriptor.clone(),
            description: self.description.clone(),
        }
    }
}

impl EntityColumnView {
    /// Whether each text of the attribute can be a C string.
    pub open spec fn fits_boundary(&self) -> bool {
        fits_c_string(self.label) && fits_c_string(self.descriptor) && fits_c_string(
            self.description,
        )
    }

    /// The attribute in the flat layout.
    pub open spec fn flat(&self) -> CEntityColumnView {
        CEntityColumnView {
            label: Some(c_bytes(self.label)),
            descriptor: Some(c_bytes(self.descriptor)),
            description: Some(c_bytes(self.description)),
        }
    }
}

impl CEntityColumnView {
    /// The attribute that the flat record holds, or the message for the
    /// first of label, descriptor and description that is no text.
    pub open spec fn native(&self) -> Result<EntityColumnView, Seq<char>> {
        match native_text(self.label) {
            Ok(label) => match native_text(self.descriptor) {
                Ok(descriptor) => match native_text(self.description) {
                    Ok(description) => Ok(EntityColumnView { label, descriptor, description }),
                    Err(message) => Err(message),
                },
                Err(message) => Err(message),
            },
            Err(message) => Err(message),
        }
    }
}

/// An attribute whose texts fit C strings comes back from the flat layout as
/// it went in: also one without a description, and one with quotes,
/// backslashes or percent signs in its texts.
pub proof fn lemma_entity_column_round_trip(column: EntityColumnView)
    requires
        column.fits_boundary(),
    ensures
        column.flat().native() == Ok::<EntityColumnView, Seq<char>>(column),
{
    lemma_text_round_trip(column.label);
    lemma_text_round_trip(column.descriptor);
    lemma_text_round_trip(column.description);
}

/// `column` in the flat layout, with newly allocated strings. It never
/// fails.
pub fn to_c_entity_column(column: &EntityColumn) -> (flat: Result<CEntityColumn, LoreCoreError>)
    ensures
        flat is Ok,
        flat->Ok_0@ == column@.flat(),
{
    Ok(
        CEntityColumn {
            label: string_to_char_pointer(column.label.to_str()),
            descriptor: string_to_char_pointer(column.descriptor.to_str()),
            description: string_to_char_pointer(column.description.to_str()),
        },
    )
}

/// The attribute that `column` holds, its texts copied. A null pointer and
/// bytes that are no UTF-8 are input errors.
pub fn to_entity_column(column: &CEntityColumn) -> (native: Result<EntityColumn, LoreCoreError>)
    ensures
        is_input_outcome(native, column@.native()),
{
    let label = match char_pointer_to_string(&column.label) {
        Ok(label) => label,
        Err(error) => {
            return Err(error);
        },
    };
    let descriptor = match char_pointer_to_string(&column.descriptor) {
        Ok(descriptor) => descriptor,
        Err(error) => {
            return Err(error);
        },
    };
    let description = match char_pointer_to_string(&column.description) {
        Ok(description) => description,
        Err(error) => {
            return Err(error);
        },
    };
    Ok(
        EntityColumn {
            label: Label::from(label),
            descriptor: Descriptor::from(descriptor),
            description: Description::from(description),
        },
    )
}

impl TryFrom<EntityColumn> for CEntityColumn {
    type Error = LoreCoreError;

    fn try_from(value: EntityColumn) -> (flat: Result<Self, Self::Error>)
        ensures
            flat is Ok,
            flat->Ok_0@ == value@.flat(),
    {
        to_c_entity_column(&value)
    }
}

impl vstd::std_specs::convert::TryFromSpecImpl<EntityColumn> for CEntityColumn {
    open spec fn obeys_try_from_spec() -> bool {
        false
    }

    open spec fn try_from_spec(value: EntityColumn) -> Result<Self, Self::Error> {
        arbitrary()
    }
}

impl TryFrom<&CEntityColumn> for EntityColumn {
    type Error = LoreCoreError;

    fn try_from(value: &CEntityColumn) -> (native: Result<Self, Self::Error>)
        ensures
            is_input_outcome(native, value@.native()),
    {
        to_entity_column(value)
    }
}

impl vstd::std_specs::convert::TryFromSpecImpl<&CEntityColumn> for EntityColumn {
    open spec fn obeys_try_from_spec() -> bool {
        false
    }

    open spec fn try_from_spec(value: &CEntityColumn) -> Result<Self, Self::Error> {
        arbitrary()
    }
}

} // verus!
