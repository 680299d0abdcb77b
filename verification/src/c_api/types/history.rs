use crate::c_api::auxil::c_bytes;
use crate::c_api::auxil::char_pointer_to_string;
use crate::c_api::auxil::fits_c_string;
use crate::c_api::auxil::is_input_outcome;
use crate::c_api::auxil::lemma_text_round_trip;
use crate::c_api::auxil::native_text;
use crate::c_api::auxil::string_to_char_pointer;
use crate::c_api::auxil::CharPointer;
use crate::errors::LoreCoreError;
use crate::types::day::day_of;
use crate::types::day::Day;
use crate::types::history::HistoryItem;
use crate::types::history::HistoryItemView;
use crate::types::history_item_content::HistoryItemContent;
use crate::types::history_item_properties::HistoryItemProperties;
use crate::types::timestamp::Timestamp;
use crate::types::year::Year;
use vstd::prelude::*;

verus! {

/// A history event in the flat layout. No day is 0, and what is below 0
/// reads as no day too; the absent properties are the empty string.
#[derive(Debug, PartialEq, Eq)]
pub struct CHistoryItem {
    pub timestamp: i64,
    pub year: i32,
    pub day: i32,
    pub content: CharPointer,
    pub properties: CharPointer,
}

/// A flat history event as plain values.
pub ghost struct CHistoryItemView {
    pub timestamp: int,
    pub year: int,
    pub day: int,
    pub content: Option<Seq<u8>>,
    pub properties: Option<Seq<u8>>,
}

impl View for CHistoryItem {
    type V = CHistoryItemView;

    open spec fn view(&self) -> CHistoryItemView {
        CHistoryItemView {
            timestamp: self.timestamp as int,
            year: self.year as int,
            day: self.day as int,
            content: self.content@,
            properties: self.properties@,
        }
    }
}

impl Clone for CHistoryItem {
    fn clone(&self) -> (copy: Self)
        ensures
            copy@ == self@,
    {
        CHistoryItem {
            timestamp: self.timestamp,
            year: self.year,
            day: self.day,
            content: self.content.clone(),
            properties: self.properties.clone(),
        }
    }
}

impl HistoryItemView {
    /// Whether the event can cross the boundary unchanged: its day is no day
    /// or a day from 1 to `i32::MAX`, and its texts can be C strings.
    pub open spec fn fits_boundary(&self) -> bool {
        &&& self.day is Some ==> 1 <= self.day->Some_0 <= i32::MAX
        &&& fits_c_string(self.content)
        &&& fits_c_string(self.properties)
    }

    /// The event in the flat layout.
    pub open spec fn flat(&self) -> CHistoryItemView {
        CHistoryItemView {
            timestamp: self.timestamp,
            year: self.year,
            day: match self.stored_day() {
                Some(day) => day,
                None => 0,
            },
            content: Some(c_bytes(self.content)),
            properties: Some(c_bytes(self.properties)),
        }
    }
}

impl CHistoryItemView {
    /// The event that the flat record holds, or the message for the first of
    /// content and properties that is no text.
    pub open spec fn native(&self) -> Result<HistoryItemView, Seq<char>> {
        match native_text(self.content) {
            Ok(content) => match native_text(self.properties) {
                Ok(properties) => Ok(
                    HistoryItemView {
                        timestamp: self.timestamp,
                        year: self.year,
                        day: day_of(self.day),
                        content,
                        properties,
                    },
                ),
                Err(message) => Err(message),
            },
            Err(message) => Err(message),
        }
    }
}

/// An event that fits the boundary comes back from the flat layout as it
/// went in: also one without a day, without properties, or with the empty
/// content.
pub proof fn lemma_history_item_round_trip(item: HistoryItemView)
    requires
        item.fits_boundary(),
    ensures
        item.flat().native() == Ok::<HistoryItemView, Seq<char>>(item),
{
    lemma_text_round_trip(item.content);
    lemma_text_round_trip(item.properties);
}

/// `item` in the flat layout, with newly allocated strings. It never fails.
pub fn to_c_history_item(item: &HistoryItem) -> (flat: Result<CHistoryItem, LoreCoreError>)
    ensures
        flat is Ok,
        flat->Ok_0@ == item@.flat(),
{
    Ok(
        CHistoryItem {
            timestamp: item.timestamp.to_int(),
            year: item.year.to_int(),
            day: match item.day.to_optional_signed_int() {
                Some(day) => day,
                None => 0,
            },
            content: string_to_char_pointer(item.content.to_str()),
            properties: string_to_char_pointer(item.properties.to_str()),
        },
    )
}

/// The event that `item` holds, its texts copied. A null pointer and bytes
/// that are no UTF-8 are input errors.
pub fn to_history_item(item: &CHistoryItem) -> (native: Result<HistoryItem, LoreCoreError>)
    ensures
        is_input_outcome(native, item@.native()),
        native is Ok ==> native->Ok_0.is_valid(),
{
    let content = match char_pointer_to_string(&item.content) {
        Ok(content) => content,
        Err(error) => {
            return Err(error);
        },
    };
    let properties = match char_pointer_to_string(&item.properties) {
        Ok(properties) => properties,
        Err(error) => {
            return Err(error);
        },
    };
    Ok(
        HistoryItem {
            timestamp: Timestamp::from(item.timestamp),
            year: Year::from(item.year),
            day: Day::from(item.day),
            content: HistoryItemContent::from(content),
            properties: HistoryItemProperties::from(properties),
        },
    )
}

impl TryFrom<HistoryItem> for CHistoryItem {
    type Error = LoreCoreError;

    fn try_from(value: HistoryItem) -> (flat: Result<Self, Self::Error>)
        ensures
            flat is Ok,
            flat->Ok_0@ == value@.flat(),
    {
        to_c_history_item(&value)
    }
}

impl vstd::std_specs::convert::TryFromSpecImpl<HistoryItem> for CHistoryItem {
    open spec fn obeys_try_from_spec() -> bool {
        false
    }

    open spec fn try_from_spec(value: HistoryItem) -> Result<Self, Self::Error> {
        arbitrary()
    }
}

impl TryFrom<&CHistoryItem> for HistoryItem {
    type Error = LoreCoreError;

    fn try_from(value: &CHistoryItem) -> (native: Result<Self, Self::Error>)
        ensures
            is_input_outcome(native, value@.native()),
    {
        to_history_item(value)
    }
}

impl vstd::std_specs::convert::TryFromSpecImpl<&CHistoryItem> for HistoryItem {
    open spec fn obeys_try_from_spec() -> bool {
        false
    }

    open spec fn try_from_spec(value: &CHistoryItem) -> Result<Self, Self::Error> {
        arbitrary()
    }
}

} // verus!
