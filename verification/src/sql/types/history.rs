use crate::text::optional_text;
use crate::types::day::day_of;
use crate::types::day::Day;
use crate::types::history::HistoryItem;
use crate::types::history::HistoryItemView;
use crate::types::history_item_content::HistoryItemContent;
use crate::types::history_item_properties::HistoryItemProperties;
use crate::types::timestamp::Timestamp;
use crate::types::year::Year;
use vstd::prelude::*;

verus! {

/// A row of the table `history_items`. The absent day and the absent
/// properties are the engine's null.
#[derive(Debug, PartialEq, Eq, PartialOrd, Ord)]
pub struct SqlHistoryItem {
    pub timestamp: i64,
    pub year: i32,
    pub day: Option<i32>,
    pub content: String,
    pub properties: Option<String>,
}

/// A row of `history_items` as plain values.
pub ghost struct SqlHistoryItemView {
    pub timestamp: int,
    pub year: int,
    pub day: Option<int>,
    pub content: Seq<char>,
    pub properties: Option<Seq<char>>,
}

impl View for SqlHistoryItem {
    type V = SqlHistoryItemView;

    open spec fn view(&self) -> SqlHistoryItemView {
        SqlHistoryItemView {
            timestamp: self.timestamp as int,
            year: self.year as int,
            day: match self.day {
                Some(day) => Some(day as int),
                None => None,
            },
            content: self.content@,
            properties: optional_text(self.properties),
        }
    }
}

impl SqlHistoryItemView {
    /// The event that the row holds. Null, 0 and what is below stand for no
    /// day; null and the empty text for the absent properties.
    pub open spec fn item(&self) -> HistoryItemView {
        HistoryItemView {
            timestamp: self.timestamp,
            year: self.year,
            day: match self.day {
                Some(day) => day_of(day),
                None => None,
            },
            content: self.content,
            properties: match self.properties {
                Some(properties) => properties,
                None => Seq::empty(),
            },
        }
    }
}

impl HistoryItemView {
    /// The day as the store and the boundary can hold it: a day above
    /// `i32::MAX` or below 1 counts as no day.
    pub open spec fn stored_day(&self) -> Option<int> {
        match self.day {
            Some(day) => if 1 <= day <= i32::MAX {
                Some(day)
            } else {
                None
            },
            None => None,
        }
    }

    /// The row that holds the event.
    pub open spec fn row(&self) -> SqlHistoryItemView {
        SqlHistoryItemView {
            timestamp: self.timestamp,
            year: self.year,
            day: self.stored_day(),
            content: self.content,
            properties: if self.properties.len() > 0 {
                Some(self.properties)
            } else {
                None
            },
        }
    }
}

/// An event with a valid day comes back from its row as it went in.
pub proof fn lemma_history_row_round_trip(item: HistoryItemView)
    requires
        item.day is Some ==> 1 <= item.day->Some_0 <= i32::MAX,
    ensures
        item.row().item() == item,
{
    assert(item.row().item().properties =~= item.properties);
}

impl HistoryItem {
    pub fn to_sql_history_item(&self) -> (row: SqlHistoryItem)
        ensures
            row@ == self@.row(),
    {
        SqlHistoryItem {
            timestamp: self.timestamp.to_int(),
            year: self.year.to_int(),
            day: self.day.to_optional_signed_int(),
            content: self.content.to_string(),
            properties: self.properties.to_optional_string(),
        }
    }
}

impl SqlHistoryItem {
    pub fn to_history_item(&self) -> (item: HistoryItem)
        ensures
            item@ == self@.item(),
            item.is_valid(),
    {
        HistoryItem {
            timestamp: Timestamp::from(self.timestamp),
            year: Year::from(self.year),
            day: Day::from(self.day),
            content: HistoryItemContent::from(self.content.clone()),
            properties: HistoryItemProperties::from(self.properties.clone()),
        }
    }
}

impl Clone for SqlHistoryItem {
    fn clone(&self) -> (copy: Self)
        ensures
            copy@ == self@,
    {
        SqlHistoryItem {
            timestamp: self.timestamp,
            year: self.year,
            day: self.day,
            content: self.content.clone(),
            properties: self.properties.clone(),
        }
    }
}

} // verus!
