use crate::decimal::decimal;
use crate::decimal::u32_to_text;
use crate::order::Ranked;
use crate::types::day::Day;
use crate::types::history_item_content::HistoryItemContent;
use crate::types::history_item_properties::HistoryItemProperties;
use crate::types::timestamp::Timestamp;
use crate::types::year::Year;
use std::cmp::Ordering;
use vstd::prelude::*;

verus! {

/// An event of the history. `timestamp` identifies it: it is given once, when
/// the event is made, and never changes.
#[derive(Debug, PartialEq, Eq)]
pub struct HistoryItem {
    pub timestamp: Timestamp,
    pub year: Year,
    pub day: Day,
    pub content: HistoryItemContent,
    pub properties: HistoryItemProperties,
}

/// A history event as numbers and texts.
pub ghost struct HistoryItemView {
    pub timestamp: int,
    pub year: int,
    pub day: Option<int>,
    pub content: Seq<char>,
    pub properties: Seq<char>,
}

impl View for HistoryItem {
    type V = HistoryItemView;

    open spec fn view(&self) -> HistoryItemView {
        HistoryItemView {
            timestamp: self.timestamp@,
            year: self.year@,
            day: self.day@,
            content: self.content@,
            properties: self.properties@,
        }
    }
}

impl HistoryItemView {
    /// Whether the event stands before `other` in the history: by year, in
    /// one year the events without a day first and then by day, on one day by
    /// their identifiers.
    pub open spec fn before(&self, other: &HistoryItemView) -> bool {
        if self.year != other.year {
            self.year < other.year
        } else if self.day != other.day {
            match (self.day, other.day) {
                (None, _) => true,
                (Some(_), None) => false,
                (Some(a), Some(b)) => a < b,
            }
        } else {
            self.timestamp < other.timestamp
        }
    }

    /// The event in a line: year and day, the day as 0 where there is none,
    /// then the content.
    pub open spec fn line(&self) -> Seq<char> {
        decimal(self.year) + "-"@ + decimal(
            match self.day {
                Some(day) => day,
                None => 0,
            },
        ) + ": "@ + self.content
    }
}

impl HistoryItem {
    /// Whether the day can be stored and handed across the boundary.
    pub open spec fn is_valid(&self) -> bool {
        self.day.is_valid()
    }

    /// The event in a line, as in `2020-14: The tower fell.`
    pub fn to_string(&self) -> (line: String)
        ensures
            line@ == self@.line(),
    {
        let mut line = self.year.to_string();
        line.append("-");
        let day = u32_to_text(self.day.to_int());
        line.append(day.as_str());
        line.append(": ");
        line.append(self.content.to_str());
        line
    }
}

impl Clone for HistoryItem {
    fn clone(&self) -> (copy: Self)
        ensures
            copy@ == self@,
    {
        HistoryItem {
            timestamp: self.timestamp,
            year: self.year,
            day: self.day,
            content: self.content.clone(),
            properties: self.properties.clone(),
        }
    }
}

/// In the order of the history. Events share a rank only where they share
/// year, day and identifier.
impl Ranked for HistoryItem {
    open spec fn before(&self, other: &Self) -> bool {
        self@.before(&other@)
    }

    proof fn lemma_before_irreflexive(a: &Self) {
    }

    proof fn lemma_before_transitive(a: &Self, b: &Self, c: &Self) {
    }

    proof fn lemma_not_after_transitive(a: &Self, b: &Self, c: &Self) {
    }

    fn precedes(&self, other: &Self) -> (before: bool) {
        if self.year.0 != other.year.0 {
            self.year.0 < other.year.0
        } else if self.day.precedes(&other.day) {
            true
        } else if other.day.precedes(&self.day) {
            false
        } else {
            self.timestamp.0 < other.timestamp.0
        }
    }
}

/// The order of the history, for `<` and its kin.
impl PartialOrd for HistoryItem {
    fn partial_cmp(&self, other: &Self) -> (order: Option<Ordering>) {
        if self.precedes(other) {
            Some(Ordering::Less)
        } else if other.precedes(self) {
            Some(Ordering::Greater)
        } else {
            Some(Ordering::Equal)
        }
    }
}

impl vstd::std_specs::cmp::PartialOrdSpecImpl for HistoryItem {
    open spec fn obeys_partial_cmp_spec() -> bool {
        true
    }

    open spec fn partial_cmp_spec(&self, other: &Self) -> Option<Ordering> {
        if self.before(other) {
            Some(Ordering::Less)
        } else if other.before(self) {
            Some(Ordering::Greater)
        } else {
            Some(Ordering::Equal)
        }
    }
}

} // verus!
