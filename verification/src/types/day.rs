use crate::decimal::decimal;
use crate::decimal::denoted;
use crate::decimal::i64_to_text;
use crate::decimal::parse_u32;
use crate::errors::LoreCoreError;
use crate::order::Ranked;
use vstd::prelude::*;

verus! {

/// The day of the year of a history event, counted from 1, or no day where
/// only the year is known.
///
/// The days that can be stored and handed across the foreign-function
/// boundary are 1 to `i32::MAX`: there 0 and what is below stand for "no
/// day". [`Day::is_valid`] says whether a value is one of those or no day.
#[derive(Clone, Copy, Debug, PartialEq, Eq, Hash, PartialOrd, Ord, Structural)]
pub struct Day(pub Option<u32>);

impl View for Day {
    type V = Option<int>;

    open spec fn view(&self) -> Option<int> {
        match self.0 {
            Some(day) => Some(day as int),
            None => None,
        }
    }
}

/// The message for a text that is no day.
pub open spec fn unparsable_day(text: Seq<char>) -> Seq<char> {
    "Unable to parse \""@ + text + "\" as day"@
}

/// The day that the number `value` stands for: itself where it is positive,
/// no day where it is not.
pub open spec fn day_of(value: int) -> Option<int> {
    if value > 0 {
        Some(value)
    } else {
        None
    }
}

impl Day {
    /// No day.
    pub fn none() -> (day: Day)
        ensures
            day@ is None,
            day.is_valid(),
    {
        Day(None)
    }

    /// Whether this is no day, or a day from 1 to `i32::MAX`.
    pub open spec fn is_valid(&self) -> bool {
        match self.0 {
            Some(day) => 1 <= day <= i32::MAX,
            None => true,
        }
    }

    /// The day as the store and the boundary hold it: itself where it is
    /// valid, no day where it is not.
    pub open spec fn stored(&self) -> Option<int> {
        match self.0 {
            Some(day) => if 1 <= day <= i32::MAX {
                Some(day as int)
            } else {
                None
            },
            None => None,
        }
    }

    /// The day, and 0 for no day.
    pub fn to_int(&self) -> (value: u32)
        ensures
            value == match self@ {
                Some(day) => day,
                None => 0,
            },
    {
        match self.0 {
            Some(day) => day,
            None => 0,
        }
    }

    pub fn to_optional_int(&self) -> (value: Option<u32>)
        ensures
            value == self.0,
    {
        self.0
    }

    /// The day as a signed number, as the store and the boundary hold it. A
    /// day that is not valid counts as no day.
    pub fn to_optional_signed_int(&self) -> (value: Option<i32>)
        ensures
            match value {
                Some(day) => self.stored() == Some(day as int),
                None => self.stored() is None,
            },
            self.is_valid() ==> self.stored() == self@,
    {
        match self.0 {
            Some(day) => if 1 <= day && day <= 0x7fff_ffff {
                Some(day as i32)
            } else {
                None
            },
            None => None,
        }
    }

    pub fn is_some(&self) -> (some: bool)
        ensures
            some == self@ is Some,
    {
        self.0.is_some()
    }

    /// The day in decimal, and the empty text for no day.
    pub open spec fn text(&self) -> Seq<char> {
        match self@ {
            Some(day) => decimal(day),
            None => Seq::empty(),
        }
    }

    /// The day in decimal, and the empty text for no day.
    pub fn to_string(&self) -> (text: String)
        ensures
            text@ == self.text(),
    {
        match self.0 {
            Some(day) => i64_to_text(day as i64),
            None => String::new(),
        }
    }

    /// The day as it is formatted for debugging.
    pub open spec fn debug_view(&self) -> Seq<char> {
        match self@ {
            Some(day) => "Day(Some("@ + decimal(day) + "))"@,
            None => "Day(None)"@,
        }
    }

    /// The day as it is formatted for debugging: `Day(Some(3))`, `Day(None)`.
    pub fn debug_text(&self) -> (text: String)
        ensures
            text@ == self.debug_view(),
    {
        match self.0 {
            Some(day) => {
                let mut text = String::from_str("Day(Some(");
                let value = i64_to_text(day as i64);
                text.append(value.as_str());
                text.append("))");
                text
            },
            None => String::from_str("Day(None)"),
        }
    }
}

impl From<u32> for Day {
    /// 0 is no day.
    fn from(value: u32) -> (day: Self)
        ensures
            day@ == day_of(value as int),
    {
        if value > 0 {
            Day(Some(value))
        } else {
            Day(None)
        }
    }
}

impl vstd::std_specs::convert::FromSpecImpl<u32> for Day {
    open spec fn obeys_from_spec() -> bool {
        true
    }

    open spec fn from_spec(value: u32) -> Self {
        if value > 0 {
            Day(Some(value))
        } else {
            Day(None)
        }
    }
}

impl From<i32> for Day {
    /// 0 and what is below are no day.
    fn from(value: i32) -> (day: Self)
        ensures
            day@ == day_of(value as int),
            day.is_valid(),
    {
        if value > 0 {
            Day(Some(value as u32))
        } else {
            Day(None)
        }
    }
}

impl vstd::std_specs::convert::FromSpecImpl<i32> for Day {
    open spec fn obeys_from_spec() -> bool {
        true
    }

    open spec fn from_spec(value: i32) -> Self {
        if value > 0 {
            Day(Some(value as u32))
        } else {
            Day(None)
        }
    }
}

impl From<Option<u32>> for Day {
    fn from(value: Option<u32>) -> (day: Self) {
        Day(value)
    }
}

impl vstd::std_specs::convert::FromSpecImpl<Option<u32>> for Day {
    open spec fn obeys_from_spec() -> bool {
        true
    }

    open spec fn from_spec(value: Option<u32>) -> Self {
        Day(value)
    }
}

impl From<Option<i32>> for Day {
    /// `None`, 0 and what is below are no day.
    fn from(value: Option<i32>) -> (day: Self)
        ensures
            day@ == match value {
                Some(value) => day_of(value as int),
                None => None,
            },
            day.is_valid(),
    {
        match value {
            Some(value) => if value > 0 {
                Day(Some(value as u32))
            } else {
                Day(None)
            },
            None => Day(None),
        }
    }
}

impl vstd::std_specs::convert::FromSpecImpl<Option<i32>> for Day {
    open spec fn obeys_from_spec() -> bool {
        true
    }

    open spec fn from_spec(value: Option<i32>) -> Self {
        match value {
            Some(value) => if value > 0 {
                Day(Some(value as u32))
            } else {
                Day(None)
            },
            None => Day(None),
        }
    }
}

impl TryFrom<&str> for Day {
    type Error = LoreCoreError;

    /// The day that `value` denotes in decimal, with or without a plus sign;
    /// 0 denotes no day. What is no such text, or denotes a number that does
    /// not fit in 32 bits, is an input error.
    fn try_from(value: &str) -> (day: Result<Self, Self::Error>)
        ensures
            match day {
                Ok(day) => value@[0] != '-' && denoted(value@) is Some && day@ == day_of(
                    denoted(value@)->Some_0,
                ),
                Err(error) => {
                    &&& !(denoted(value@) is Some && value@[0] != '-' && denoted(value@)->Some_0
                        <= u32::MAX)
                    &&& error is InputError
                    &&& error.message() == unparsable_day(value@)
                },
            },
    {
        match parse_u32(value) {
            Some(day) => Ok(Day::from(day)),
            None => {
                let mut message = String::from_str("Unable to parse \"");
                message.append(value);
                message.append("\" as day");
                Err(LoreCoreError::InputError(message))
            },
        }
    }
}

impl vstd::std_specs::convert::TryFromSpecImpl<&str> for Day {
    open spec fn obeys_try_from_spec() -> bool {
        false
    }

    open spec fn try_from_spec(value: &str) -> Result<Self, Self::Error> {
        arbitrary()
    }
}

impl TryFrom<String> for Day {
    type Error = LoreCoreError;

    /// As for a string slice.
    fn try_from(value: String) -> (day: Result<Self, Self::Error>)
        ensures
            match day {
                Ok(day) => value@[0] != '-' && denoted(value@) is Some && day@ == day_of(
                    denoted(value@)->Some_0,
                ),
                Err(error) => {
                    &&& !(denoted(value@) is Some && value@[0] != '-' && denoted(value@)->Some_0
                        <= u32::MAX)
                    &&& error is InputError
                    &&& error.message() == unparsable_day(value@)
                },
            },
    {
        Day::try_from(value.as_str())
    }
}

impl vstd::std_specs::convert::TryFromSpecImpl<String> for Day {
    open spec fn obeys_try_from_spec() -> bool {
        false
    }

    open spec fn try_from_spec(value: String) -> Result<Self, Self::Error> {
        arbitrary()
    }
}

impl std::ops::Add<u32> for Day {
    type Output = Day;

    /// The day `rhs` days later; no day stays no day.
    fn add(self, rhs: u32) -> (later: Day) {
        match self.0 {
            Some(day) => Day(Some(day + rhs)),
            None => Day(None),
        }
    }
}

impl vstd::std_specs::ops::AddSpecImpl<u32> for Day {
    open spec fn obeys_add_spec() -> bool {
        true
    }

    /// The later day fits in 32 bits.
    open spec fn add_req(self, rhs: u32) -> bool {
        match self.0 {
            Some(day) => day + rhs <= u32::MAX,
            None => true,
        }
    }

    open spec fn add_spec(self, rhs: u32) -> Day {
        match self.0 {
            Some(day) => Day(Some((day + rhs) as u32)),
            None => Day(None),
        }
    }
}

/// No day first, then the days in their order.
impl Ranked for Day {
    open spec fn before(&self, other: &Self) -> bool {
        match (self@, other@) {
            (None, None) => false,
            (None, Some(_)) => true,
            (Some(_), None) => false,
            (Some(a), Some(b)) => a < b,
        }
    }

    proof fn lemma_before_irreflexive(a: &Self) {
    }

    proof fn lemma_before_transitive(a: &Self, b: &Self, c: &Self) {
    }

    proof fn lemma_not_after_transitive(a: &Self, b: &Self, c: &Self) {
    }

    fn precedes(&self, other: &Self) -> (before: bool) {
        match (self.0, other.0) {
            (None, None) => false,
            (None, Some(_)) => true,
            (Some(_), None) => false,
            (Some(a), Some(b)) => a < b,
        }
    }
}

} // verus!
