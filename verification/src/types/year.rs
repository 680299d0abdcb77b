use crate::decimal::decimal;
use crate::decimal::denoted;
use crate::decimal::i64_to_text;
use crate::decimal::parse_i32;
use crate::errors::LoreCoreError;
use crate::order::Ranked;
use vstd::prelude::*;

verus! {

/// The year of a history event. Negative years are years before the first.
#[derive(Clone, Copy, Debug, PartialEq, Eq, Hash, PartialOrd, Ord, Structural)]
pub struct Year(pub i32);

impl View for Year {
    type V = int;

    open spec fn view(&self) -> int {
        self.0 as int
    }
}

/// The message for a text that is no year.
pub open spec fn unparsable_year(text: Seq<char>) -> Seq<char> {
    "Unable to parse \""@ + text + "\" as year"@
}

impl Year {
    pub fn to_int(&self) -> (value: i32)
        ensures
            value == self@,
    {
        self.0
    }

    /// The year in decimal.
    pub fn to_string(&self) -> (text: String)
        ensures
            text@ == decimal(self@),
    {
        i64_to_text(self.0 as i64)
    }

    /// The year as it is formatted for debugging.
    pub open spec fn debug_view(&self) -> Seq<char> {
        "Year("@ + decimal(self@) + ")"@
    }

    /// The year as it is formatted for debugging: `Year(2020)`.
    pub fn debug_text(&self) -> (text: String)
        ensures
            text@ == self.debug_view(),
    {
        let mut text = String::from_str("Year(");
        let value = self.to_string();
        text.append(value.as_str());
        text.append(")");
        text
    }
}

impl From<i32> for Year {
    fn from(value: i32) -> (year: Self) {
        Year(value)
    }
}

impl vstd::std_specs::convert::FromSpecImpl<i32> for Year {
    open spec fn obeys_from_spec() -> bool {
        true
    }

    open spec fn from_spec(value: i32) -> Self {
        Year(value)
    }
}

impl TryFrom<&str> for Year {
    type Error = LoreCoreError;

    /// The year that `value` denotes in decimal, with or without a sign. What
    /// is no such text, or denotes a year that does not fit in 32 bits, is an
    /// input error.
    fn try_from(value: &str) -> (year: Result<Self, Self::Error>)
        ensures
            match year {
                Ok(year) => denoted(value@) == Some(year@),
                Err(error) => {
                    &&& !(denoted(value@) is Some && i32::MIN <= denoted(value@)->Some_0
                        <= i32::MAX)
                    &&& error is InputError
                    &&& error.message() == unparsable_year(value@)
                },
            },
    {
        match parse_i32(value) {
            Some(year) => Ok(Year(year)),
            None => {
                let mut message = String::from_str("Unable to parse \"");
                message.append(value);
                message.append("\" as year");
                Err(LoreCoreError::InputError(message))
            },
        }
    }
}

impl vstd::std_specs::convert::TryFromSpecImpl<&str> for Year {
    open spec fn obeys_try_from_spec() -> bool {
        false
    }

    open spec fn try_from_spec(value: &str) -> Result<Self, Self::Error> {
        arbitrary()
    }
}

impl std::ops::Add<i32> for Year {
    type Output = Year;

    fn add(self, rhs: i32) -> (later: Year) {
        Year(self.0 + rhs)
    }
}

impl vstd::std_specs::ops::AddSpecImpl<i32> for Year {
    open spec fn obeys_add_spec() -> bool {
        true
    }

    /// The sum is a year that fits in 32 bits.
    open spec fn add_req(self, rhs: i32) -> bool {
        i32::MIN <= self.0 + rhs <= i32::MAX
    }

    open spec fn add_spec(self, rhs: i32) -> Year {
        Year((self.0 + rhs) as i32)
    }
}

impl std::ops::Sub<i32> for Year {
    type Output = Year;

    fn sub(self, rhs: i32) -> (earlier: Year) {
        Year(self.0 - rhs)
    }
}

impl vstd::std_specs::ops::SubSpecImpl<i32> for Year {
    open spec fn obeys_sub_spec() -> bool {
        true
    }

    /// The difference is a year that fits in 32 bits.
    open spec fn sub_req(self, rhs: i32) -> bool {
        i32::MIN <= self.0 - rhs <= i32::MAX
    }

    open spec fn sub_spec(self, rhs: i32) -> Year {
        Year((self.0 - rhs) as i32)
    }
}

/// Earlier years first.
impl Ranked for Year {
    open spec fn before(&self, other: &Self) -> bool {
        self@ < other@
    }

    proof fn lemma_before_irreflexive(a: &Self) {
    }

    proof fn lemma_before_transitive(a: &Self, b: &Self, c: &Self) {
    }

    proof fn lemma_not_after_transitive(a: &Self, b: &Self, c: &Self) {
    }

    fn precedes(&self, other: &Self) -> (before: bool) {
        self.0 < other.0
    }
}

} // verus!
