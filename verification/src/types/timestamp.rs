use crate::decimal::decimal;
use crate::decimal::i64_to_text;
use vstd::prelude::*;

verus! {

/// Identifier of a history event: microseconds since the Unix epoch at the
/// moment of creation, made unique by the generator that issued it.
#[derive(Clone, Copy, Debug, PartialEq, Eq, Hash, PartialOrd, Ord, Structural)]
pub struct Timestamp(pub i64);

impl View for Timestamp {
    type V = int;

    open spec fn view(&self) -> int {
        self.0 as int
    }
}

impl Timestamp {
    pub fn to_int(&self) -> (value: i64)
        ensures
            value == self@,
    {
        self.0
    }

    /// The identifier in decimal.
    pub fn to_string(&self) -> (text: String)
        ensures
            text@ == decimal(self@),
    {
        i64_to_text(self.0)
    }
}

impl From<i64> for Timestamp {
    fn from(value: i64) -> (timestamp: Self) {
        Timestamp(value)
    }
}

impl vstd::std_specs::convert::FromSpecImpl<i64> for Timestamp {
    open spec fn obeys_from_spec() -> bool {
        true
    }

    open spec fn from_spec(value: i64) -> Self {
        Timestamp(value)
    }
}

} // verus!
