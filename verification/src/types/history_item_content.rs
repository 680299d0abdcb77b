use vstd::prelude::*;

verus! {

/// What happened: the text of a history event.
#[derive(Debug, PartialEq, Eq, Hash, PartialOrd, Ord)]
pub struct HistoryItemContent(pub String);

impl View for HistoryItemContent {
    type V = Seq<char>;

    open spec fn view(&self) -> Seq<char> {
        self.0@
    }
}

impl HistoryItemContent {
    pub fn to_str(&self) -> (text: &str)
        ensures
            text@ == self@,
    {
        self.0.as_str()
    }

    pub fn to_string(&self) -> (text: String)
        ensures
            text@ == self@,
    {
        self.0.clone()
    }
}

impl Clone for HistoryItemContent {
    fn clone(&self) -> (copy: Self)
        ensures
            copy@ == self@,
    {
        HistoryItemContent(self.0.clone())
    }
}

impl From<&str> for HistoryItemContent {
    fn from(value: &str) -> (made: Self)
        ensures
            made@ == value@,
    {
        HistoryItemContent(value.to_owned())
    }
}

impl vstd::std_specs::convert::FromSpecImpl<&str> for HistoryItemContent {
    open spec fn obeys_from_spec() -> bool {
        false
    }

    open spec fn from_spec(value: &str) -> Self {
        arbitrary()
    }
}

impl From<String> for HistoryItemContent {
    fn from(value: String) -> (made: Self)
        ensures
            made@ == value@,
    {
        HistoryItemContent(value)
    }
}

impl vstd::std_specs::convert::FromSpecImpl<String> for HistoryItemContent {
    open spec fn obeys_from_spec() -> bool {
        true
    }

    open spec fn from_spec(value: String) -> Self {
        HistoryItemContent(value)
    }
}

} // verus!
