use crate::text::optional_text;
use vstd::prelude::*;

verus! {

/// The structured payload of a history event, as the text that stores it (a
/// serialised map from keys to values, for one), or nothing. The empty text
/// stands for the absent payload.
#[derive(Debug, PartialEq, Eq, Hash, PartialOrd, Ord)]
pub struct HistoryItemProperties(pub String);

impl View for HistoryItemProperties {
    type V = Seq<char>;

    open spec fn view(&self) -> Seq<char> {
        self.0@
    }
}

impl HistoryItemProperties {
    /// The absent payload: the empty text.
    pub fn none() -> (absent: HistoryItemProperties)
        ensures
            absent@ == Seq::<char>::empty(),
            !absent.is_present(),
    {
        HistoryItemProperties(String::new())
    }

    /// Whether there is a payload: the text is not empty.
    pub open spec fn is_present(&self) -> bool {
        self@.len() > 0
    }

    /// The text where there is one, `None` for the absent payload.
    pub open spec fn optional(&self) -> Option<Seq<char>> {
        if self.is_present() {
            Some(self@)
        } else {
            None
        }
    }

    pub fn to_str(&self) -> (text: &str)
        ensures
            text@ == self@,
    {
        self.0.as_str()
    }

    pub fn to_string(&self) -> (text: String)
        ensures
            text@ == self@,
    {
        self.0.clone()
    }

    pub fn to_optional_string(&self) -> (text: Option<String>)
        ensures
            optional_text(text) == self.optional(),
    {
        if self.0.as_str().is_empty() {
            None
        } else {
            Some(self.0.clone())
        }
    }
}

impl Clone for HistoryItemProperties {
    fn clone(&self) -> (copy: Self)
        ensures
            copy@ == self@,
    {
        HistoryItemProperties(self.0.clone())
    }
}

impl From<&str> for HistoryItemProperties {
    fn from(value: &str) -> (made: Self)
        ensures
            made@ == value@,
    {
        HistoryItemProperties(value.to_owned())
    }
}

impl vstd::std_specs::convert::FromSpecImpl<&str> for HistoryItemProperties {
    open spec fn obeys_from_spec() -> bool {
        false
    }

    open spec fn from_spec(value: &str) -> Self {
        arbitrary()
    }
}

impl From<String> for HistoryItemProperties {
    fn from(value: String) -> (made: Self)
        ensures
            made@ == value@,
    {
        HistoryItemProperties(value)
    }
}

impl vstd::std_specs::convert::FromSpecImpl<String> for HistoryItemProperties {
    open spec fn obeys_from_spec() -> bool {
        true
    }

    open spec fn from_spec(value: String) -> Self {
        HistoryItemProperties(value)
    }
}

impl From<&String> for HistoryItemProperties {
    fn from(value: &String) -> (made: Self)
        ensures
            made@ == value@,
    {
        HistoryItemProperties(value.clone())
    }
}

impl vstd::std_specs::convert::FromSpecImpl<&String> for HistoryItemProperties {
    open spec fn obeys_from_spec() -> bool {
        false
    }

    open spec fn from_spec(value: &String) -> Self {
        arbitrary()
    }
}

impl From<Option<String>> for HistoryItemProperties {
    /// `None` and the empty text both give the absent payload.
    fn from(value: Option<String>) -> (made: Self)
        ensures
            made@ == match value {
                Some(text) => text@,
                None => Seq::<char>::empty(),
            },
    {
        match value {
            Some(text) => HistoryItemProperties(text),
            None => HistoryItemProperties(String::new()),
        }
    }
}

impl vstd::std_specs::convert::FromSpecImpl<Option<String>> for HistoryItemProperties {
    open spec fn obeys_from_spec() -> bool {
        false
    }

    open spec fn from_spec(value: Option<String>) -> Self {
        arbitrary()
    }
}

} // verus!
