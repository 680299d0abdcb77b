use crate::order::Ranked;
use crate::text::lemma_text_before_connected;
use crate::text::lemma_text_before_irreflexive;
use crate::text::lemma_text_before_transitive;
use crate::text::optional_text;
use crate::text::text_before;
use crate::text::text_precedes;
use vstd::prelude::*;

verus! {

/// What an entity's attribute says: free text, or nothing. The empty text
/// stands for the absent description, so no description is empty.
#[derive(Debug, PartialEq, Eq, Hash, PartialOrd, Ord)]
pub struct Description(pub String);

impl View for Description {
    type V = Seq<char>;

    open spec fn view(&self) -> Seq<char> {
        self.0@
    }
}

impl Description {
    /// The absent description: the empty text.
    pub fn none() -> (absent: Description)
        ensures
            absent@ == Seq::<char>::empty(),
            !absent.is_present(),
    {
        Description(String::new())
    }

    /// Whether there is a description: the text is not empty.
    pub open spec fn is_present(&self) -> bool {
        self@.len() > 0
    }

    /// The text where there is one, `None` for the absent description.
    pub open spec fn optional(&self) -> Option<Seq<char>> {
        if self.is_present() {
            Some(self@)
        } else {
            None
        }
    }

    pub fn to_str(&self) -> (text: &str)
        ensures
            text@ == self@,
    {
        self.0.as_str()
    }

    pub fn to_string(&self) -> (text: String)
        ensures
            text@ == self@,
    {
        self.0.clone()
    }

    pub fn to_optional_string(&self) -> (text: Option<String>)
        ensures
            optional_text(text) == self.optional(),
    {
        if self.0.as_str().is_empty() {
            None
        } else {
            Some(self.0.clone())
        }
    }
}

impl Clone for Description {
    fn clone(&self) -> (copy: Self)
        ensures
            copy@ == self@,
    {
        Description(self.0.clone())
    }
}

impl From<&str> for Description {
    fn from(value: &str) -> (made: Self)
        ensures
            made@ == value@,
    {
        Description(value.to_owned())
    }
}

impl vstd::std_specs::convert::FromSpecImpl<&str> for Description {
    open spec fn obeys_from_spec() -> bool {
        false
    }

    open spec fn from_spec(value: &str) -> Self {
        arbitrary()
    }
}

impl From<String> for Description {
    fn from(value: String) -> (made: Self)
        ensures
            made@ == value@,
    {
        Description(value)
    }
}

impl vstd::std_specs::convert::FromSpecImpl<String> for Description {
    open spec fn obeys_from_spec() -> bool {
        true
    }

    open spec fn from_spec(value: String) -> Self {
        Description(value)
    }
}

impl From<Option<String>> for Description {
    /// `None` and the empty text both give the absent description.
    fn from(value: Option<String>) -> (made: Self)
        ensures
            made@ == match value {
                Some(text) => text@,
                None => Seq::<char>::empty(),
            },
    {
        match value {
            Some(text) => Description(text),
            None => Description(String::new()),
        }
    }
}

impl vstd::std_specs::convert::FromSpecImpl<Option<String>> for Description {
    open spec fn obeys_from_spec() -> bool {
        false
    }

    open spec fn from_spec(value: Option<String>) -> Self {
        arbitrary()
    }
}

/// In the order of their texts.
impl Ranked for Description {
    open spec fn before(&self, other: &Self) -> bool {
        text_before(self@, other@)
    }

    proof fn lemma_before_irreflexive(a: &Self) {
        lemma_text_before_irreflexive(a@);
    }

    proof fn lemma_before_transitive(a: &Self, b: &Self, c: &Self) {
        lemma_text_before_transitive(a@, b@, c@);
    }

    proof fn lemma_not_after_transitive(a: &Self, b: &Self, c: &Self) {
        if text_before(c@, a@) {
            if text_before(a@, b@) {
                lemma_text_before_transitive(c@, a@, b@);
            } else {
                lemma_text_before_connected(a@, b@);
            }
        }
    }

    fn precedes(&self, other: &Self) -> (before: bool) {
        text_precedes(self.to_str(), other.to_str())
    }
}

} // verus!
