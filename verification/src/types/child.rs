use crate::order::Ranked;
use crate::text::lemma_text_before_connected;
use crate::text::lemma_text_before_irreflexive;
use crate::text::lemma_text_before_transitive;
use crate::text::text_before;
use crate::text::text_precedes;
use crate::types::label::Label;
use vstd::prelude::*;

verus! {

/// The label of the entity on the child side of a relationship.
#[derive(Debug, PartialEq, Eq, Hash, PartialOrd, Ord)]
pub struct Child(pub String);

impl View for Child {
    type V = Seq<char>;

    open spec fn view(&self) -> Seq<char> {
        self.0@
    }
}

impl Child {
    pub fn to_str(&self) -> (text: &str)
        ensures
            text@ == self@,
    {
        self.0.as_str()
    }

    pub fn to_string(&self) -> (text: String)
        ensures
            text@ == self@,
    {
        self.0.clone()
    }
}

impl Clone for Child {
    fn clone(&self) -> (copy: Self)
        ensures
            copy@ == self@,
    {
        Child(self.0.clone())
    }
}

impl From<&str> for Child {
    fn from(value: &str) -> (made: Self)
        ensures
            made@ == value@,
    {
        Child(value.to_owned())
    }
}

impl vstd::std_specs::convert::FromSpecImpl<&str> for Child {
    open spec fn obeys_from_spec() -> bool {
        false
    }

    open spec fn from_spec(value: &str) -> Self {
        arbitrary()
    }
}

impl From<String> for Child {
    fn from(value: String) -> (made: Self)
        ensures
            made@ == value@,
    {
        Child(value)
    }
}

impl vstd::std_specs::convert::FromSpecImpl<String> for Child {
    open spec fn obeys_from_spec() -> bool {
        true
    }

    open spec fn from_spec(value: String) -> Self {
        Child(value)
    }
}

impl From<Label> for Child {
    fn from(value: Label) -> (made: Self)
        ensures
            made@ == value@,
    {
        Child(value.0)
    }
}

impl vstd::std_specs::convert::FromSpecImpl<Label> for Child {
    open spec fn obeys_from_spec() -> bool {
        true
    }

    open spec fn from_spec(value: Label) -> Self {
        Child(value.0)
    }
}

/// In the order of their texts.
impl Ranked for Child {
    open spec fn before(&self, other: &Self) -> bool {
        text_before(self@, other@)
    }

    proof fn lemma_before_irreflexive(a: &Self) {
        lemma_text_before_irreflexive(a@);
    }

    proof fn lemma_before_transitive(a: &Self, b: &Self, c: &Self) {
        lemma_text_before_transitive(a@, b@, c@);
    }

    proof fn lemma_not_after_transitive(a: &Self, b: &Self, c: &Self) {
        if text_before(c@, a@) {
            if text_before(a@, b@) {
                lemma_text_before_transitive(c@, a@, b@);
            } else {
                lemma_text_before_connected(a@, b@);
            }
        }
    }

    fn precedes(&self, other: &Self) -> (before: bool) {
        text_precedes(self.to_str(), other.to_str())
    }
}

} // verus!
