use crate::order::Ranked;
use crate::text::lemma_text_before_connected;
use crate::text::lemma_text_before_irreflexive;
use crate::text::lemma_text_before_transitive;
use crate::text::text_before;
use crate::text::text_precedes;
use crate::types::child::Child;
use crate::types::parent::Parent;
use vstd::prelude::*;

verus! {

/// The name of an entity. The attributes that share a label belong to one
/// entity.
#[derive(Debug, PartialEq, Eq, Hash, PartialOrd, Ord)]
pub struct Label(pub String);

impl View for Label {
    type V = Seq<char>;

    open spec fn view(&self) -> Seq<char> {
        self.0@
    }
}

impl Label {
    pub fn to_str(&self) -> (text: &str)
        ensures
            text@ == self@,
    {
        self.0.as_str()
    }

    pub fn to_string(&self) -> (text: String)
        ensures
            text@ == self@,
    {
        self.0.clone()
    }

    /// Whether the label is protected: it begins with an underscore.
    pub fn is_protected(&self) -> (protected: bool)
        ensures
            protected == (self@.len() > 0 && self@[0] == '_'),
    {
        !self.0.as_str().is_empty() && self.0.as_str().get_char(0) == '_'
    }
}

impl Clone for Label {
    fn clone(&self) -> (copy: Self)
        ensures
            copy@ == self@,
    {
        Label(self.0.clone())
    }
}

impl From<&str> for Label {
    fn from(value: &str) -> (made: Self)
        ensures
            made@ == value@,
    {
        Label(value.to_owned())
    }
}

impl vstd::std_specs::convert::FromSpecImpl<&str> for Label {
    open spec fn obeys_from_spec() -> bool {
        false
    }

    open spec fn from_spec(value: &str) -> Self {
        arbitrary()
    }
}

impl From<String> for Label {
    fn from(value: String) -> (made: Self)
        ensures
            made@ == value@,
    {
        Label(value)
    }
}

impl vstd::std_specs::convert::FromSpecImpl<String> for Label {
    open spec fn obeys_from_spec() -> bool {
        true
    }

    open spec fn from_spec(value: String) -> Self {
        Label(value)
    }
}

impl From<Child> for Label {
    fn from(value: Child) -> (made: Self)
        ensures
            made@ == value@,
    {
        Label(value.0)
    }
}

impl vstd::std_specs::convert::FromSpecImpl<Child> for Label {
    open spec fn obeys_from_spec() -> bool {
        true
    }

    open spec fn from_spec(value: Child) -> Self {
        Label(value.0)
    }
}

impl From<Parent> for Label {
    fn from(value: Parent) -> (made: Self)
        ensures
            made@ == value@,
    {
        Label(value.0)
    }
}

impl vstd::std_specs::convert::FromSpecImpl<Parent> for Label {
    open spec fn obeys_from_spec() -> bool {
        true
    }

    open spec fn from_spec(value: Parent) -> Self {
        Label(value.0)
    }
}

/// In the order of their texts.
impl Ranked for Label {
    open spec fn before(&self, other: &Self) -> bool {
        text_before(self@, other@)
    }

    proof fn lemma_before_irreflexive(a: &Self) {
        lemma_text_before_irreflexive(a@);
    }

    proof fn lemma_before_transitive(a: &Self, b: &Self, c: &Self) {
        lemma_text_before_transitive(a@, b@, c@);
    }

    proof fn lemma_not_after_transitive(a: &Self, b: &Self, c: &Self) {
        if text_before(c@, a@) {
            if text_before(a@, b@) {
                lemma_text_before_transitive(c@, a@, b@);
            } else {
                lemma_text_before_connected(a@, b@);
            }
        }
    }

    fn precedes(&self, other: &Self) -> (before: bool) {
        text_precedes(self.to_str(), other.to_str())
    }
}

} // verus!
