use crate::order::Ranked;
use crate::text::lemma_text_before_connected;
use crate::text::lemma_text_before_irreflexive;
use crate::text::lemma_text_before_transitive;
use crate::text::optional_text;
use crate::text::text_before;
use crate::text::text_precedes;
use vstd::prelude::*;

verus! {

/// The part that the child plays for the parent, or nothing. The empty text
/// stands for the absent role, so no role is empty.
#[derive(Debug, PartialEq, Eq, Hash, PartialOrd, Ord)]
pub struct Role(pub String);

impl View for Role {
    type V = Seq<char>;

    open spec fn view(&self) -> Seq<char> {
        self.0@
    }
}

impl Role {
    /// The absent role: the empty text.
    pub fn none() -> (absent: Role)
        ensures
            absent@ == Seq::<char>::empty(),
            !absent.is_present(),
    {
        Role(String::new())
    }

    /// Whether there is a role: the text is not empty.
    pub open spec fn is_present(&self) -> bool {
        self@.len() > 0
    }

    /// The text where there is one, `None` for the absent role.
    pub open spec fn optional(&self) -> Option<Seq<char>> {
        if self.is_present() {
            Some(self@)
        } else {
            None
        }
    }

    pub fn to_str(&self) -> (text: &str)
        ensures
            text@ == self@,
    {
        self.0.as_str()
    }

    pub fn to_string(&self) -> (text: String)
        ensures
            text@ == self@,
    {
        self.0.clone()
    }

    pub fn to_optional_string(&self) -> (text: Option<String>)
        ensures
            optional_text(text) == self.optional(),
    {
        if self.0.as_str().is_empty() {
            None
        } else {
            Some(self.0.clone())
        }
    }

    /// Whether the role is protected: it begins with an underscore.
    pub fn is_protected(&self) -> (protected: bool)
        ensures
            protected == (self@.len() > 0 && self@[0] == '_'),
    {
        !self.0.as_str().is_empty() && self.0.as_str().get_char(0) == '_'
    }
}

impl Clone for Role {
    fn clone(&self) -> (copy: Self)
        ensures
            copy@ == self@,
    {
        Role(self.0.clone())
    }
}

impl From<&str> for Role {
    fn from(value: &str) -> (made: Self)
        ensures
            made@ == value@,
    {
        Role(value.to_owned())
    }
}

impl vstd::std_specs::convert::FromSpecImpl<&str> for Role {
    open spec fn obeys_from_spec() -> bool {
        false
    }

    open spec fn from_spec(value: &str) -> Self {
        arbitrary()
    }
}

impl From<String> for Role {
    fn from(value: String) -> (made: Self)
        ensures
            made@ == value@,
    {
        Role(value)
    }
}

impl vstd::std_specs::convert::FromSpecImpl<String> for Role {
    open spec fn obeys_from_spec() -> bool {
        true
    }

    open spec fn from_spec(value: String) -> Self {
        Role(value)
    }
}

impl From<Option<String>> for Role {
    /// `None` and the empty text both give the absent role.
    fn from(value: Option<String>) -> (made: Self)
        ensures
            made@ == match value {
                Some(text) => text@,
                None => Seq::<char>::empty(),
            },
    {
        match value {
            Some(text) => Role(text),
            None => Role(String::new()),
        }
    }
}

impl vstd::std_specs::convert::FromSpecImpl<Option<String>> for Role {
    open spec fn obeys_from_spec() -> bool {
        false
    }

    open spec fn from_spec(value: Option<String>) -> Self {
        arbitrary()
    }
}

/// In the order of their texts.
impl Ranked for Role {
    open spec fn before(&self, other: &Self) -> bool {
        text_before(self@, other@)
    }

    proof fn lemma_before_irreflexive(a: &Self) {
        lemma_text_before_irreflexive(a@);
    }

    proof fn lemma_before_transitive(a: &Self, b: &Self, c: &Self) {
        lemma_text_before_transitive(a@, b@, c@);
    }

    proof fn lemma_not_after_transitive(a: &Self, b: &Self, c: &Self) {
        if text_before(c@, a@) {
            if text_before(a@, b@) {
                lemma_text_before_transitive(c@, a@, b@);
            } else {
                lemma_text_before_connected(a@, b@);
            }
        }
    }

    fn precedes(&self, other: &Self) -> (before: bool) {
        text_precedes(self.to_str(), other.to_str())
    }
}

} // verus!
