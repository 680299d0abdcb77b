//! What a caller searches for: texts as typed, exact or with wildcards, and
//! the numbers that narrow a search of the history.

use crate::errors::debug_quoted;
use crate::errors::quoted;
use crate::types::day::Day;
use crate::types::timestamp::Timestamp;
use crate::types::year::Year;
use vstd::prelude::*;

verus! {

/// A text to search a column for. It is either exact, and then finds the
/// values equal to it, or partial, and then finds the values that contain
/// it, `*` standing for any run of characters. The empty search finds every
/// value.
#[derive(Debug)]
pub struct SqlSearchText {
    text: Option<String>,
    pub(crate) is_exact: bool,
}

/// A search text as plain values.
pub ghost struct SearchTextView {
    pub text: Option<Seq<char>>,
    pub is_exact: bool,
}

/// `text` with each `*` of the caller turned into the `%` of the engine.
pub open spec fn wildcards_translated(text: Seq<char>) -> Seq<char> {
    text.map_values(
        |c: char|
            if c == '*' {
                '%'
            } else {
                c
            },
    )
}

impl SearchTextView {
    /// The text that an exact search looks for; the empty text where there
    /// is none.
    pub open spec fn exact_text(&self) -> Seq<char> {
        match self.text {
            Some(text) => text,
            None => Seq::empty(),
        }
    }

    /// The pattern that a partial search looks for: the text with its
    /// wildcards translated, between two `%`, so that it is found anywhere in
    /// a value. Without a text it is the lone `%`, which any value matches;
    /// with the empty text it is `%%`, which any value matches as well.
    pub open spec fn search_pattern(&self) -> Seq<char> {
        match self.text {
            Some(text) => seq!['%'] + wildcards_translated(text) + seq!['%'],
            None => seq!['%'],
        }
    }

    /// The search text as it is formatted for debugging.
    pub open spec fn debug_view(&self) -> Seq<char> {
        "SqlSearchText { text: "@ + (match self.text {
            Some(text) => "Some("@ + debug_quoted(text) + ")"@,
            None => "None"@,
        }) + ", is_exact: "@ + (if self.is_exact {
            "true"@
        } else {
            "false"@
        }) + " }"@
    }
}

impl View for SqlSearchText {
    type V = SearchTextView;

    closed spec fn view(&self) -> SearchTextView {
        SearchTextView {
            text: match self.text {
                Some(text) => Some(text@),
                None => None,
            },
            is_exact: self.is_exact,
        }
    }
}

impl SqlSearchText {
    /// A search for the values equal to `search_text`.
    pub fn exact(search_text: &str) -> (search: Self)
        ensures
            search@ == (SearchTextView { text: Some(search_text@), is_exact: true }),
    {
        SqlSearchText { text: Some(search_text.to_owned()), is_exact: true }
    }

    /// A search for the values that contain `search_text`.
    pub fn partial(search_text: &str) -> (search: Self)
        ensures
            search@ == (SearchTextView { text: Some(search_text@), is_exact: false }),
    {
        SqlSearchText { text: Some(search_text.to_owned()), is_exact: false }
    }

    /// A search for `search_text`, exact or partial.
    pub fn new(search_text: &str, is_exact: bool) -> (search: Self)
        ensures
            search@ == (SearchTextView { text: Some(search_text@), is_exact }),
    {
        SqlSearchText { text: Some(search_text.to_owned()), is_exact }
    }

    /// The search that finds every value.
    pub fn empty() -> (search: Self)
        ensures
            search@ == (SearchTextView { text: None, is_exact: false }),
    {
        SqlSearchText { text: None, is_exact: false }
    }

    /// Whether there is a text to search for.
    pub fn is_some(&self) -> (some: bool)
        ensures
            some == self@.text is Some,
    {
        self.text.is_some()
    }

    /// Whether the search is exact.
    pub fn is_exact(&self) -> (exact: bool)
        ensures
            exact == self@.is_exact,
    {
        self.is_exact
    }

    pub fn exact_text(&self) -> (text: String)
        ensures
            text@ == self@.exact_text(),
    {
        match &self.text {
            Some(text) => text.clone(),
            None => String::new(),
        }
    }

    pub fn search_pattern(&self) -> (pattern: String)
        ensures
            pattern@ == self@.search_pattern(),
    {
        let mut pattern = String::new();
        pattern.push('%');
        match &self.text {
            Some(text) => {
                let ghost translated = wildcards_translated(text@);
                for c in it: text.as_str().chars()
                    invariant
                        it.seq() == text@,
                        translated == wildcards_translated(text@),
                        pattern@ == seq!['%'] + translated.take(it.index() as int),
                {
                    let ghost before = pattern@;
                    if c == '*' {
                        pattern.push('%');
                    } else {
                        pattern.push(c);
                    }
                    assert(pattern@ =~= seq!['%'] + translated.take(it.index() + 1));
                }
                assert(translated.take(translated.len() as int) =~= translated);
                pattern.push('%');
                assert(pattern@ =~= self@.search_pattern());
            },
            None => {
                assert(pattern@ =~= self@.search_pattern());
            },
        }
        pattern
    }

    /// The search text as it is formatted for debugging.
    pub fn debug_text(&self) -> (text: String)
        ensures
            text@ == self@.debug_view(),
    {
        let mut text = String::from_str("SqlSearchText { text: ");
        match &self.text {
            Some(searched) => {
                text.append("Some(");
                let quoted_text = quoted(searched.as_str());
                text.append(quoted_text.as_str());
                text.append(")");
            },
            None => {
                text.append("None");
            },
        }
        text.append(", is_exact: ");
        if self.is_exact {
            text.append("true");
        } else {
            text.append("false");
        }
        text.append(" }");
        assert(text@ =~= self@.debug_view());
        text
    }
}

/// What to search the entities for: a label, a descriptor, both or neither.
/// Where both are given, both must be found.
#[derive(Debug)]
pub struct EntityColumnSearchParams {
    pub label: SqlSearchText,
    pub descriptor: SqlSearchText,
}

impl EntityColumnSearchParams {
    /// A search by `label` and `descriptor`; `None` does not narrow it.
    pub fn new(label: Option<SqlSearchText>, descriptor: Option<SqlSearchText>) -> (params: Self)
        ensures
            params.label@ == match label {
                Some(label) => label@,
                None => SearchTextView { text: None, is_exact: false },
            },
            params.descriptor@ == match descriptor {
                Some(descriptor) => descriptor@,
                None => SearchTextView { text: None, is_exact: false },
            },
    {
        let label = match label {
            Some(label) => label,
            None => SqlSearchText::empty(),
        };
        let descriptor = match descriptor {
            Some(descriptor) => descriptor,
            None => SqlSearchText::empty(),
        };
        EntityColumnSearchParams { label, descriptor }
    }

    /// The search that finds every attribute of every entity.
    pub fn empty() -> (params: Self)
        ensures
            params.label@ == (SearchTextView { text: None, is_exact: false }),
            params.descriptor@ == (SearchTextView { text: None, is_exact: false }),
    {
        EntityColumnSearchParams {
            label: SqlSearchText::empty(),
            descriptor: SqlSearchText::empty(),
        }
    }
}

/// What to search the history for: a year, a day, an identifier, a content,
/// any of them or none. What is given must all be found. A search for
/// [`Day::none`] finds the events without a day.
#[derive(Debug)]
pub struct HistoryItemSearchParams {
    pub year: Option<Year>,
    pub day: Option<Day>,
    pub timestamp: Option<Timestamp>,
    pub content: SqlSearchText,
}

impl HistoryItemSearchParams {
    /// A search by what is given; `None` does not narrow it.
    pub fn new(
        year: Option<Year>,
        day: Option<Day>,
        timestamp: Option<Timestamp>,
        content: Option<SqlSearchText>,
    ) -> (params: Self)
        ensures
            params.year == year,
            params.day == day,
            params.timestamp == timestamp,
            params.content@ == match content {
                Some(content) => content@,
                None => SearchTextView { text: None, is_exact: false },
            },
    {
        let content = match content {
            Some(content) => content,
            None => SqlSearchText::empty(),
        };
        HistoryItemSearchParams { year, day, timestamp, content }
    }

    /// The search that finds every event.
    pub fn empty() -> (params: Self)
        ensures
            params.year is None,
            params.day is None,
            params.timestamp is None,
            params.content@ == (SearchTextView { text: None, is_exact: false }),
    {
        HistoryItemSearchParams {
            year: None,
            day: None,
            timestamp: None,
            content: SqlSearchText::empty(),
        }
    }
}

/// What to search the relationships for: a parent, a child, both or neither.
/// Where both are given, both must be found.
#[derive(Debug)]
pub struct RelationshipSearchParams {
    pub parent: SqlSearchText,
    pub child: SqlSearchText,
}

impl RelationshipSearchParams {
    /// A search by `parent` and `child`; `None` does not narrow it.
    pub fn new(parent: Option<SqlSearchText>, child: Option<SqlSearchText>) -> (params: Self)
        ensures
            params.parent@ == match parent {
                Some(parent) => parent@,
                None => SearchTextView { text: None, is_exact: false },
            },
            params.child@ == match child {
                Some(child) => child@,
                None => SearchTextView { text: None, is_exact: false },
            },
    {
        let parent = match parent {
            Some(parent) => parent,
            None => SqlSearchText::empty(),
        };
        let child = match child {
            Some(child) => child,
            None => SqlSearchText::empty(),
        };
        RelationshipSearchParams { parent, child }
    }

    /// The search that finds every relationship.
    pub fn empty() -> (params: Self)
        ensures
            params.parent@ == (SearchTextView { text: None, is_exact: false }),
            params.child@ == (SearchTextView { text: None, is_exact: false }),
    {
        RelationshipSearchParams { parent: SqlSearchText::empty(), child: SqlSearchText::empty() }
    }
}

} // verus!
