use crate::decimal::denoted;
use crate::decimal::integer_fault;
use crate::decimal::parse_i32_or_fault;
use crate::errors::LoreCoreError;
use crate::order::lemma_distinct_views;
use crate::order::ranks_tell_views;
use crate::order::same_rank;
use crate::order::sort_distinct;
use crate::order::strictly_ascending;
use crate::order::views;
use crate::text::contains_text;
use crate::text::lemma_text_before_connected;
use crate::text::optional_text;
use crate::text::text_contains;
use vstd::prelude::*;

verus! {

/// What the view of a column keeps: the entries to pick from, the entry
/// picked, and the text that narrows what is shown.
#[derive(Debug)]
pub struct DbColViewState {
    pub search_text: String,
    entries: Vec<String>,
    selected_entry: Option<String>,
}

/// The entries of `entries` that contain `search_text`, in order.
pub open spec fn entries_with(entries: Seq<Seq<char>>, search_text: Seq<char>) -> Seq<Seq<char>> {
    entries.filter(|entry: Seq<char>| text_contains(entry, search_text))
}

impl DbColViewState {
    /// The text that narrows what is shown.
    pub closed spec fn search(&self) -> Seq<char> {
        self.search_text@
    }

    /// The entries to pick from.
    pub closed spec fn entries(&self) -> Seq<Seq<char>> {
        views(self.entries@)
    }

    /// The entry picked, if one is.
    pub closed spec fn selected(&self) -> Option<Seq<char>> {
        optional_text(self.selected_entry)
    }

    /// Whether the entries are in order: each once, in the order of texts.
    pub closed spec fn wf(&self) -> bool {
        strictly_ascending(self.entries@)
    }

    /// The state without entries, selection and search text.
    pub fn new() -> (state: Self)
        ensures
            state.wf(),
            state.search() == Seq::<char>::empty(),
            state.entries() == Seq::<Seq<char>>::empty(),
            state.selected() is None,
    {
        let state = DbColViewState {
            search_text: String::new(),
            entries: Vec::new(),
            selected_entry: None,
        };
        assert(state.entries() =~= Seq::<Seq<char>>::empty());
        state
    }

    /// The entry picked as a number. An entry that is no number of 32 bits
    /// is an input error, with the words of the standard library.
    pub fn get_selected_int(&self) -> (number: Result<Option<i32>, LoreCoreError>)
        ensures
            match self.selected() {
                Some(entry) => match number {
                    Ok(number) => number is Some && denoted(entry) == Some(number->Some_0 as int),
                    Err(error) => !(denoted(entry) is Some && i32::MIN <= denoted(entry)->Some_0
                        <= i32::MAX) && error is InputError && error.message() == integer_fault(
                        entry,
                    ),
                },
                None => number is Ok && number->Ok_0 is None,
            },
    {
        match &self.selected_entry {
            Some(entry) => match parse_i32_or_fault(entry.as_str()) {
                Ok(number) => Ok(Some(number)),
                Err(message) => Err(LoreCoreError::InputError(message)),
            },
            None => Ok(None),
        }
    }

    /// Sets the entries to pick from: those of `entries` and the empty
    /// entry, each once, in the order of texts.
    pub fn set_entries(&mut self, entries: Vec<String>)
        ensures
            final(self).wf(),
            final(self).entries().to_set() == views(entries@).to_set().insert(Seq::empty()),
            final(self).search() == old(self).search(),
            final(self).selected() == old(self).selected(),
    {
        let ghost given = entries@;
        let mut all = entries;
        all.push(String::new());
        let ghost with_empty = all@;
        let distinct = sort_distinct(all);
        proof {
            assert forall|a: String, b: String| same_rank(&a, &b) implies #[trigger] a@
                == #[trigger] b@ by {
                lemma_text_before_connected(a@, b@);
            }
            assert(ranks_tell_views::<String>());
            lemma_distinct_views(with_empty, distinct@);
            assert(views(with_empty) =~= views(given).push(Seq::<char>::empty()));
            vstd::seq_lib::seq_to_set_is_finite(views(given));
            assert(views(with_empty).to_set() =~= views(given).to_set().insert(
                Seq::<char>::empty(),
            )) by {
                assert forall|v: Seq<char>| views(with_empty).to_set().contains(v) implies views(
                    given,
                ).to_set().insert(Seq::<char>::empty()).contains(v) by {
                    let k = choose|k: int| 0 <= k < with_empty.len() && views(with_empty)[k] == v;
                    if k < given.len() {
                        assert(views(given)[k] == v);
                    }
                }
                assert forall|v: Seq<char>|
                    views(given).to_set().insert(Seq::<char>::empty()).contains(
                        v,
                    ) implies views(with_empty).to_set().contains(v) by {
                    if views(given).to_set().contains(v) {
                        let k = choose|k: int| 0 <= k < given.len() && views(given)[k] == v;
                        assert(views(with_empty)[k] == v);
                    } else {
                        assert(views(with_empty)[given.len() as int] == v);
                    }
                }
            }
        }
        self.entries = distinct;
    }

    /// Picks `entry`; the empty entry picks nothing.
    pub fn set_selected(&mut self, entry: String)
        ensures
            final(self).selected() == (if entry@.len() == 0 {
                None
            } else {
                Some(entry@)
            }),
            final(self).entries() == old(self).entries(),
            final(self).wf() == old(self).wf(),
            final(self).search() == old(self).search(),
    {
        if entry.as_str().is_empty() {
            self.selected_entry = None;
        } else {
            self.selected_entry = Some(entry);
        }
    }

    /// Picks nothing.
    pub fn set_selected_none(&mut self)
        ensures
            final(self).selected() is None,
            final(self).entries() == old(self).entries(),
            final(self).wf() == old(self).wf(),
            final(self).search() == old(self).search(),
    {
        self.selected_entry = None;
    }

    pub fn get_selected(&self) -> (selected: &Option<String>)
        ensures
            optional_text(*selected) == self.selected(),
    {
        &self.selected_entry
    }

    /// The entries to show: all of them where there is no search text, else
    /// the empty entry and after it those that contain the search text, in
    /// their order.
    pub fn get_visible_entries(&self) -> (visible: Vec<String>)
        ensures
            views(visible@) == (if self.search().len() == 0 {
                self.entries()
            } else {
                seq![Seq::<char>::empty()] + entries_with(self.entries(), self.search())
            }),
    {
        let mut visible: Vec<String> = Vec::new();
        let narrowed = !self.search_text.as_str().is_empty();
        if narrowed {
            visible.push(String::new());
        }
        let ghost all = views(self.entries@);
        let ghost head = views(visible@);
        let mut i: usize = 0;
        assert(all.take(0) =~= Seq::<Seq<char>>::empty());
        proof {
            reveal(Seq::filter);
        }
        assert(views(visible@) =~= head + entries_with(all.take(0), self.search_text@));
        while i < self.entries.len()
            invariant
                i <= self.entries.len(),
                all == views(self.entries@),
                narrowed == (self.search_text@.len() > 0),
                narrowed ==> views(visible@) == head + entries_with(
                    all.take(i as int),
                    self.search_text@,
                ),
                !narrowed ==> views(visible@) == all.take(i as int),
            decreases self.entries.len() - i,
        {
            let ghost shown = views(visible@);
            let entry = &self.entries[i];
            assert(all.take(i + 1) =~= all.take(i as int).push(entry@));
            proof {
                all.take(i as int).lemma_filter_push(
                    entry@,
                    |entry: Seq<char>| text_contains(entry, self.search_text@),
                );
            }
            if !narrowed || contains_text(entry.as_str(), self.search_text.as_str()) {
                visible.push(entry.clone());
                assert(views(visible@) =~= shown.push(entry@));
            }
            i += 1;
        }
        assert(all.take(self.entries.len() as int) =~= all);
        proof {
            if narrowed {
                assert(head =~= seq![Seq::<char>::empty()]);
            }
        }
        visible
    }
}

impl Default for DbColViewState {
    fn default() -> (state: Self)
        ensures
            state.wf(),
            state.search() == Seq::<char>::empty(),
            state.entries() == Seq::<Seq<char>>::empty(),
            state.selected() is None,
    {
        DbColViewState::new()
    }
}

impl Clone for DbColViewState {
    fn clone(&self) -> (copy: Self)
        ensures
            copy.search() == self.search(),
            copy.entries() == self.entries(),
            copy.selected() == self.selected(),
    {
        let mut entries: Vec<String> = Vec::new();
        let mut i: usize = 0;
        while i < self.entries.len()
            invariant
                i <= self.entries.len(),
                entries.len() == i,
                forall|k: int| 0 <= k < i ==> (#[trigger] entries[k])@ == self.entries[k]@,
            decreases self.entries.len() - i,
        {
            entries.push(self.entries[i].clone());
            i += 1;
        }
        assert(views(entries@) =~= views(self.entries@));
        DbColViewState {
            search_text: self.search_text.clone(),
            entries,
            selected_entry: self.selected_entry.clone(),
        }
    }
}

} // verus!
