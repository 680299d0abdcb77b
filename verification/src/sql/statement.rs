//! Statements for the relational engine: their text, with `?` where a value
//! is bound, and the values in the order of their places.

use crate::sql::search_params::SearchTextView;
use crate::sql::search_params::SqlSearchText;
use crate::text::optional_text;
use vstd::prelude::*;

verus! {

/// A value bound to a statement, by the type of the column it is for.
#[derive(Debug, PartialEq, Eq)]
pub enum SqlValue {
    Text(String),
    /// A text, or the engine's null.
    OptionalText(Option<String>),
    Integer(i32),
    /// A number, or the engine's null.
    OptionalInteger(Option<i32>),
    BigInt(i64),
}

/// A bound value as a plain value.
pub ghost enum SqlValueView {
    Text(Seq<char>),
    OptionalText(Option<Seq<char>>),
    Integer(int),
    OptionalInteger(Option<int>),
    BigInt(int),
}

impl View for SqlValue {
    type V = SqlValueView;

    open spec fn view(&self) -> SqlValueView {
        match self {
            SqlValue::Text(text) => SqlValueView::Text(text@),
            SqlValue::OptionalText(text) => SqlValueView::OptionalText(optional_text(*text)),
            SqlValue::Integer(number) => SqlValueView::Integer(*number as int),
            SqlValue::OptionalInteger(number) => SqlValueView::OptionalInteger(
                match number {
                    Some(number) => Some(*number as int),
                    None => None,
                },
            ),
            SqlValue::BigInt(number) => SqlValueView::BigInt(*number as int),
        }
    }
}

/// A statement: its text and the values bound to its places.
#[derive(Debug, PartialEq, Eq)]
pub struct Statement {
    pub sql: String,
    pub binds: Vec<SqlValue>,
}

/// A statement as plain values.
pub ghost struct StatementView {
    pub sql: Seq<char>,
    pub binds: Seq<SqlValueView>,
}

impl View for Statement {
    type V = StatementView;

    open spec fn view(&self) -> StatementView {
        StatementView { sql: self.sql@, binds: self.binds@.map_values(|value: SqlValue| value@) }
    }
}

impl Statement {
    /// The statement `sql`, with nothing bound yet.
    pub fn new(sql: &str) -> (statement: Statement)
        ensures
            statement@ == (StatementView { sql: sql@, binds: Seq::empty() }),
    {
        let statement = Statement { sql: sql.to_owned(), binds: Vec::new() };
        assert(statement@.binds =~= Seq::empty());
        statement
    }

    /// Binds `value` to the next place.
    pub fn bind(&mut self, value: SqlValue)
        ensures
            final(self)@ == (StatementView {
                sql: old(self)@.sql,
                binds: old(self)@.binds.push(value@),
            }),
    {
        self.binds.push(value);
        assert(self@.binds =~= old(self)@.binds.push(value@));
    }

    /// Binds a copy of `text` to the next place.
    pub fn bind_text(&mut self, text: &str)
        ensures
            final(self)@ == (StatementView {
                sql: old(self)@.sql,
                binds: old(self)@.binds.push(SqlValueView::Text(text@)),
            }),
    {
        self.bind(SqlValue::Text(text.to_owned()));
    }
}

/// What is asked of a column: nothing, to equal a text, or to match a
/// pattern in which `%` stands for any run of characters.
#[derive(Debug, PartialEq, Eq)]
pub enum ColumnPredicate {
    Any,
    Equals(String),
    Like(String),
}

/// A predicate as plain values.
pub ghost enum PredicateView {
    Any,
    Equals(Seq<char>),
    Like(Seq<char>),
}

impl View for ColumnPredicate {
    type V = PredicateView;

    open spec fn view(&self) -> PredicateView {
        match self {
            ColumnPredicate::Any => PredicateView::Any,
            ColumnPredicate::Equals(text) => PredicateView::Equals(text@),
            ColumnPredicate::Like(pattern) => PredicateView::Like(pattern@),
        }
    }
}

/// The predicate that a search text stands for: any value where there is no
/// text, the text itself where the search is exact, else its pattern.
pub open spec fn predicate_of(search: SearchTextView) -> PredicateView {
    if search.text is None {
        PredicateView::Any
    } else if search.is_exact {
        PredicateView::Equals(search.exact_text())
    } else {
        PredicateView::Like(search.search_pattern())
    }
}

/// The predicate that `search` stands for.
pub fn build(search: &SqlSearchText) -> (predicate: ColumnPredicate)
    ensures
        predicate@ == predicate_of(search@),
{
    if !search.is_some() {
        ColumnPredicate::Any
    } else if search.is_exact() {
        ColumnPredicate::Equals(search.exact_text())
    } else {
        ColumnPredicate::Like(search.search_pattern())
    }
}

/// The partial search for the empty text asks for the pattern `%%`, and so
/// as little as no search at all; the exact search for the empty text asks
/// for the empty value.
pub proof fn lemma_empty_search_text()
    ensures
        predicate_of(SearchTextView { text: Some(Seq::empty()), is_exact: false })
            == PredicateView::Like(seq!['%', '%']),
        predicate_of(SearchTextView { text: Some(Seq::empty()), is_exact: true })
            == PredicateView::Equals(Seq::empty()),
        predicate_of(SearchTextView { text: None, is_exact: false }) == PredicateView::Any,
        predicate_of(SearchTextView { text: None, is_exact: true }) == PredicateView::Any,
{
    let partial = SearchTextView { text: Some(Seq::<char>::empty()), is_exact: false };
    assert(partial.search_pattern() =~= seq!['%', '%']);
}

/// One condition of a search: its text, and the value bound to its place if
/// it has one.
pub ghost struct Narrowing {
    pub condition: Seq<char>,
    pub bind: Option<SqlValueView>,
}

/// The condition that `predicate` puts on `column`, if any.
pub open spec fn text_narrowing(column: Seq<char>, predicate: PredicateView) -> Option<Narrowing> {
    match predicate {
        PredicateView::Any => None,
        PredicateView::Equals(text) => Some(
            Narrowing { condition: column + " = ?"@, bind: Some(SqlValueView::Text(text)) },
        ),
        PredicateView::Like(pattern) => Some(
            Narrowing { condition: column + " LIKE ?"@, bind: Some(SqlValueView::Text(pattern)) },
        ),
    }
}

/// The condition that `column` holds `number`, where one is given.
pub open spec fn integer_narrowing(column: Seq<char>, number: Option<int>) -> Option<Narrowing> {
    match number {
        Some(number) => Some(
            Narrowing { condition: column + " = ?"@, bind: Some(SqlValueView::Integer(number)) },
        ),
        None => None,
    }
}

/// The condition that `column` holds the wide `number`, where one is given.
pub open spec fn big_integer_narrowing(column: Seq<char>, number: Option<int>) -> Option<
    Narrowing,
> {
    match number {
        Some(number) => Some(
            Narrowing { condition: column + " = ?"@, bind: Some(SqlValueView::BigInt(number)) },
        ),
        None => None,
    }
}

/// The condition that `column` holds the engine's null.
pub open spec fn null_narrowing(column: Seq<char>) -> Option<Narrowing> {
    Some(Narrowing { condition: column + " IS NULL"@, bind: None })
}

/// A search in the making: the statement so far, and whether it has a
/// condition yet.
pub struct Select {
    statement: Statement,
    narrowed: bool,
}

/// A search in the making as plain values.
pub ghost struct SelectView {
    pub statement: StatementView,
    pub narrowed: bool,
}

impl SelectView {
    /// The search for all that `head` selects.
    pub open spec fn all(head: Seq<char>) -> SelectView {
        SelectView { statement: StatementView { sql: head, binds: Seq::empty() }, narrowed: false }
    }

    /// The search with one more condition, which must hold together with
    /// those it has: the first follows ` WHERE `, the others ` AND `.
    pub open spec fn narrow(self, narrowing: Option<Narrowing>) -> SelectView {
        match narrowing {
            Some(narrowing) => SelectView {
                statement: StatementView {
                    sql: self.statement.sql + (if self.narrowed {
                        " AND "@
                    } else {
                        " WHERE "@
                    }) + narrowing.condition,
                    binds: match narrowing.bind {
                        Some(bind) => self.statement.binds.push(bind),
                        None => self.statement.binds,
                    },
                },
                narrowed: true,
            },
            None => self,
        }
    }
}

impl View for Select {
    type V = SelectView;

    closed spec fn view(&self) -> SelectView {
        SelectView { statement: self.statement@, narrowed: self.narrowed }
    }
}

impl Select {
    /// The search for all that `head` selects.
    pub fn all(head: &str) -> (select: Select)
        ensures
            select@ == SelectView::all(head@),
    {
        Select { statement: Statement::new(head), narrowed: false }
    }

    fn begin_condition(&mut self, column: &str)
        ensures
            final(self).narrowed,
            final(self).statement@ == (StatementView {
                sql: old(self).statement@.sql + (if old(self).narrowed {
                    " AND "@
                } else {
                    " WHERE "@
                }) + column@,
                binds: old(self).statement@.binds,
            }),
    {
        if self.narrowed {
            self.statement.sql.append(" AND ");
        } else {
            self.statement.sql.append(" WHERE ");
        }
        self.statement.sql.append(column);
        self.narrowed = true;
    }

    /// Narrows the search to the rows whose `column` meets `predicate`.
    pub fn narrow_by_text(&mut self, column: &str, predicate: ColumnPredicate)
        ensures
            final(self)@ == old(self)@.narrow(text_narrowing(column@, predicate@)),
    {
        match predicate {
            ColumnPredicate::Any => {},
            ColumnPredicate::Equals(text) => {
                self.begin_condition(column);
                self.statement.sql.append(" = ?");
                self.statement.bind(SqlValue::Text(text));
                assert(self@.statement.sql =~= old(self)@.narrow(
                    text_narrowing(column@, predicate@),
                ).statement.sql);
            },
            ColumnPredicate::Like(pattern) => {
                self.begin_condition(column);
                self.statement.sql.append(" LIKE ?");
                self.statement.bind(SqlValue::Text(pattern));
                assert(self@.statement.sql =~= old(self)@.narrow(
                    text_narrowing(column@, predicate@),
                ).statement.sql);
            },
        }
    }

    /// Narrows the search to the rows whose `column` holds `number`, where
    /// one is given.
    pub fn narrow_by_integer(&mut self, column: &str, number: Option<i32>)
        ensures
            final(self)@ == old(self)@.narrow(
                integer_narrowing(
                    column@,
                    match number {
                        Some(number) => Some(number as int),
                        None => None,
                    },
                ),
            ),
    {
        match number {
            Some(number) => {
                self.begin_condition(column);
                self.statement.sql.append(" = ?");
                self.statement.bind(SqlValue::Integer(number));
                assert(self@.statement.sql =~= old(self)@.narrow(
                    integer_narrowing(column@, Some(number as int)),
                ).statement.sql);
            },
            None => {},
        }
    }

    /// Narrows the search to the rows whose `column` holds the wide
    /// `number`, where one is given.
    pub fn narrow_by_big_integer(&mut self, column: &str, number: Option<i64>)
        ensures
            final(self)@ == old(self)@.narrow(
                big_integer_narrowing(
                    column@,
                    match number {
                        Some(number) => Some(number as int),
                        None => None,
                    },
                ),
            ),
    {
        match number {
            Some(number) => {
                self.begin_condition(column);
                self.statement.sql.append(" = ?");
                self.statement.bind(SqlValue::BigInt(number));
                assert(self@.statement.sql =~= old(self)@.narrow(
                    big_integer_narrowing(column@, Some(number as int)),
                ).statement.sql);
            },
            None => {},
        }
    }

    /// Narrows the search to the rows whose `column` holds the engine's null.
    pub fn narrow_to_null(&mut self, column: &str)
        ensures
            final(self)@ == old(self)@.narrow(null_narrowing(column@)),
    {
        self.begin_condition(column);
        self.statement.sql.append(" IS NULL");
        assert(self@.statement.sql =~= old(self)@.narrow(null_narrowing(column@)).statement.sql);
    }

    /// The statement of the search.
    pub fn into_statement(self) -> (statement: Statement)
        ensures
            statement@ == self@.statement,
    {
        self.statement
    }
}

} // verus!
