//! The events of the history in the store: the table `history_items`, whose
//! key is the identifier `timestamp`.

use crate::decimal::decimal;
use crate::errors::loading_failure;
use crate::errors::parameter_views;
use crate::errors::sql_loading_error;
use crate::errors::LoreCoreError;
use crate::errors::Parameter;
use crate::errors::ParameterView;
use crate::order::ascending;
use crate::order::lemma_views_of_rearranged;
use crate::order::sort;
use crate::order::views;
use crate::sql::lore_database::number_key;
use crate::sql::lore_database::number_parameter;
use crate::sql::lore_database::Command;
use crate::sql::lore_database::CommandView;
use crate::sql::lore_database::LoreDatabase;
use crate::sql::lore_database::Progress;
use crate::sql::lore_database::RowsExpected;
use crate::sql::lore_database::WriteBatch;
use crate::sql::search_params::HistoryItemSearchParams;
use crate::sql::search_params::SearchTextView;
use crate::sql::statement::big_integer_narrowing;
use crate::sql::statement::build;
use crate::sql::statement::integer_narrowing;
use crate::sql::statement::null_narrowing;
use crate::sql::statement::predicate_of;
use crate::sql::statement::text_narrowing;
use crate::sql::statement::Narrowing;
use crate::sql::statement::Select;
use crate::sql::statement::SelectView;
use crate::sql::statement::SqlValue;
use crate::sql::statement::SqlValueView;
use crate::sql::statement::Statement;
use crate::sql::statement::StatementView;
use crate::sql::types::history::SqlHistoryItem;
use crate::sql::types::history::SqlHistoryItemView;
use crate::types::day::Day;
use crate::types::history::HistoryItem;
use crate::types::history::HistoryItemView;
use crate::types::history_item_content::HistoryItemContent;
use crate::types::history_item_properties::HistoryItemProperties;
use crate::types::timestamp::Timestamp;
use crate::types::year::Year;
use vstd::prelude::*;

verus! {

/// The command that writes the row `row`. The engine refuses it where the
/// store holds an event with the same identifier; the report then names it.
pub open spec fn insert_history_item_command(row: SqlHistoryItemView) -> CommandView {
    CommandView {
        statement: StatementView {
            sql: "INSERT INTO history_items (timestamp, year, day, content, properties) VALUES (?, ?, ?, ?, ?)"@,
            binds: seq![
                SqlValueView::BigInt(row.timestamp),
                SqlValueView::Integer(row.year),
                SqlValueView::OptionalInteger(row.day),
                SqlValueView::Text(row.content),
                SqlValueView::OptionalText(row.properties),
            ],
        },
        action: "Writing history item to database"@,
        parameters: seq![number_parameter("timestamp"@, row.timestamp)],
        expected: RowsExpected::Any,
    }
}

/// The command that moves the event `timestamp` to the year `year` and the
/// day `day`, null for no day. The identifier stays.
pub open spec fn redate_history_item_command(
    timestamp: int,
    year: int,
    day: Option<int>,
) -> CommandView {
    CommandView {
        statement: StatementView {
            sql: "UPDATE history_items SET year = ?, day = ? WHERE timestamp = ?"@,
            binds: seq![
                SqlValueView::Integer(year),
                SqlValueView::OptionalInteger(day),
                SqlValueView::BigInt(timestamp),
            ],
        },
        action: "Redating history item in database"@,
        parameters: seq![number_parameter("timestamp"@, timestamp)],
        expected: RowsExpected::ExactlyOne,
    }
}

/// The command that deletes the event `timestamp`.
pub open spec fn delete_history_item_command(timestamp: int) -> CommandView {
    CommandView {
        statement: StatementView {
            sql: "DELETE FROM history_items WHERE timestamp = ?"@,
            binds: seq![SqlValueView::BigInt(timestamp)],
        },
        action: "Deleting history item from database"@,
        parameters: seq![number_parameter("timestamp"@, timestamp)],
        expected: RowsExpected::Any,
    }
}

/// The command that gives the event `timestamp` the content `content`.
pub open spec fn change_history_item_content_command(
    timestamp: int,
    content: Seq<char>,
) -> CommandView {
    CommandView {
        statement: StatementView {
            sql: "UPDATE history_items SET content = ? WHERE timestamp = ?"@,
            binds: seq![
                SqlValueView::Text(content),
                SqlValueView::BigInt(timestamp),
            ],
        },
        action: "Changing history item content in database"@,
        parameters: seq![number_parameter("timestamp"@, timestamp)],
        expected: RowsExpected::ExactlyOne,
    }
}

/// The command that gives the event `timestamp` the properties
/// `properties`, null for the absent ones.
pub open spec fn change_history_item_properties_command(
    timestamp: int,
    properties: Option<Seq<char>>,
) -> CommandView {
    CommandView {
        statement: StatementView {
            sql: "UPDATE history_items SET properties = ? WHERE timestamp = ?"@,
            binds: seq![
                SqlValueView::OptionalText(properties),
                SqlValueView::BigInt(timestamp),
            ],
        },
        action: "Changing history item properties in database"@,
        parameters: seq![number_parameter("timestamp"@, timestamp)],
        expected: RowsExpected::ExactlyOne,
    }
}

/// To delete an event that the store does not hold is no error, the first
/// time or again: whenever the engine answers that it touched no row, the
/// deletion has succeeded.
pub proof fn lemma_deleting_absent_history_item_succeeds(
    timestamp: int,
    outcome: Result<(), LoreCoreError>,
)
    requires
        delete_history_item_command(timestamp).comes_to(Ok(0), outcome),
    ensures
        outcome is Ok,
{
}

/// The condition that a search for the day `day` puts on the column `day`:
/// none where no day is asked for, null where "no day" is asked for, else
/// the day itself.
pub open spec fn day_narrowing(day: Option<Day>) -> Option<Narrowing> {
    match day {
        Some(day) => match day.stored() {
            Some(day) => integer_narrowing("day"@, Some(day)),
            None => null_narrowing("day"@),
        },
        None => None,
    }
}

/// The number that `year` holds, if there is one.
pub open spec fn year_number(year: Option<Year>) -> Option<int> {
    match year {
        Some(year) => Some(year@),
        None => None,
    }
}

/// The number that `timestamp` holds, if there is one.
pub open spec fn timestamp_number(timestamp: Option<Timestamp>) -> Option<int> {
    match timestamp {
        Some(timestamp) => Some(timestamp@),
        None => None,
    }
}

/// The search for the events of the year `year`, on the day `day`, with the
/// identifier `timestamp` and a content that meets `content`, as far as each
/// is given.
pub open spec fn history_search(
    year: Option<Year>,
    day: Option<Day>,
    timestamp: Option<Timestamp>,
    content: SearchTextView,
) -> StatementView {
    SelectView::all("SELECT timestamp, year, day, content, properties FROM history_items"@).narrow(
        integer_narrowing("year"@, year_number(year)),
    ).narrow(day_narrowing(day)).narrow(
        big_integer_narrowing("timestamp"@, timestamp_number(timestamp)),
    ).narrow(text_narrowing("content"@, predicate_of(content))).statement
}

/// The year that is searched for, as it is formatted for debugging.
pub open spec fn searched_year(year: Option<Year>) -> Seq<char> {
    match year {
        Some(year) => "Some("@ + year.debug_view() + ")"@,
        None => "None"@,
    }
}

/// The day that is searched for, as it is formatted for debugging.
pub open spec fn searched_day(day: Option<Day>) -> Seq<char> {
    match day {
        Some(day) => "Some("@ + day.debug_view() + ")"@,
        None => "None"@,
    }
}

/// The events that the rows `rows` hold, in order.
pub open spec fn items_of(rows: Seq<SqlHistoryItem>) -> Seq<HistoryItemView> {
    rows.map_values(|row: SqlHistoryItem| row@.item())
}

/// A search of the history: the statement to load rows with, and what a
/// report of its failure names.
#[derive(Debug)]
pub struct HistoryQuery {
    pub statement: Statement,
    pub parameters: Vec<Parameter>,
}

impl HistoryQuery {
    /// What the search comes to under the engine's `answer`: the rows it
    /// found, or its message. The events come in the order of the history:
    /// by year, in one year those without a day first and then by day, on
    /// one day by identifier. That none is found is no error.
    pub fn conclude(&self, answer: Result<Vec<SqlHistoryItem>, String>) -> (outcome: Result<
        Vec<HistoryItem>,
        LoreCoreError,
    >)
        ensures
            match answer {
                Ok(rows) => {
                    &&& outcome is Ok
                    &&& ascending(outcome->Ok_0@)
                    &&& views(outcome->Ok_0@).to_multiset() == items_of(rows@).to_multiset()
                },
                Err(reason) => {
                    &&& outcome is Err
                    &&& outcome->Err_0 is SqlError
                    &&& outcome->Err_0.message() == loading_failure(
                        "history items"@,
                        parameter_views(self.parameters@),
                        reason@,
                    )
                },
            },
    {
        match answer {
            Ok(rows) => {
                let mut items: Vec<HistoryItem> = Vec::new();
                let mut i: usize = 0;
                while i < rows.len()
                    invariant
                        i <= rows.len(),
                        items.len() == i,
                        forall|k: int| 0 <= k < i ==> (#[trigger] items[k])@ == rows[k]@.item(),
                    decreases rows.len() - i,
                {
                    items.push(rows[i].to_history_item());
                    i += 1;
                }
                assert(views(items@) =~= items_of(rows@));
                let sorted = sort(items);
                proof {
                    lemma_views_of_rearranged(sorted@, items@);
                }
                Ok(sorted)
            },
            Err(reason) => Err(
                sql_loading_error("history items", &self.parameters, reason.as_str()),
            ),
        }
    }
}

/// The command that writes `row`.
pub fn insert_history_item(row: SqlHistoryItem) -> (command: Command)
    ensures
        command@ == insert_history_item_command(row@),
{
    let parameters = vec![number_key("timestamp", row.timestamp)];
    let mut statement = Statement::new(
        "INSERT INTO history_items (timestamp, year, day, content, properties) VALUES (?, ?, ?, ?, ?)",
    );
    statement.bind(SqlValue::BigInt(row.timestamp));
    statement.bind(SqlValue::Integer(row.year));
    statement.bind(SqlValue::OptionalInteger(row.day));
    statement.bind(SqlValue::Text(row.content));
    statement.bind(SqlValue::OptionalText(row.properties));
    let command = Command {
        statement,
        action: String::from_str("Writing history item to database"),
        parameters,
        expected: RowsExpected::Any,
    };
    let ghost planned = insert_history_item_command(row@);
    assert(command@.statement.binds =~= planned.statement.binds);
    assert(command@.parameters =~= planned.parameters);
    command
}

fn searched_year_text(year: &Option<Year>) -> (text: String)
    ensures
        text@ == searched_year(*year),
{
    match year {
        Some(year) => {
            let mut text = String::from_str("Some(");
            let shown = year.debug_text();
            text.append(shown.as_str());
            text.append(")");
            text
        },
        None => String::from_str("None"),
    }
}

fn searched_day_text(day: &Option<Day>) -> (text: String)
    ensures
        text@ == searched_day(*day),
{
    match day {
        Some(day) => {
            let mut text = String::from_str("Some(");
            let shown = day.debug_text();
            text.append(shown.as_str());
            text.append(")");
            text
        },
        None => String::from_str("None"),
    }
}

impl LoreDatabase {
    /// The commands that write `cols`, one for each, in order. The batch
    /// stops at the first that the engine refuses, as it does where the
    /// store holds an event with the same identifier already.
    pub fn write_history_items(&self, cols: Vec<HistoryItem>) -> (batch: WriteBatch)
        ensures
            batch.wf(),
            batch.failure() is None,
            batch.progress() == Progress::start(cols.len() as nat, false),
            batch.commands().len() == cols.len(),
            forall|i: int|
                0 <= i < cols.len() ==> (#[trigger] batch.commands()[i])@
                    == insert_history_item_command(cols[i]@.row()),
    {
        let mut commands: Vec<Command> = Vec::new();
        let mut i: usize = 0;
        while i < cols.len()
            invariant
                i <= cols.len(),
                commands.len() == i,
                forall|k: int|
                    0 <= k < i ==> (#[trigger] commands[k])@ == insert_history_item_command(
                        cols[k]@.row(),
                    ),
            decreases cols.len() - i,
        {
            commands.push(insert_history_item(cols[i].to_sql_history_item()));
            i += 1;
        }
        WriteBatch::new(commands)
    }

    /// The command that moves the event `timestamp` to `year` and `day`. It
    /// fails where the store holds no such event, or more than one.
    pub fn redate_history_item(
        &self,
        timestamp: Timestamp,
        year: Year,
        day: Day,
    ) -> (command: Command)
        ensures
            command@ == redate_history_item_command(timestamp@, year@, day.stored()),
    {
        let parameters = vec![number_key("timestamp", timestamp.to_int())];
        let mut statement = Statement::new(
            "UPDATE history_items SET year = ?, day = ? WHERE timestamp = ?",
        );
        statement.bind(SqlValue::Integer(year.to_int()));
        statement.bind(SqlValue::OptionalInteger(day.to_optional_signed_int()));
        statement.bind(SqlValue::BigInt(timestamp.to_int()));
        let command = Command {
            statement,
            action: String::from_str("Redating history item in database"),
            parameters,
            expected: RowsExpected::ExactlyOne,
        };
        let ghost planned = redate_history_item_command(timestamp@, year@, day.stored());
        assert(command@.statement.binds =~= planned.statement.binds);
        assert(command@.parameters =~= planned.parameters);
        command
    }
    /// The command that deletes the event `timestamp`. Where the store holds
    /// no such event there is nothing to do, and that is no failure.
    pub fn delete_history_item(&self, timestamp: Timestamp) -> (command: Command)
        ensures
            command@ == delete_history_item_command(timestamp@),
    {
        let parameters = vec![number_key("timestamp", timestamp.to_int())];
        let mut statement = Statement::new(
            "DELETE FROM history_items WHERE timestamp = ?",
        );
        statement.bind(SqlValue::BigInt(timestamp.to_int()));
        let command = Command {
            statement,
            action: String::from_str("Deleting history item from database"),
            parameters,
            expected: RowsExpected::Any,
        };
        let ghost planned = delete_history_item_command(timestamp@);
        assert(command@.statement.binds =~= planned.statement.binds);
        assert(command@.parameters =~= planned.parameters);
        command
    }
    /// The command that gives the event `timestamp` the content `content`. It
    /// fails where the store holds no such event, or more than one.
    pub fn change_history_item_content(
        &self,
        timestamp: Timestamp,
        content: &HistoryItemContent,
    ) -> (command: Command)
        ensures
            command@ == change_history_item_content_command(timestamp@, content@),
    {
        let parameters = vec![number_key("timestamp", timestamp.to_int())];
        let mut statement = Statement::new(
            "UPDATE history_items SET content = ? WHERE timestamp = ?",
        );
        statement.bind(SqlValue::Text(content.to_string()));
        statement.bind(SqlValue::BigInt(timestamp.to_int()));
        let command = Command {
            statement,
            action: String::from_str("Changing history item content in database"),
            parameters,
            expected: RowsExpected::ExactlyOne,
        };
        let ghost planned = change_history_item_content_command(timestamp@, content@);
        assert(command@.statement.binds =~= planned.statement.binds);
        assert(command@.parameters =~= planned.parameters);
        command
    }
    /// The command that gives the event `timestamp` the properties
    /// `properties`. It fails where the store holds no such event, or more
    /// than one.
    pub fn change_history_item_properties(
        &self,
        timestamp: Timestamp,
        properties: &HistoryItemProperties,
    ) -> (command: Command)
        ensures
            command@ == change_history_item_properties_command(timestamp@, properties.optional()),
    {
        let parameters = vec![number_key("timestamp", timestamp.to_int())];
        let mut statement = Statement::new(
            "UPDATE history_items SET properties = ? WHERE timestamp = ?",
        );
        statement.bind(SqlValue::OptionalText(properties.to_optional_string()));
        statement.bind(SqlValue::BigInt(timestamp.to_int()));
        let command = Command {
            statement,
            action: String::from_str("Changing history item properties in database"),
            parameters,
            expected: RowsExpected::ExactlyOne,
        };
        let ghost planned = change_history_item_properties_command(
            timestamp@,
            properties.optional(),
        );
        assert(command@.statement.binds =~= planned.statement.binds);
        assert(command@.parameters =~= planned.parameters);
        command
    }
    /// The search for the events that `search_params` asks for.
    pub fn read_history_items(&self, search_params: HistoryItemSearchParams) -> (query:
        HistoryQuery)
        ensures
            query.statement@ == history_search(
                search_params.year,
                search_params.day,
                search_params.timestamp,
                search_params.content@,
            ),
            parameter_views(query.parameters@) == seq![
                ParameterView { name: "year"@, value: searched_year(search_params.year) },
                ParameterView { name: "day"@, value: searched_day(search_params.day) },
            ],
    {
        let mut select = Select::all(
            "SELECT timestamp, year, day, content, properties FROM history_items",
        );
        select.narrow_by_integer(
            "year",
            match search_params.year {
                Some(year) => Some(year.to_int()),
                None => None,
            },
        );
        match search_params.day {
            Some(day) => match day.to_optional_signed_int() {
                Some(day) => {
                    select.narrow_by_integer("day", Some(day));
                },
                None => {
                    select.narrow_to_null("day");
                },
            },
            None => {},
        }
        select.narrow_by_big_integer(
            "timestamp",
            match search_params.timestamp {
                Some(timestamp) => Some(timestamp.to_int()),
                None => None,
            },
        );
        select.narrow_by_text("content", build(&search_params.content));
        let parameters = vec![
            Parameter::new("year", searched_year_text(&search_params.year)),
            Parameter::new("day", searched_day_text(&search_params.day)),
        ];
        let query = HistoryQuery { statement: select.into_statement(), parameters };
        assert(parameter_views(query.parameters@) =~= seq![
            ParameterView { name: "year"@, value: searched_year(search_params.year) },
            ParameterView { name: "day"@, value: searched_day(search_params.day) },
        ]);
        query
    }
}

} // verus!
