//! The attributes of the entities in the store: the table `entities`, whose
//! key is label and descriptor.

use crate::errors::loading_failure;
use crate::errors::parameter_views;
use crate::errors::sql_loading_error;
use crate::errors::LoreCoreError;
use crate::errors::Parameter;
use crate::errors::ParameterView;
use crate::order::ascending;
use crate::order::lemma_views_of_rearranged;
use crate::order::sort;
use crate::order::views;
use crate::sql::lore_database::text_key;
use crate::sql::lore_database::text_parameter;
use crate::sql::lore_database::Command;
use crate::sql::lore_database::CommandView;
use crate::sql::lore_database::LoreDatabase;
use crate::sql::lore_database::Progress;
use crate::sql::lore_database::RowsExpected;
use crate::sql::lore_database::WriteBatch;
use crate::sql::search_params::EntityColumnSearchParams;
use crate::sql::search_params::SearchTextView;
use crate::sql::statement::build;
use crate::sql::statement::predicate_of;
use crate::sql::statement::text_narrowing;
use crate::sql::statement::Select;
use crate::sql::statement::SelectView;
use crate::sql::statement::SqlValue;
use crate::sql::statement::SqlValueView;
use crate::sql::statement::Statement;
use crate::sql::statement::StatementView;
use crate::sql::types::entity::SqlEntityColumn;
use crate::sql::types::entity::SqlEntityColumnView;
use crate::types::description::Description;
use crate::types::descriptor::Descriptor;
use crate::types::entity::EntityColumn;
use crate::types::entity::EntityColumnView;
use crate::types::label::Label;
use vstd::prelude::*;

verus! {

/// The command that writes the row `row`. The engine refuses it where the
/// store holds a row with the same label and descriptor; the report then
/// names both.
pub open spec fn insert_entity_command(row: SqlEntityColumnView) -> CommandView {
    CommandView {
        statement: StatementView {
            sql: "INSERT INTO entities (label, descriptor, description) VALUES (?, ?, ?)"@,
            binds: seq![
                SqlValueView::Text(row.label),
                SqlValueView::Text(row.descriptor),
                SqlValueView::OptionalText(row.description),
            ],
        },
        action: "Writing column to database"@,
        parameters: seq![
            text_parameter("label"@, row.label),
            text_parameter("descriptor"@, row.descriptor),
        ],
        expected: RowsExpected::Any,
    }
}

/// The command that gives the entity `old_label` the label `new_label`, in
/// all its attributes.
pub open spec fn relabel_entity_command(old_label: Seq<char>, new_label: Seq<char>) -> CommandView {
    CommandView {
        statement: StatementView {
            sql: "UPDATE entities SET label = ? WHERE label = ?"@,
            binds: seq![SqlValueView::Text(new_label), SqlValueView::Text(old_label)],
        },
        action: "Relabeling entity in database"@,
        parameters: seq![
            text_parameter("old_label"@, old_label),
            text_parameter("new_label"@, new_label),
        ],
        expected: RowsExpected::AtLeastOne,
    }
}

/// The command that deletes the entity `label` with all its attributes.
pub open spec fn delete_entity_command(label: Seq<char>) -> CommandView {
    CommandView {
        statement: StatementView {
            sql: "DELETE FROM entities WHERE label = ?"@,
            binds: seq![SqlValueView::Text(label)],
        },
        action: "Deleting entity from database"@,
        parameters: seq![text_parameter("label"@, label)],
        expected: RowsExpected::Any,
    }
}

/// The command that renames the attribute `old_descriptor` of the entity
/// `label` to `new_descriptor`.
pub open spec fn change_entity_descriptor_command(
    label: Seq<char>,
    old_descriptor: Seq<char>,
    new_descriptor: Seq<char>,
) -> CommandView {
    CommandView {
        statement: StatementView {
            sql: "UPDATE entities SET descriptor = ? WHERE label = ? AND descriptor = ?"@,
            binds: seq![
                SqlValueView::Text(new_descriptor),
                SqlValueView::Text(label),
                SqlValueView::Text(old_descriptor),
            ],
        },
        action: "Changing entity descriptor in database"@,
        parameters: seq![
            text_parameter("label"@, label),
            text_parameter("old_descriptor"@, old_descriptor),
            text_parameter("new_descriptor"@, new_descriptor),
        ],
        expected: RowsExpected::ExactlyOne,
    }
}

/// The command that deletes the attribute `descriptor` of the entity `label`.
pub open spec fn delete_entity_column_command(
    label: Seq<char>,
    descriptor: Seq<char>,
) -> CommandView {
    CommandView {
        statement: StatementView {
            sql: "DELETE FROM entities WHERE label = ? AND descriptor = ?"@,
            binds: seq![SqlValueView::Text(label), SqlValueView::Text(descriptor)],
        },
        action: "Deleting entity column from database"@,
        parameters: seq![
            text_parameter("label"@, label),
            text_parameter("descriptor"@, descriptor),
        ],
        expected: RowsExpected::Any,
    }
}

/// The command that gives the attribute `descriptor` of the entity `label`
/// the description `new_description`, null for the absent one.
pub open spec fn change_entity_description_command(
    label: Seq<char>,
    descriptor: Seq<char>,
    new_description: Option<Seq<char>>,
) -> CommandView {
    CommandView {
        statement: StatementView {
            sql: "UPDATE entities SET description = ? WHERE label = ? AND descriptor = ?"@,
            binds: seq![
                SqlValueView::OptionalText(new_description),
                SqlValueView::Text(label),
                SqlValueView::Text(descriptor),
            ],
        },
        action: "Changing entity description in database"@,
        parameters: seq![
            text_parameter("label"@, label),
            text_parameter("descriptor"@, descriptor),
        ],
        expected: RowsExpected::ExactlyOne,
    }
}

/// To delete an entity or an attribute that the store does not hold is no
/// error, the first time or again: whenever the engine answers that it
/// touched no row, the deletion has succeeded.
pub proof fn lemma_deleting_absent_entities_succeeds(
    label: Seq<char>,
    descriptor: Seq<char>,
    outcome: Result<(), LoreCoreError>,
)
    requires
        delete_entity_command(label).comes_to(Ok(0), outcome) || delete_entity_column_command(
            label,
            descriptor,
        ).comes_to(Ok(0), outcome),
    ensures
        outcome is Ok,
{
}

/// The search for the attributes whose label meets `label` and whose
/// descriptor meets `descriptor`.
pub open spec fn entity_search(label: SearchTextView, descriptor: SearchTextView) -> StatementView {
    SelectView::all("SELECT label, descriptor, description FROM entities"@).narrow(
        text_narrowing("label"@, predicate_of(label)),
    ).narrow(text_narrowing("descriptor"@, predicate_of(descriptor))).statement
}

/// The attributes that the rows `rows` hold, in order.
pub open spec fn entities_of(rows: Seq<SqlEntityColumn>) -> Seq<EntityColumnView> {
    rows.map_values(|row: SqlEntityColumn| row@.entity())
}

/// A search of the entities: the statement to load rows with, and what a
/// report of its failure names.
#[derive(Debug)]
pub struct EntityQuery {
    pub statement: Statement,
    pub parameters: Vec<Parameter>,
}

impl EntityQuery {
    /// What the search comes to under the engine's `answer`: the rows it
    /// found, or its message. The attributes come in their order, by label,
    /// then descriptor, then description; that none is found is no error.
    pub fn conclude(&self, answer: Result<Vec<SqlEntityColumn>, String>) -> (outcome: Result<
        Vec<EntityColumn>,
        LoreCoreError,
    >)
        ensures
            match answer {
                Ok(rows) => {
                    &&& outcome is Ok
                    &&& ascending(outcome->Ok_0@)
                    &&& views(outcome->Ok_0@).to_multiset() == entities_of(rows@).to_multiset()
                },
                Err(reason) => {
                    &&& outcome is Err
                    &&& outcome->Err_0 is SqlError
                    &&& outcome->Err_0.message() == loading_failure(
                        "entities"@,
                        parameter_views(self.parameters@),
                        reason@,
                    )
                },
            },
    {
        match answer {
            Ok(rows) => {
                let mut cols: Vec<EntityColumn> = Vec::new();
                let mut i: usize = 0;
                while i < rows.len()
                    invariant
                        i <= rows.len(),
                        cols.len() == i,
                        forall|k: int| 0 <= k < i ==> (#[trigger] cols[k])@ == rows[k]@.entity(),
                    decreases rows.len() - i,
                {
                    cols.push(rows[i].to_entity_column());
                    i += 1;
                }
                assert(views(cols@) =~= entities_of(rows@));
                let sorted = sort(cols);
                proof {
                    lemma_views_of_rearranged(sorted@, cols@);
                }
                Ok(sorted)
            },
            Err(reason) => Err(sql_loading_error("entities", &self.parameters, reason.as_str())),
        }
    }
}

/// The command that writes `row`.
pub fn insert_entity(row: SqlEntityColumn) -> (command: Command)
    ensures
        command@ == insert_entity_command(row@),
{
    let parameters = vec![
        text_key("label", row.label.as_str()),
        text_key("descriptor", row.descriptor.as_str()),
    ];
    let mut statement = Statement::new(
        "INSERT INTO entities (label, descriptor, description) VALUES (?, ?, ?)",
    );
    statement.bind(SqlValue::Text(row.label));
    statement.bind(SqlValue::Text(row.descriptor));
    statement.bind(SqlValue::OptionalText(row.description));
    let command = Command {
        statement,
        action: String::from_str("Writing column to database"),
        parameters,
        expected: RowsExpected::Any,
    };
    let ghost planned = insert_entity_command(row@);
    assert(command@.statement.binds =~= planned.statement.binds);
    assert(command@.parameters =~= planned.parameters);
    command
}

impl LoreDatabase {
    /// The commands that write `cols`, one for each, in order. The batch
    /// stops at the first that the engine refuses, as it does where the
    /// store holds an attribute with the same label and descriptor already.
    pub fn write_entity_columns(&self, cols: Vec<EntityColumn>) -> (batch: WriteBatch)
        ensures
            batch.wf(),
            batch.failure() is None,
            batch.progress() == Progress::start(cols.len() as nat, false),
            batch.commands().len() == cols.len(),
            forall|i: int|
                0 <= i < cols.len() ==> (#[trigger] batch.commands()[i])@ == insert_entity_command(
                    cols[i]@.row(),
                ),
    {
        let mut commands: Vec<Command> = Vec::new();
        let mut i: usize = 0;
        while i < cols.len()
            invariant
                i <= cols.len(),
                commands.len() == i,
                forall|k: int|
                    0 <= k < i ==> (#[trigger] commands[k])@ == insert_entity_command(
                        cols[k]@.row(),
                    ),
            decreases cols.len() - i,
        {
            commands.push(insert_entity(cols[i].to_sql_entity_column()));
            i += 1;
        }
        WriteBatch::new(commands)
    }

    /// The command that gives the entity `old_label` the label `new_label`.
    /// It fails where the store holds no such entity.
    pub fn relabel_entity(&self, old_label: &Label, new_label: &Label) -> (command: Command)
        ensures
            command@ == relabel_entity_command(old_label@, new_label@),
    {
        let parameters = vec![
            text_key("old_label", old_label.to_str()),
            text_key("new_label", new_label.to_str()),
        ];
        let mut statement = Statement::new("UPDATE entities SET label = ? WHERE label = ?");
        statement.bind_text(new_label.to_str());
        statement.bind_text(old_label.to_str());
        let command = Command {
            statement,
            action: String::from_str("Relabeling entity in database"),
            parameters,
            expected: RowsExpected::AtLeastOne,
        };
        let ghost planned = relabel_entity_command(old_label@, new_label@);
        assert(command@.statement.binds =~= planned.statement.binds);
        assert(command@.parameters =~= planned.parameters);
        command
    }

    /// The command that deletes the entity `label`. Where the store holds no
    /// such entity there is nothing to do, and that is no failure.
    pub fn delete_entity(&self, label: Label) -> (command: Command)
        ensures
            command@ == delete_entity_command(label@),
    {
        let parameters = vec![text_key("label", label.to_str())];
        let mut statement = Statement::new("DELETE FROM entities WHERE label = ?");
        statement.bind_text(label.to_str());
        let command = Command {
            statement,
            action: String::from_str("Deleting entity from database"),
            parameters,
            expected: RowsExpected::Any,
        };
        let ghost planned = delete_entity_command(label@);
        assert(command@.statement.binds =~= planned.statement.binds);
        assert(command@.parameters =~= planned.parameters);
        command
    }

    /// The command that renames the attribute `old_descriptor` of the entity
    /// `label` to `new_descriptor`. It fails where the store holds no such
    /// attribute, or more than one.
    pub fn change_entity_descriptor(
        &self,
        key: (&Label, Descriptor),
        new_descriptor: &Descriptor,
    ) -> (command: Command)
        ensures
            command@ == change_entity_descriptor_command(key.0@, key.1@, new_descriptor@),
    {
        let (label, old_descriptor) = key;
        let parameters = vec![
            text_key("label", label.to_str()),
            text_key("old_descriptor", old_descriptor.to_str()),
            text_key("new_descriptor", new_descriptor.to_str()),
        ];
        let mut statement = Statement::new(
            "UPDATE entities SET descriptor = ? WHERE label = ? AND descriptor = ?",
        );
        statement.bind_text(new_descriptor.to_str());
        statement.bind_text(label.to_str());
        statement.bind_text(old_descriptor.to_str());
        let command = Command {
            statement,
            action: String::from_str("Changing entity descriptor in database"),
            parameters,
            expected: RowsExpected::ExactlyOne,
        };
        let ghost planned = change_entity_descriptor_command(
            label@,
            old_descriptor@,
            new_descriptor@,
        );
        assert(command@.statement.binds =~= planned.statement.binds);
        assert(command@.parameters =~= planned.parameters);
        command
    }

    /// The command that deletes the attribute `descriptor` of the entity
    /// `label`. Where the store holds no such attribute there is nothing to
    /// do, and that is no failure.
    pub fn delete_entity_column(&self, key: (Label, Descriptor)) -> (command: Command)
        ensures
            command@ == delete_entity_column_command(key.0@, key.1@),
    {
        let (label, descriptor) = key;
        let parameters = vec![
            text_key("label", label.to_str()),
            text_key("descriptor", descriptor.to_str()),
        ];
        let mut statement = Statement::new(
            "DELETE FROM entities WHERE label = ? AND descriptor = ?",
        );
        statement.bind_text(label.to_str());
        statement.bind_text(descriptor.to_str());
        let command = Command {
            statement,
            action: String::from_str("Deleting entity column from database"),
            parameters,
            expected: RowsExpected::Any,
        };
        let ghost planned = delete_entity_column_command(label@, descriptor@);
        assert(command@.statement.binds =~= planned.statement.binds);
        assert(command@.parameters =~= planned.parameters);
        command
    }

    /// The command that gives the attribute `descriptor` of the entity
    /// `label` the description `new_description`. It fails where the store
    /// holds no such attribute, or more than one.
    pub fn change_entity_description(
        &self,
        key: (&Label, &Descriptor),
        new_description: &Description,
    ) -> (command: Command)
        ensures
            command@ == change_entity_description_command(
                key.0@,
                key.1@,
                new_description.optional(),
            ),
    {
        let (label, descriptor) = key;
        let parameters = vec![
            text_key("label", label.to_str()),
            text_key("descriptor", descriptor.to_str()),
        ];
        let mut statement = Statement::new(
            "UPDATE entities SET description = ? WHERE label = ? AND descriptor = ?",
        );
        statement.bind(SqlValue::OptionalText(new_description.to_optional_string()));
        statement.bind_text(label.to_str());
        statement.bind_text(descriptor.to_str());
        let command = Command {
            statement,
            action: String::from_str("Changing entity description in database"),
            parameters,
            expected: RowsExpected::ExactlyOne,
        };
        let ghost planned = change_entity_description_command(
            label@,
            descriptor@,
            new_description.optional(),
        );
        assert(command@.statement.binds =~= planned.statement.binds);
        assert(command@.parameters =~= planned.parameters);
        command
    }

    /// The search for the attributes that `search_params` asks for.
    pub fn read_entity_columns(&self, search_params: EntityColumnSearchParams) -> (query:
        EntityQuery)
        ensures
            query.statement@ == entity_search(search_params.label@, search_params.descriptor@),
            parameter_views(query.parameters@) == seq![
                ParameterView { name: "label"@, value: search_params.label@.debug_view() },
                ParameterView { name: "descriptor"@, value: search_params.descriptor@.debug_view() },
            ],
    {
        let mut select = Select::all("SELECT label, descriptor, description FROM entities");
        select.narrow_by_text("label", build(&search_params.label));
        select.narrow_by_text("descriptor", build(&search_params.descriptor));
        let parameters = vec![
            Parameter::new("label", search_params.label.debug_text()),
            Parameter::new("descriptor", search_params.descriptor.debug_text()),
        ];
        let query = EntityQuery { statement: select.into_statement(), parameters };
        assert(parameter_views(query.parameters@) =~= seq![
            ParameterView { name: "label"@, value: search_params.label@.debug_view() },
            ParameterView { name: "descriptor"@, value: search_params.descriptor@.debug_view() },
        ]);
        query
    }
}

} // verus!
