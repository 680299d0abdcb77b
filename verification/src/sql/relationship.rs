//! The relationships between the entities in the store: the table
//! `relationships`, whose key is parent, child and role together.

use crate::errors::loading_failure;
use crate::errors::parameter_views;
use crate::errors::sql_loading_error;
use crate::errors::LoreCoreError;
use crate::errors::Parameter;
use crate::errors::ParameterView;
use crate::order::ascending;
use crate::order::lemma_views_of_rearranged;
use crate::order::sort;
use crate::order::views;
use crate::sql::lore_database::text_key;
use crate::sql::lore_database::text_parameter;
use crate::sql::lore_database::Command;
use crate::sql::lore_database::CommandView;
use crate::sql::lore_database::LoreDatabase;
use crate::sql::lore_database::Progress;
use crate::sql::lore_database::RowsExpected;
use crate::sql::lore_database::WriteBatch;
use crate::sql::search_params::RelationshipSearchParams;
use crate::sql::search_params::SearchTextView;
use crate::sql::statement::build;
use crate::sql::statement::predicate_of;
use crate::sql::statement::text_narrowing;
use crate::sql::statement::Select;
use crate::sql::statement::SelectView;
use crate::sql::statement::SqlValue;
use crate::sql::statement::SqlValueView;
use crate::sql::statement::Statement;
use crate::sql::statement::StatementView;
use crate::sql::types::relationship::SqlEntityRelationship;
use crate::sql::types::relationship::SqlEntityRelationshipView;
use crate::types::relationship::EntityRelationship;
use crate::types::relationship::EntityRelationshipView;
use crate::types::role::Role;
use vstd::prelude::*;

verus! {

/// The command that writes the row `row`. The engine refuses it where the
/// store holds a row with the same parent, child and role; the report then
/// names the three.
pub open spec fn insert_relationship_command(row: SqlEntityRelationshipView) -> CommandView {
    CommandView {
        statement: StatementView {
            sql: "INSERT INTO relationships (parent, child, role) VALUES (?, ?, ?)"@,
            binds: seq![
                SqlValueView::Text(row.parent),
                SqlValueView::Text(row.child),
                SqlValueView::Text(row.role),
            ],
        },
        action: "Writing relationship to database"@,
        parameters: seq![
            text_parameter("parent"@, row.parent),
            text_parameter("child"@, row.child),
            text_parameter("role"@, row.role),
        ],
        expected: RowsExpected::Any,
    }
}

/// The command that gives the relationship with the key `old` the role
/// `new_role`, the empty text for the absent role.
pub open spec fn change_relationship_role_command(
    old: EntityRelationshipView,
    new_role: Seq<char>,
) -> CommandView {
    CommandView {
        statement: StatementView {
            sql: "UPDATE relationships SET role = ? WHERE parent = ? AND child = ? AND role = ?"@,
            binds: seq![
                SqlValueView::Text(new_role),
                SqlValueView::Text(old.parent),
                SqlValueView::Text(old.child),
                SqlValueView::Text(old.role),
            ],
        },
        action: "Changing relationship role in database"@,
        parameters: seq![
            text_parameter("parent"@, old.parent),
            text_parameter("child"@, old.child),
            text_parameter("old_role"@, old.role),
            text_parameter("new_role"@, new_role),
        ],
        expected: RowsExpected::ExactlyOne,
    }
}

/// The command that deletes the relationship with the key `relationship`:
/// the edge with that very role, and with no role where the role is absent.
pub open spec fn delete_relationship_command(relationship: EntityRelationshipView) -> CommandView {
    CommandView {
        statement: StatementView {
            sql: "DELETE FROM relationships WHERE parent = ? AND child = ? AND role = ?"@,
            binds: seq![
                SqlValueView::Text(relationship.parent),
                SqlValueView::Text(relationship.child),
                SqlValueView::Text(relationship.role),
            ],
        },
        action: "Deleting relationship from database"@,
        parameters: seq![
            text_parameter("parent"@, relationship.parent),
            text_parameter("child"@, relationship.child),
            text_parameter("role"@, relationship.role),
        ],
        expected: RowsExpected::Any,
    }
}

/// To delete a relationship that the store does not hold is no error, the
/// first time or again: whenever the engine answers that it touched no row,
/// the deletion has succeeded.
pub proof fn lemma_deleting_absent_relationship_succeeds(
    relationship: EntityRelationshipView,
    outcome: Result<(), LoreCoreError>,
)
    requires
        delete_relationship_command(relationship).comes_to(Ok(0), outcome),
    ensures
        outcome is Ok,
{
}

/// The search for the relationships whose parent meets `parent` and whose
/// child meets `child`.
pub open spec fn relationship_search(
    parent: SearchTextView,
    child: SearchTextView,
) -> StatementView {
    SelectView::all("SELECT parent, child, role FROM relationships"@).narrow(
        text_narrowing("parent"@, predicate_of(parent)),
    ).narrow(text_narrowing("child"@, predicate_of(child))).statement
}

/// The relationships that the rows `rows` hold, in order.
pub open spec fn relationships_of(rows: Seq<SqlEntityRelationship>) -> Seq<
    EntityRelationshipView,
> {
    rows.map_values(|row: SqlEntityRelationship| row@.relationship())
}

/// A search of the relationships: the statement to load rows with, and what
/// a report of its failure names.
#[derive(Debug)]
pub struct RelationshipQuery {
    pub statement: Statement,
    pub parameters: Vec<Parameter>,
}

impl RelationshipQuery {
    /// What the search comes to under the engine's `answer`: the rows it
    /// found, or its message. The relationships come in their order, by
    /// parent, then child, then role, the absent role first; that none is
    /// found is no error.
    pub fn conclude(&self, answer: Result<Vec<SqlEntityRelationship>, String>) -> (outcome: Result<
        Vec<EntityRelationship>,
        LoreCoreError,
    >)
        ensures
            match answer {
                Ok(rows) => {
                    &&& outcome is Ok
                    &&& ascending(outcome->Ok_0@)
                    &&& views(outcome->Ok_0@).to_multiset() == relationships_of(
                        rows@,
                    ).to_multiset()
                },
                Err(reason) => {
                    &&& outcome is Err
                    &&& outcome->Err_0 is SqlError
                    &&& outcome->Err_0.message() == loading_failure(
                        "relationships"@,
                        parameter_views(self.parameters@),
                        reason@,
                    )
                },
            },
    {
        match answer {
            Ok(rows) => {
                let mut rels: Vec<EntityRelationship> = Vec::new();
                let mut i: usize = 0;
                while i < rows.len()
                    invariant
                        i <= rows.len(),
                        rels.len() == i,
                        forall|k: int|
                            0 <= k < i ==> (#[trigger] rels[k])@ == rows[k]@.relationship(),
                    decreases rows.len() - i,
                {
                    rels.push(rows[i].to_relationship());
                    i += 1;
                }
                assert(views(rels@) =~= relationships_of(rows@));
                let sorted = sort(rels);
                proof {
                    lemma_views_of_rearranged(sorted@, rels@);
                }
                Ok(sorted)
            },
            Err(reason) => Err(
                sql_loading_error("relationships", &self.parameters, reason.as_str()),
            ),
        }
    }
}

/// The command that writes `row`.
pub fn insert_relationship(row: SqlEntityRelationship) -> (command: Command)
    ensures
        command@ == insert_relationship_command(row@),
{
    let parameters = vec![
        text_key("parent", row.parent.as_str()),
        text_key("child", row.child.as_str()),
        text_key("role", row.role.as_str()),
    ];
    let mut statement = Statement::new(
        "INSERT INTO relationships (parent, child, role) VALUES (?, ?, ?)",
    );
    statement.bind(SqlValue::Text(row.parent));
    statement.bind(SqlValue::Text(row.child));
    statement.bind(SqlValue::Text(row.role));
    let command = Command {
        statement,
        action: String::from_str("Writing relationship to database"),
        parameters,
        expected: RowsExpected::Any,
    };
    let ghost planned = insert_relationship_command(row@);
    assert(command@.statement.binds =~= planned.statement.binds);
    assert(command@.parameters =~= planned.parameters);
    command
}

impl LoreDatabase {
    /// The commands that write `rels`, one for each, in order. The batch
    /// stops at the first that the engine refuses, as it does where the
    /// store holds a relationship with the same parent, child and role
    /// already.
    pub fn write_relationships(&self, rels: Vec<EntityRelationship>) -> (batch: WriteBatch)
        ensures
            batch.wf(),
            batch.failure() is None,
            batch.progress() == Progress::start(rels.len() as nat, false),
            batch.commands().len() == rels.len(),
            forall|i: int|
                0 <= i < rels.len() ==> (#[trigger] batch.commands()[i])@
                    == insert_relationship_command(rels[i]@.row()),
    {
        let mut commands: Vec<Command> = Vec::new();
        let mut i: usize = 0;
        while i < rels.len()
            invariant
                i <= rels.len(),
                commands.len() == i,
                forall|k: int|
                    0 <= k < i ==> (#[trigger] commands[k])@ == insert_relationship_command(
                        rels[k]@.row(),
                    ),
            decreases rels.len() - i,
        {
            commands.push(insert_relationship(rels[i].to_sql_entity_relationship()));
            i += 1;
        }
        WriteBatch::new(commands)
    }

    /// The command that gives `old_relationship` the role `new_role`. It fails
    /// where the store holds no such relationship, or more than one.
    pub fn change_relationship_role(
        &self,
        old_relationship: EntityRelationship,
        new_role: &Role,
    ) -> (command: Command)
        ensures
            command@ == change_relationship_role_command(old_relationship@, new_role@),
    {
        let parameters = vec![
            text_key("parent", old_relationship.parent.to_str()),
            text_key("child", old_relationship.child.to_str()),
            text_key("old_role", old_relationship.role.to_str()),
            text_key("new_role", new_role.to_str()),
        ];
        let mut statement = Statement::new(
            "UPDATE relationships SET role = ? WHERE parent = ? AND child = ? AND role = ?",
        );
        statement.bind(SqlValue::Text(new_role.to_string()));
        statement.bind(SqlValue::Text(old_relationship.parent.to_string()));
        statement.bind(SqlValue::Text(old_relationship.child.to_string()));
        statement.bind(SqlValue::Text(old_relationship.role.to_string()));
        let command = Command {
            statement,
            action: String::from_str("Changing relationship role in database"),
            parameters,
            expected: RowsExpected::ExactlyOne,
        };
        let ghost planned = change_relationship_role_command(old_relationship@, new_role@);
        assert(command@.statement.binds =~= planned.statement.binds);
        assert(command@.parameters =~= planned.parameters);
        command
    }
    /// The command that deletes `relationship`. Where the store holds no such
    /// relationship there is nothing to do, and that is no failure.
    pub fn delete_relationship(&self, relationship: EntityRelationship) -> (command: Command)
        ensures
            command@ == delete_relationship_command(relationship@),
    {
        let parameters = vec![
            text_key("parent", relationship.parent.to_str()),
            text_key("child", relationship.child.to_str()),
            text_key("role", relationship.role.to_str()),
        ];
        let mut statement = Statement::new(
            "DELETE FROM relationships WHERE parent = ? AND child = ? AND role = ?",
        );
        statement.bind(SqlValue::Text(relationship.parent.to_string()));
        statement.bind(SqlValue::Text(relationship.child.to_string()));
        statement.bind(SqlValue::Text(relationship.role.to_string()));
        let command = Command {
            statement,
            action: String::from_str("Deleting relationship from database"),
            parameters,
            expected: RowsExpected::Any,
        };
        let ghost planned = delete_relationship_command(relationship@);
        assert(command@.statement.binds =~= planned.statement.binds);
        assert(command@.parameters =~= planned.parameters);
        command
    }
    /// The search for the relationships that `search_params` asks for.
    pub fn read_relationships(&self, search_params: RelationshipSearchParams) -> (query:
        RelationshipQuery)
        ensures
            query.statement@ == relationship_search(search_params.parent@, search_params.child@),
            parameter_views(query.parameters@) == seq![
                ParameterView { name: "parent"@, value: search_params.parent@.debug_view() },
                ParameterView { name: "child"@, value: search_params.child@.debug_view() },
            ],
    {
        let mut select = Select::all("SELECT parent, child, role FROM relationships");
        select.narrow_by_text("parent", build(&search_params.parent));
        select.narrow_by_text("child", build(&search_params.child));
        let parameters = vec![
            Parameter::new("parent", search_params.parent.debug_text()),
            Parameter::new("child", search_params.child.debug_text()),
        ];
        let query = RelationshipQuery { statement: select.into_statement(), parameters };
        assert(parameter_views(query.parameters@) =~= seq![
            ParameterView { name: "parent"@, value: search_params.parent@.debug_view() },
            ParameterView { name: "child"@, value: search_params.child@.debug_view() },
        ]);
        query
    }
}

} // verus!
