use diesel::deserialize::QueryableByName;
use diesel::query_builder::{BoxedSqlQuery, SqlQuery};
use diesel::row::NamedRow;
use diesel::sql_types::{BigInt, Integer, Nullable, Text};
use diesel::sqlite::Sqlite;
use diesel::{Connection, RunQueryDsl, SqliteConnection};
use lorecore::errors::LoreCoreError;
use lorecore::extractions::{extract_children, extract_parents};
use lorecore::sql::lore_database::{Command, LoreDatabase, WriteBatch};
use lorecore::sql::schema::schema;
use lorecore::sql::search_params::{RelationshipSearchParams, SqlSearchText};
use lorecore::sql::statement::{SqlValue, Statement};
use lorecore::sql::types::relationship::SqlEntityRelationship;
use lorecore::types::{EntityRelationship, Role};
use std::path::PathBuf;
use tempfile::NamedTempFile;

fn connect(db: &LoreDatabase) -> Result<SqliteConnection, LoreCoreError> {
    SqliteConnection::establish(&db.path_as_string())
        .map_err(|error| db.connection_error(&error.to_string()))
}

fn execute(connection: &mut SqliteConnection, statement: &Statement) -> Result<usize, String> {
    bound(statement)
        .execute(connection)
        .map_err(|error| error.to_string())
}

fn bound(statement: &Statement) -> BoxedSqlQuery<'static, Sqlite, SqlQuery> {
    let mut query = diesel::sql_query(statement.sql.clone()).into_boxed::<Sqlite>();
    for bind in statement.binds.iter() {
        query = match bind {
            SqlValue::Text(text) => query.bind::<Text, _>(text.clone()),
            SqlValue::OptionalText(text) => query.bind::<Nullable<Text>, _>(text.clone()),
            SqlValue::Integer(number) => query.bind::<Integer, _>(*number),
            SqlValue::OptionalInteger(number) => query.bind::<Nullable<Integer>, _>(*number),
            SqlValue::BigInt(number) => query.bind::<BigInt, _>(*number),
        };
    }
    query
}

fn run(connection: &mut SqliteConnection, command: Command) -> Result<(), LoreCoreError> {
    let answer = execute(connection, &command.statement);
    command.conclude(&answer)
}

fn run_batch(connection: &mut SqliteConnection, mut batch: WriteBatch) -> Result<(), LoreCoreError> {
    loop {
        let answer = match batch.pending() {
            Some(command) => execute(connection, &command.statement),
            None => break,
        };
        batch.record(&answer);
    }
    batch.outcome()
}

struct TestDatabase {
    db: LoreDatabase,
}

fn open_database(path: PathBuf) -> Result<TestDatabase, LoreCoreError> {
    let db = LoreDatabase::at(path.to_str(), &path.to_string_lossy())?;
    let mut connection = connect(&db)?;
    for statement in schema() {
        execute(&mut connection, &statement).map_err(|error| db.migration_error(&error))?;
    }
    Ok(TestDatabase { db })
}

struct RelationshipRow(SqlEntityRelationship);

impl QueryableByName<Sqlite> for RelationshipRow {
    fn build<'a>(row: &impl NamedRow<'a, Sqlite>) -> diesel::deserialize::Result<Self> {
        Ok(RelationshipRow(SqlEntityRelationship {
            parent: NamedRow::get::<Text, String>(row, "parent")?,
            child: NamedRow::get::<Text, String>(row, "child")?,
            role: NamedRow::get::<Text, String>(row, "role")?,
        }))
    }
}

impl TestDatabase {
    fn write_relationships(&self, rels: Vec<EntityRelationship>) -> Result<(), LoreCoreError> {
        let mut connection = connect(&self.db)?;
        run_batch(&mut connection, self.db.write_relationships(rels))
    }

    fn change_relationship_role(
        &self,
        old_relationship: EntityRelationship,
        new_role: &Role,
    ) -> Result<(), LoreCoreError> {
        let mut connection = connect(&self.db)?;
        run(
            &mut connection,
            self.db.change_relationship_role(old_relationship, new_role),
        )
    }

    fn delete_relationship(&self, relationship: EntityRelationship) -> Result<(), LoreCoreError> {
        let mut connection = connect(&self.db)?;
        run(&mut connection, self.db.delete_relationship(relationship))
    }

    fn get_relationships(
        &self,
        search_params: RelationshipSearchParams,
    ) -> Result<Vec<EntityRelationship>, LoreCoreError> {
        let mut connection = connect(&self.db)?;
        let query = self.db.read_relationships(search_params);
        let answer = bound(&query.statement)
            .load::<RelationshipRow>(&mut connection)
            .map(|rows| rows.into_iter().map(|row| row.0).collect())
            .map_err(|error| error.to_string());
        query.conclude(answer)
    }
}

fn get_parents(rels: &Vec<EntityRelationship>) -> Vec<String> {
    extract_parents(rels)
        .iter()
        .map(|parent| parent.to_string())
        .collect()
}

fn get_children(rels: &Vec<EntityRelationship>) -> Vec<String> {
    extract_children(rels)
        .iter()
        .map(|child| child.to_string())
        .collect()
}

fn get_roles(rels: &Vec<EntityRelationship>) -> Vec<Option<String>> {
    let mut roles: Vec<Option<String>> = rels
        .iter()
        .map(|rel| rel.role.to_optional_string())
        .collect();
    roles.sort();
    roles.dedup();
    roles
}

#[test]
fn write_single_relationship() {
    let temp_path = NamedTempFile::new().unwrap().into_temp_path();
    let path_in: PathBuf = temp_path.as_os_str().into();
    let db = open_database(path_in.clone()).unwrap();
    let rel = EntityRelationship {
        parent: "testparent".into(),
        child: "testchild".into(),
        role: Some("testrole".to_string()).into(),
    };
    db.write_relationships(vec![rel.clone()]).unwrap();
    let rel_out = db
        .get_relationships(RelationshipSearchParams::empty())
        .unwrap();
    assert!(rel_out.len() == 1);
    assert!(rel == rel_out[0]);
    temp_path.close().unwrap();
}

#[test]
fn write_many_relationships() {
    let (temp_path, db, rels) = create_example();

    let rels_out = db
        .get_relationships(RelationshipSearchParams::empty())
        .unwrap();
    assert!(rels.len() == rels_out.len());
    for rel in rels.iter() {
        assert!(rels_out.contains(rel));
    }
    temp_path.close().unwrap();
}

fn create_example() -> (tempfile::TempPath, TestDatabase, Vec<EntityRelationship>) {
    let temp_path = NamedTempFile::new().unwrap().into_temp_path();
    let path_in: PathBuf = temp_path.as_os_str().into();
    let db = open_database(path_in.clone()).unwrap();

    let parents = vec!["testparent1".to_string(), "testparent2".to_string()];
    let children = vec!["testchild1".to_string(), "testchild2".to_string()];
    let roles = vec![Some("testrole".to_string()), None];
    let mut rels: Vec<EntityRelationship> = Vec::new();
    for parent in parents.iter() {
        for child in children.iter() {
            for role in roles.iter() {
                rels.push(EntityRelationship {
                    parent: parent.clone().into(),
                    child: child.clone().into(),
                    role: role.clone().into(),
                });
            }
        }
    }

    db.write_relationships(rels.clone()).unwrap();
    (temp_path, db, rels)
}

fn check_output(
    rels: &Vec<EntityRelationship>,
    parents: &Vec<String>,
    children: &Vec<String>,
    roles: &Vec<Option<String>>,
) {
    let parents_out = get_parents(rels);
    assert!(parents.len() == parents_out.len());
    for parent in parents.iter() {
        assert!(parents_out.contains(parent));
    }

    let children_out = get_children(rels);
    assert!(children.len() == children_out.len());
    for child in children.iter() {
        assert!(children_out.contains(child));
    }

    let roles_out = get_roles(rels);
    assert!(roles.len() == roles_out.len());
    for role in roles.iter() {
        assert!(roles_out.contains(role));
    }
}

#[test]
fn writing_several_roles_to_same_relationship() {
    let temp_path = NamedTempFile::new().unwrap().into_temp_path();
    let path_in: PathBuf = temp_path.as_os_str().into();
    let db = open_database(path_in.clone()).unwrap();

    let parent = "testparent".to_string();
    let child = "testchild".to_string();
    let roles = vec!["testrole1".to_string(), "testrole2".to_string()];
    let mut rels: Vec<EntityRelationship> = Vec::new();
    for role in roles.iter() {
        rels.push(EntityRelationship {
            parent: parent.clone().into(),
            child: child.clone().into(),
            role: Some(role.clone()).into(),
        });
    }

    db.write_relationships(rels.clone()).unwrap();

    let rels_out = db
        .get_relationships(RelationshipSearchParams::empty())
        .unwrap();
    assert!(rels.len() == rels_out.len());
    for rel in rels.iter() {
        assert!(rels_out.contains(rel));
    }
    temp_path.close().unwrap();
}

#[test]
fn get_all_relationships() {
    let (temp_path, db, rels) = create_example();

    let rels_out = db
        .get_relationships(RelationshipSearchParams::empty())
        .unwrap();
    check_output(
        &rels_out,
        &get_parents(&rels),
        &get_children(&rels),
        &get_roles(&rels),
    );

    temp_path.close().unwrap();
}

#[test]
fn get_relationships_with_parent_filter() {
    let (temp_path, db, rels) = create_example();

    let all_parents = get_parents(&rels);
    let all_children = get_children(&rels);
    let all_roles = get_roles(&rels);

    let no_rel = db
        .get_relationships(RelationshipSearchParams::new(
            Some(SqlSearchText::partial("fununu")),
            None,
        ))
        .unwrap();
    check_output(&no_rel, &vec![], &vec![], &vec![]);

    let parent1 = db
        .get_relationships(RelationshipSearchParams::new(
            Some(SqlSearchText::partial("rent1")),
            None,
        ))
        .unwrap();
    check_output(
        &parent1,
        &vec!["testparent1".to_string()],
        &all_children,
        &all_roles,
    );

    let parent1 = db
        .get_relationships(RelationshipSearchParams::new(
            Some(SqlSearchText::partial("rent")),
            None,
        ))
        .unwrap();
    check_output(&parent1, &all_parents, &all_children, &all_roles);

    let parent1 = db
        .get_relationships(RelationshipSearchParams::new(
            Some(SqlSearchText::partial("testparent1")),
            None,
        ))
        .unwrap();
    check_output(
        &parent1,
        &vec!["testparent1".to_string()],
        &all_children,
        &all_roles,
    );

    temp_path.close().unwrap();
}

#[test]
fn get_relationships_with_exact_parent_filter() {
    let (temp_path, db, rels) = create_example();

    let no_rel = db
        .get_relationships(RelationshipSearchParams::new(
            Some(SqlSearchText::exact("fununu")),
            None,
        ))
        .unwrap();
    check_output(&no_rel, &vec![], &vec![], &vec![]);

    let parent1 = db
        .get_relationships(RelationshipSearchParams::new(
            Some(SqlSearchText::exact("rent")),
            None,
        ))
        .unwrap();
    check_output(&parent1, &vec![], &vec![], &vec![]);

    let parent1 = db
        .get_relationships(RelationshipSearchParams::new(
            Some(SqlSearchText::exact("testparent1")),
            None,
        ))
        .unwrap();
    check_output(
        &parent1,
        &vec!["testparent1".to_string()],
        &get_children(&rels),
        &get_roles(&rels),
    );

    temp_path.close().unwrap();
}

#[test]
fn get_relationships_with_child_filter() {
    let (temp_path, db, rels) = create_example();

    let all_parents = get_parents(&rels);
    let all_children = get_children(&rels);
    let all_roles = get_roles(&rels);

    let no_rel = db
        .get_relationships(RelationshipSearchParams::new(
            None,
            Some(SqlSearchText::partial("fununu")),
        ))
        .unwrap();
    check_output(&no_rel, &vec![], &vec![], &vec![]);

    let child1 = db
        .get_relationships(RelationshipSearchParams::new(
            None,
            Some(SqlSearchText::partial("ild1")),
        ))
        .unwrap();
    check_output(
        &child1,
        &all_parents,
        &vec!["testchild1".to_string()],
        &all_roles,
    );

    let child1 = db
        .get_relationships(RelationshipSearchParams::new(
            None,
            Some(SqlSearchText::partial("ild")),
        ))
        .unwrap();
    check_output(&child1, &all_parents, &all_children, &all_roles);

    let child1 = db
        .get_relationships(RelationshipSearchParams::new(
            None,
            Some(SqlSearchText::partial("testchild1")),
        ))
        .unwrap();
    check_output(
        &child1,
        &all_parents,
        &vec!["testchild1".to_string()],
        &all_roles,
    );

    temp_path.close().unwrap();
}

#[test]
fn get_relationships_with_exact_child_filter() {
    let (temp_path, db, rels) = create_example();

    let no_rel = db
        .get_relationships(RelationshipSearchParams::new(
            None,
            Some(SqlSearchText::exact("fununu")),
        ))
        .unwrap();
    check_output(&no_rel, &vec![], &vec![], &vec![]);

    let child1 = db
        .get_relationships(RelationshipSearchParams::new(
            None,
            Some(SqlSearchText::exact("ild")),
        ))
        .unwrap();
    check_output(&child1, &vec![], &vec![], &vec![]);

    let child1 = db
        .get_relationships(RelationshipSearchParams::new(
            None,
            Some(SqlSearchText::exact("testchild1")),
        ))
        .unwrap();
    check_output(
        &child1,
        &get_parents(&rels),
        &vec!["testchild1".to_string()],
        &get_roles(&rels),
    );

    temp_path.close().unwrap();
}

#[test]
fn get_relationships_with_parent_and_child_filter() {
    let (temp_path, db, rels) = create_example();

    let all_parents = get_parents(&rels);
    let all_children = get_children(&rels);
    let all_roles = get_roles(&rels);

    let no_rel = db
        .get_relationships(RelationshipSearchParams::new(
            Some(SqlSearchText::partial("fununu")),
            Some(SqlSearchText::partial("ild")),
        ))
        .unwrap();
    check_output(&no_rel, &vec![], &vec![], &vec![]);

    let no_rel = db
        .get_relationships(RelationshipSearchParams::new(
            Some(SqlSearchText::partial("rent")),
            Some(SqlSearchText::partial("fununu")),
        ))
        .unwrap();
    check_output(&no_rel, &vec![], &vec![], &vec![]);

    let parent1_child1 = db
        .get_relationships(RelationshipSearchParams::new(
            Some(SqlSearchText::partial("rent1")),
            Some(SqlSearchText::partial("ild1")),
        ))
        .unwrap();
    check_output(
        &parent1_child1,
        &vec!["testparent1".to_string()],
        &vec!["testchild1".to_string()],
        &all_roles,
    );

    let parent1_child1 = db
        .get_relationships(RelationshipSearchParams::new(
            Some(SqlSearchText::partial("rent")),
            Some(SqlSearchText::partial("ild")),
        ))
        .unwrap();
    check_output(&parent1_child1, &all_parents, &all_children, &all_roles);

    let parent1_child1 = db
        .get_relationships(RelationshipSearchParams::new(
            Some(SqlSearchText::partial("testparent1")),
            Some(SqlSearchText::partial("testchild1")),
        ))
        .unwrap();
    check_output(
        &parent1_child1,
        &vec!["testparent1".to_string()],
        &vec!["testchild1".to_string()],
        &all_roles,
    );

    temp_path.close().unwrap();
}
