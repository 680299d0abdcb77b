use diesel::deserialize::QueryableByName;
use diesel::query_builder::{BoxedSqlQuery, SqlQuery};
use diesel::row::NamedRow;
use diesel::sql_types::{BigInt, Integer, Nullable, Text};
use diesel::sqlite::Sqlite;
use diesel::{Connection, RunQueryDsl, SqliteConnection};
use lorecore::errors::LoreCoreError;
use lorecore::extractions::extract_labels;
use lorecore::sql::lore_database::{Command, LoreDatabase, WriteBatch};
use lorecore::sql::schema::schema;
use lorecore::sql::search_params::{EntityColumnSearchParams, SqlSearchText};
use lorecore::sql::statement::{SqlValue, Statement};
use lorecore::sql::types::entity::SqlEntityColumn;
use lorecore::types::{Description, Descriptor, EntityColumn, Label};
use std::path::PathBuf;
use tempfile::NamedTempFile;

fn connect(db: &LoreDatabase) -> Result<SqliteConnection, LoreCoreError> {
    SqliteConnection::establish(&db.path_as_string())
        .map_err(|error| db.connection_error(&error.to_string()))
}

fn execute(connection: &mut SqliteConnection, statement: &Statement) -> Result<usize, String> {
    bound(statement)
        .execute(connection)
        .map_err(|error| error.to_string())
}

fn bound(statement: &Statement) -> BoxedSqlQuery<'static, Sqlite, SqlQuery> {
    let mut query = diesel::sql_query(statement.sql.clone()).into_boxed::<Sqlite>();
    for bind in statement.binds.iter() {
        query = match bind {
            SqlValue::Text(text) => query.bind::<Text, _>(text.clone()),
            SqlValue::OptionalText(text) => query.bind::<Nullable<Text>, _>(text.clone()),
            SqlValue::Integer(number) => query.bind::<Integer, _>(*number),
            SqlValue::OptionalInteger(number) => query.bind::<Nullable<Integer>, _>(*number),
            SqlValue::BigInt(number) => query.bind::<BigInt, _>(*number),
        };
    }
    query
}

fn run(connection: &mut SqliteConnection, command: Command) -> Result<(), LoreCoreError> {
    let answer = execute(connection, &command.statement);
    command.conclude(&answer)
}

fn run_batch(connection: &mut SqliteConnection, mut batch: WriteBatch) -> Result<(), LoreCoreError> {
    loop {
        let answer = match batch.pending() {
            Some(command) => execute(connection, &command.statement),
            None => break,
        };
        batch.record(&answer);
    }
    batch.outcome()
}

struct TestDatabase {
    db: LoreDatabase,
}

fn open_database(path: PathBuf) -> Result<TestDatabase, LoreCoreError> {
    let db = LoreDatabase::at(path.to_str(), &path.to_string_lossy())?;
    let mut connection = connect(&db)?;
    for statement in schema() {
        execute(&mut connection, &statement).map_err(|error| db.migration_error(&error))?;
    }
    Ok(TestDatabase { db })
}

struct EntityRow(SqlEntityColumn);

impl QueryableByName<Sqlite> for EntityRow {
    fn build<'a>(row: &impl NamedRow<'a, Sqlite>) -> diesel::deserialize::Result<Self> {
        Ok(EntityRow(SqlEntityColumn {
            label: NamedRow::get::<Text, String>(row, "label")?,
            descriptor: NamedRow::get::<Text, String>(row, "descriptor")?,
            description: NamedRow::get::<Nullable<Text>, Option<String>>(row, "description")?,
        }))
    }
}

impl TestDatabase {
    fn write_entity_columns(&self, cols: Vec<EntityColumn>) -> Result<(), LoreCoreError> {
        let mut connection = connect(&self.db)?;
        run_batch(&mut connection, self.db.write_entity_columns(cols))
    }

    fn relabel_entity(&self, old_label: &Label, new_label: &Label) -> Result<(), LoreCoreError> {
        let mut connection = connect(&self.db)?;
        run(&mut connection, self.db.relabel_entity(old_label, new_label))
    }

    fn delete_entity(&self, label: Label) -> Result<(), LoreCoreError> {
        let mut connection = connect(&self.db)?;
        run(&mut connection, self.db.delete_entity(label))
    }

    fn change_entity_descriptor(
        &self,
        key: (&Label, Descriptor),
        new_descriptor: &Descriptor,
    ) -> Result<(), LoreCoreError> {
        let mut connection = connect(&self.db)?;
        run(
            &mut connection,
            self.db.change_entity_descriptor(key, new_descriptor),
        )
    }

    fn delete_entity_column(&self, key: (Label, Descriptor)) -> Result<(), LoreCoreError> {
        let mut connection = connect(&self.db)?;
        run(&mut connection, self.db.delete_entity_column(key))
    }

    fn change_entity_description(
        &self,
        key: (&Label, &Descriptor),
        new_description: &Description,
    ) -> Result<(), LoreCoreError> {
        let mut connection = connect(&self.db)?;
        run(
            &mut connection,
            self.db.change_entity_description(key, new_description),
        )
    }

    fn read_entity_columns(
        &self,
        search_params: EntityColumnSearchParams,
    ) -> Result<Vec<EntityColumn>, LoreCoreError> {
        let mut connection = connect(&self.db)?;
        let query = self.db.read_entity_columns(search_params);
        let answer = bound(&query.statement)
            .load::<EntityRow>(&mut connection)
            .map(|rows| rows.into_iter().map(|row| row.0).collect())
            .map_err(|error| error.to_string());
        query.conclude(answer)
    }

    fn get_all_entity_columns(&self) -> Result<Vec<EntityColumn>, LoreCoreError> {
        self.read_entity_columns(EntityColumnSearchParams::empty())
    }

    fn get_entity_labels(&self, filter: Option<&String>) -> Result<Vec<String>, LoreCoreError> {
        let label = filter.map(|text| SqlSearchText::partial(text));
        let cols = self.read_entity_columns(EntityColumnSearchParams::new(label, None))?;
        Ok(extract_labels(&cols)
            .iter()
            .map(|label| label.to_string())
            .collect())
    }
}

#[test]
fn entity_writing_single_entity_column() {
    let temp_path = NamedTempFile::new().unwrap().into_temp_path();
    let path_in: PathBuf = temp_path.as_os_str().into();
    let db = open_database(path_in.clone()).unwrap();
    let entity = EntityColumn {
        label: "testlabel".into(),
        descriptor: "testdescriptor".into(),
        description: Some("testdescription".to_string()).into(),
    };
    db.write_entity_columns(vec![entity.clone()]).unwrap();
    let entity_out = db
        .read_entity_columns(EntityColumnSearchParams::empty())
        .unwrap();
    assert_eq!(entity_out.len(), 1);
    assert_eq!(entity, entity_out[0]);
    temp_path.close().unwrap();
}

#[test]
fn entity_write_many_entity_columns() {
    let temp_path = NamedTempFile::new().unwrap().into_temp_path();
    let path_in: PathBuf = temp_path.as_os_str().into();
    let db = open_database(path_in.clone()).unwrap();

    let labels = vec!["testlabel1".to_string(), "testlabel2".to_string()];
    let descriptors = vec!["testdescriptor1".to_string(), "testdescriptor2".to_string()];
    let mut entities: Vec<EntityColumn> = Vec::new();
    for label in labels.iter() {
        for descriptor in descriptors.iter() {
            entities.push(EntityColumn {
                label: label.clone().into(),
                descriptor: descriptor.clone().into(),
                description: Some(label.clone() + descriptor).into(),
            });
        }
    }

    db.write_entity_columns(entities.clone()).unwrap();

    let entities_out = db
        .read_entity_columns(EntityColumnSearchParams::empty())
        .unwrap();
    assert_eq!(entities.len(), entities_out.len());
    for entity in entities.iter() {
        assert!(entities_out.contains(entity));
    }
    temp_path.close().unwrap();
}

#[test]
fn entity_write_entity_with_empty_description() {
    let temp_path = NamedTempFile::new().unwrap().into_temp_path();
    let path_in: PathBuf = temp_path.as_os_str().into();
    let db = open_database(path_in.clone()).unwrap();
    let entity = EntityColumn {
        label: "testlabel".into(),
        descriptor: "testdescriptor".into(),
        description: Description::none(),
    };
    db.write_entity_columns(vec![entity.clone()]).unwrap();
    let entity_out = db
        .read_entity_columns(EntityColumnSearchParams::empty())
        .unwrap();
    assert_eq!(entity_out.len(), 1);
    assert_eq!(entity, entity_out[0]);
    temp_path.close().unwrap();
}

fn create_example() -> (tempfile::TempPath, TestDatabase, Vec<EntityColumn>) {
    let temp_path = NamedTempFile::new().unwrap().into_temp_path();
    let path_in: PathBuf = temp_path.as_os_str().into();
    let db = open_database(path_in.clone()).unwrap();

    let labels = vec!["testlabel1".to_string(), "testlabel2and_stuff".to_string()];
    let descriptors = vec![
        "testdescriptor1".to_string(),
        "testdescriptor2and_stuff".to_string(),
    ];
    let mut entities: Vec<EntityColumn> = Vec::new();
    for label in labels.iter() {
        for descriptor in descriptors.iter() {
            entities.push(EntityColumn {
                label: label.clone().into(),
                descriptor: descriptor.clone().into(),
                description: Some(label.clone() + descriptor).into(),
            });
        }
    }
    entities.sort();

    db.write_entity_columns(entities.clone()).unwrap();
    (temp_path, db, entities)
}

#[test]
fn get_all_entities_without_filter_returns_all() {
    let (temp_path, db, entities) = create_example();

    let out = db
        .read_entity_columns(EntityColumnSearchParams::empty())
        .unwrap();
    assert_eq!(out, entities);

    temp_path.close().unwrap();
}

#[test]
fn get_entities_with_label_filter_fununu_returns_none() {
    let (temp_path, db, _) = create_example();

    let out = db
        .read_entity_columns(EntityColumnSearchParams::new(
            Some(SqlSearchText::partial("fununu")),
            None,
        ))
        .unwrap();
    assert!(out.is_empty());

    temp_path.close().unwrap();
}

#[test]
fn get_entities_with_label_filter_bel1_returns_some() {
    let (temp_path, db, entities) = create_example();
    let expected: Vec<_> = entities
        .iter()
        .filter(|e| e.label == "testlabel1".into())
        .cloned()
        .collect();

    let out = db
        .read_entity_columns(EntityColumnSearchParams::new(
            Some(SqlSearchText::partial("bel1")),
            None,
        ))
        .unwrap();
    assert_eq!(out, expected);

    temp_path.close().unwrap();
}

#[test]
fn get_entities_with_label_filter_testlabel1_returns_some() {
    let (temp_path, db, entities) = create_example();
    let expected: Vec<_> = entities
        .iter()
        .filter(|e| e.label == "testlabel1".into())
        .cloned()
        .collect();

    let out = db
        .read_entity_columns(EntityColumnSearchParams::new(
            Some(SqlSearchText::partial("testlabel1")),
            None,
        ))
        .unwrap();
    assert_eq!(out, expected);

    temp_path.close().unwrap();
}

#[test]
fn get_entities_with_label_filter_bel_returns_all() {
    let (temp_path, db, entities) = create_example();

    let out = db
        .read_entity_columns(EntityColumnSearchParams::new(
            Some(SqlSearchText::partial("bel")),
            None,
        ))
        .unwrap();
    assert_eq!(out, entities);

    temp_path.close().unwrap();
}

#[test]
fn get_entities_with_exact_label_filter_fununu_returns_none() {
    let (temp_path, db, _) = create_example();

    let out = db
        .read_entity_columns(EntityColumnSearchParams::new(
            Some(SqlSearchText::exact("fununu")),
            None,
        ))
        .unwrap();
    assert!(out.is_empty());

    temp_path.close().unwrap();
}

#[test]
fn get_entities_with_exact_label_filter_bel1_returns_none() {
    let (temp_path, db, _) = create_example();

    let out = db
        .read_entity_columns(EntityColumnSearchParams::new(
            Some(SqlSearchText::exact("bel")),
            None,
        ))
        .unwrap();
    assert!(out.is_empty());

    temp_path.close().unwrap();
}

#[test]
fn get_entities_with_exact_label_filter_testlabel1_returns_some() {
    let (temp_path, db, entities) = create_example();
    let expected: Vec<_> = entities
        .iter()
        .filter(|e| e.label == "testlabel1".into())
        .cloned()
        .collect();

    let out = db
        .read_entity_columns(EntityColumnSearchParams::new(
            Some(SqlSearchText::exact("testlabel1")),
            None,
        ))
        .unwrap();
    assert_eq!(out, expected);

    temp_path.close().unwrap();
}

#[test]
fn get_entities_with_descriptor_filter_fununu_returns_none() {
    let (temp_path, db, _) = create_example();

    let out = db
        .read_entity_columns(EntityColumnSearchParams::new(
            None,
            Some(SqlSearchText::partial("fununu")),
        ))
        .unwrap();
    assert!(out.is_empty());

    temp_path.close().unwrap();
}

#[test]
fn get_entities_with_descriptor_filter_riptor1_returns_some() {
    let (temp_path, db, entities) = create_example();
    let expected: Vec<_> = entities
        .iter()
        .filter(|e| e.descriptor == "testdescriptor1".into())
        .cloned()
        .collect();

    let out = db
        .read_entity_columns(EntityColumnSearchParams::new(
            None,
            Some(SqlSearchText::partial("riptor1")),
        ))
        .unwrap();
    assert_eq!(out, expected);

    temp_path.close().unwrap();
}

#[test]
fn get_entities_with_descriptor_filter_testdescriptor1_returns_some() {
    let (temp_path, db, entities) = create_example();
    let expected: Vec<_> = entities
        .iter()
        .filter(|e| e.descriptor == "testdescriptor1".into())
        .cloned()
        .collect();

    let out = db
        .read_entity_columns(EntityColumnSearchParams::new(
            None,
            Some(SqlSearchText::partial("testdescriptor1")),
        ))
        .unwrap();
    assert_eq!(out, expected);

    temp_path.close().unwrap();
}

#[test]
fn get_entities_with_descriptor_filter_riptor_returns_all() {
    let (temp_path, db, entities) = create_example();

    let all_descriptors_out = db
        .read_entity_columns(EntityColumnSearchParams::new(
            None,
            Some(SqlSearchText::partial("riptor")),
        ))
        .unwrap();
    assert_eq!(all_descriptors_out, entities);

    temp_path.close().unwrap();
}

#[test]
fn get_entities_with_exact_descriptor_filter_fununu_returns_none() {
    let (temp_path, db, _) = create_example();

    let out = db
        .read_entity_columns(EntityColumnSearchParams::new(
            None,
            Some(SqlSearchText::exact("fununu")),
        ))
        .unwrap();
    assert!(out.is_empty());

    temp_path.close().unwrap();
}

#[test]
fn get_entities_with_exact_descriptor_filter_riptor_returns_none() {
    let (temp_path, db, _) = create_example();

    let out = db
        .read_entity_columns(EntityColumnSearchParams::new(
            None,
            Some(SqlSearchText::exact("riptor")),
        ))
        .unwrap();
    assert!(out.is_empty());

    temp_path.close().unwrap();
}

#[test]
fn get_entities_with_exact_descriptor_filter_testdescriptor1_returns_some() {
    let (temp_path, db, entities) = create_example();
    let expected: Vec<_> = entities
        .iter()
        .filter(|e| e.descriptor == "testdescriptor1".into())
        .cloned()
        .collect();

    let out = db
        .read_entity_columns(EntityColumnSearchParams::new(
            None,
            Some(SqlSearchText::exact("testdescriptor1")),
        ))
        .unwrap();
    assert_eq!(out, expected);

    temp_path.close().unwrap();
}

#[test]
fn get_entities_with_label_filter_bel_and_descriptor_filter_fununu_returns_none() {
    let (temp_path, db, _) = create_example();

    let out = db
        .read_entity_columns(EntityColumnSearchParams::new(
            Some(SqlSearchText::partial("bel")),
            Some(SqlSearchText::partial("fununu")),
        ))
        .unwrap();
    assert!(out.is_empty());

    temp_path.close().unwrap();
}

#[test]
fn get_entities_with_label_filter_fununu_and_descriptor_filter_riptor_returns_none() {
    let (temp_path, db, _) = create_example();

    let out = db
        .read_entity_columns(EntityColumnSearchParams::new(
            Some(SqlSearchText::partial("fununu")),
            Some(SqlSearchText::partial("riptor")),
        ))
        .unwrap();
    assert!(out.is_empty());

    temp_path.close().unwrap();
}

#[test]
fn get_entities_with_label_filter_bel1_and_descriptor_filter_riptor1_returns_some() {
    let (temp_path, db, entities) = create_example();
    let expected: Vec<_> = entities
        .iter()
        .filter(|e| {
            e.label == "testlabel1".into() && e.descriptor == "testdescriptor1".into()
        })
        .cloned()
        .collect();

    let out = db
        .read_entity_columns(EntityColumnSearchParams::new(
            Some(SqlSearchText::partial("bel1")),
            Some(SqlSearchText::partial("riptor1")),
        ))
        .unwrap();
    assert_eq!(out, expected);

    temp_path.close().unwrap();
}

#[test]
fn get_entities_with_exact_label_filter_testlabel1_and_exact_descriptor_filter_testdescriptor1_returns_some(
) {
    let (temp_path, db, entities) = create_example();
    let expected: Vec<_> = entities
        .iter()
        .filter(|e| {
            e.label == "testlabel1".into() && e.descriptor == "testdescriptor1".into()
        })
        .cloned()
        .collect();

    let out = db
        .read_entity_columns(EntityColumnSearchParams::new(
            Some(SqlSearchText::exact("testlabel1")),
            Some(SqlSearchText::exact("testdescriptor1")),
        ))
        .unwrap();
    assert_eq!(out, expected);

    temp_path.close().unwrap();
}

#[test]
fn get_entities_with_exact_label_filter_testlabel1_and_descriptor_filter_riptor_returns_some() {
    let (temp_path, db, entities) = create_example();
    let expected: Vec<_> = entities
        .iter()
        .filter(|e| e.label == "testlabel1".into())
        .cloned()
        .collect();

    let out = db
        .read_entity_columns(EntityColumnSearchParams::new(
            Some(SqlSearchText::exact("testlabel1")),
            Some(SqlSearchText::partial("riptor")),
        ))
        .unwrap();
    assert_eq!(out, expected);

    temp_path.close().unwrap();
}

#[test]
fn get_entities_with_label_filter_bel_and_exact_descriptor_filter_testdescriptor1_returns_some() {
    let (temp_path, db, entities) = create_example();
    let expected: Vec<_> = entities
        .iter()
        .filter(|e| e.descriptor == "testdescriptor1".into())
        .cloned()
        .collect();

    let out = db
        .read_entity_columns(EntityColumnSearchParams::new(
            Some(SqlSearchText::partial("bel")),
            Some(SqlSearchText::exact("testdescriptor1")),
        ))
        .unwrap();
    assert_eq!(out, expected);

    temp_path.close().unwrap();
}

#[test]
fn test_write_read_after_db_deletion() {
    let (temp_path, db, _) = create_example();
    temp_path.close().unwrap();

    let write_result = db.write_entity_columns(vec![EntityColumn {
        label: "testlabel".into(),
        descriptor: "testdescriptor".into(),
        description: Some("testdescription".to_string()).into(),
    }]);
    assert!(
        write_result.is_err(),
        "Expected an error when writing to a deleted database"
    );

    let read_result = db.read_entity_columns(EntityColumnSearchParams::new(None, None));
    assert!(
        read_result.is_err(),
        "Expected an error when reading from a deleted database"
    );
}

#[test]
fn test_relabel_entity() {
    let (temp_path, db, entities) = create_example();
    let old_entity = entities[0].clone();
    let new_label: Label = "New_Label".into();

    // Relabel the entity
    db.relabel_entity(&old_entity.label, &new_label).unwrap();

    // Read the entity back from the database
    let updated_entity = db
        .read_entity_columns(EntityColumnSearchParams::new(
            Some(SqlSearchText::exact(new_label.to_str())),
            None,
        ))
        .unwrap();

    // Check that the entity was updated correctly
    assert!(!updated_entity.is_empty());
    assert_eq!(updated_entity[0].label, new_label);
    assert_eq!(updated_entity[0].descriptor, old_entity.descriptor);
    assert_eq!(updated_entity[0].description, old_entity.description);

    temp_path.close().unwrap();
}

#[test]
fn test_delete_entity() {
    let (temp_path, db, entities) = create_example();
    let entity = entities[0].clone();

    // Verify the entity exists
    let entity_out = db
        .read_entity_columns(EntityColumnSearchParams::new(
            Some(SqlSearchText::exact(entity.label.to_str())),
            None,
        ))
        .unwrap();
    assert!(!entity_out.is_empty());
    assert_eq!(entity, entity_out[0]);

    // Delete the entity
    db.delete_entity(entity.label.clone()).unwrap();

    // Verify the entity no longer exists
    let entity_out = db
        .read_entity_columns(EntityColumnSearchParams::new(
            Some(SqlSearchText::exact(entity.label.to_str())),
            None,
        ))
        .unwrap();
    assert_eq!(entity_out.len(), 0);

    temp_path.close().unwrap();
}

#[test]
fn test_change_entity_descriptor() {
    let (temp_path, db, entities) = create_example();
    let old_entity = entities[0].clone();
    let new_descriptor: Descriptor = "New_Descriptor".into();

    // Change the entity's descriptor
    db.change_entity_descriptor((&old_entity.label, old_entity.descriptor), &new_descriptor)
        .unwrap();

    // Read the entity back from the database
    let updated_entity = db
        .read_entity_columns(EntityColumnSearchParams::new(
            Some(SqlSearchText::exact(old_entity.label.to_str())),
            None,
        ))
        .unwrap();

    // Check that the entity was updated correctly
    assert!(!updated_entity.is_empty());
    assert_eq!(updated_entity[0].label, old_entity.label);
    assert_eq!(updated_entity[0].descriptor, new_descriptor);
    assert_eq!(updated_entity[0].description, old_entity.description);

    temp_path.close().unwrap();
}

#[test]
fn test_delete_entity_column() {
    let (temp_path, db, entities) = create_example();
    let entity = entities[0].clone();

    // Verify the entity exists
    let entity_out = db
        .read_entity_columns(EntityColumnSearchParams::new(
            Some(SqlSearchText::exact(entity.label.to_str())),
            None,
        ))
        .unwrap();
    assert!(!entity_out.is_empty());
    assert_eq!(entity, entity_out[0]);

    // Delete the entity column
    db.delete_entity_column((entity.label.clone(), entity.descriptor.clone()))
        .unwrap();

    // Verify the entity column no longer exists
    let entity_out = db
        .read_entity_columns(EntityColumnSearchParams::new(
            Some(SqlSearchText::exact(entity.label.to_str())),
            Some(SqlSearchText::exact(entity.descriptor.to_str())),
        ))
        .unwrap();
    assert!(entity_out.is_empty());

    temp_path.close().unwrap();
}

#[test]
fn test_change_entity_description() {
    let (temp_path, db, entities) = create_example();
    let old_entity = entities[0].clone();
    let new_description: Description = Some("New_Description".to_string()).into();

    // Change the entity's description
    db.change_entity_description(
        (&old_entity.label, &old_entity.descriptor),
        &new_description.clone(),
    )
    .unwrap();

    // Read the entity back from the database
    let updated_entity = db
        .read_entity_columns(EntityColumnSearchParams::new(
            Some(SqlSearchText::exact(old_entity.label.to_str())),
            None,
        ))
        .unwrap();

    // Check that the entity was updated correctly
    assert!(!updated_entity.is_empty());
    assert_eq!(updated_entity[0].label, old_entity.label);
    assert_eq!(updated_entity[0].descriptor, old_entity.descriptor);
    assert_eq!(updated_entity[0].description, new_description);

    temp_path.close().unwrap();
}

#[test]
fn test_change_entity_description_to_none() {
    let (temp_path, db, entities) = create_example();
    let old_entity = entities[0].clone();
    let new_description = Description::none();

    // Change the entity's description
    db.change_entity_description(
        (&old_entity.label, &old_entity.descriptor),
        &new_description.clone(),
    )
    .unwrap();

    // Read the entity back from the database
    let updated_entity = db
        .read_entity_columns(EntityColumnSearchParams::new(
            Some(SqlSearchText::exact(old_entity.label.to_str())),
            None,
        ))
        .unwrap();

    // Check that the entity was updated correctly
    assert!(!updated_entity.is_empty());
    assert_eq!(updated_entity[0].label, old_entity.label);
    assert_eq!(updated_entity[0].descriptor, old_entity.descriptor);
    assert_eq!(updated_entity[0].description, new_description);

    temp_path.close().unwrap();
}

#[test]
fn entitiy_writing_single_entity_column() {
    let temp_path = NamedTempFile::new().unwrap().into_temp_path();
    let path_in: PathBuf = temp_path.as_os_str().into();
    let db = open_database(path_in.clone()).unwrap();
    let entity = EntityColumn {
        label: "testlabel".into(),
        descriptor: "testdescriptor".into(),
        description: Some("testdescription".to_string()).into(),
    };
    db.write_entity_columns(vec![entity.clone()]).unwrap();
    let entity_out = db.get_all_entity_columns().unwrap();
    assert!(entity_out.len() == 1);
    assert!(entity == entity_out[0]);
    temp_path.close().unwrap();
}

#[test]
fn entitiy_write_many_entity_columns() {
    let temp_path = NamedTempFile::new().unwrap().into_temp_path();
    let path_in: PathBuf = temp_path.as_os_str().into();
    let db = open_database(path_in.clone()).unwrap();

    let labels = vec!["testlabel1".to_string(), "testlabel2".to_string()];
    let descriptors = vec!["testdescriptor1".to_string(), "testdescriptor2".to_string()];
    let mut entities: Vec<EntityColumn> = Vec::new();
    for label in labels.iter() {
        for descriptor in descriptors.iter() {
            entities.push(EntityColumn {
                label: label.clone().into(),
                descriptor: descriptor.clone().into(),
                description: Some(label.clone() + descriptor).into(),
            });
        }
    }

    db.write_entity_columns(entities.clone()).unwrap();

    let entities_out = db.get_all_entity_columns().unwrap();
    assert!(entities.len() == entities_out.len());
    for entity in entities.iter() {
        assert!(entities_out.contains(entity));
    }
    temp_path.close().unwrap();
}

#[test]
fn entitiy_write_entity_with_empty_description() {
    let temp_path = NamedTempFile::new().unwrap().into_temp_path();
    let path_in: PathBuf = temp_path.as_os_str().into();
    let db = open_database(path_in.clone()).unwrap();
    let entity = EntityColumn {
        label: "testlabel".into(),
        descriptor: "testdescriptor".into(),
        description: Description::none(),
    };
    db.write_entity_columns(vec![entity.clone()]).unwrap();
    let entity_out = db.get_all_entity_columns().unwrap();
    assert!(entity_out.len() == 1);
    assert!(entity == entity_out[0]);
    temp_path.close().unwrap();
}

#[test]
fn get_all_labels() {
    let temp_path = NamedTempFile::new().unwrap().into_temp_path();
    let path_in: PathBuf = temp_path.as_os_str().into();
    let db = open_database(path_in.clone()).unwrap();

    let labels = vec!["testlabel1".to_string(), "testlabel2".to_string()];
    let descriptors = vec!["testdescriptor1".to_string(), "testdescriptor2".to_string()];
    let mut entities: Vec<EntityColumn> = Vec::new();
    for label in labels.iter() {
        for descriptor in descriptors.iter() {
            entities.push(EntityColumn {
                label: label.clone().into(),
                descriptor: descriptor.clone().into(),
                description: Some(label.clone() + descriptor).into(),
            });
        }
    }

    db.write_entity_columns(entities.clone()).unwrap();

    let labels_out = db.get_entity_labels(None).unwrap();
    assert!(labels.len() == labels_out.len());
    for label in labels.iter() {
        assert!(labels_out.contains(label));
    }
    temp_path.close().unwrap();
}

#[test]
fn get_labels_with_filter() {
    let temp_path = NamedTempFile::new().unwrap().into_temp_path();
    let path_in: PathBuf = temp_path.as_os_str().into();
    let db = open_database(path_in.clone()).unwrap();

    let labels = vec!["testlabel1".to_string(), "testlabel2".to_string()];
    let descriptors = vec!["testdescriptor1".to_string(), "testdescriptor2".to_string()];
    let mut entities: Vec<EntityColumn> = Vec::new();
    for label in labels.iter() {
        for descriptor in descriptors.iter() {
            entities.push(EntityColumn {
                label: label.clone().into(),
                descriptor: descriptor.clone().into(),
                description: Some(label.clone() + descriptor).into(),
            });
        }
    }

    db.write_entity_columns(entities.clone()).unwrap();

    let no_result = db.get_entity_labels(Some(&"fununu".to_string())).unwrap();
    assert!(no_result.len() == 0);

    let label1s_out = db.get_entity_labels(Some(&"bel1".to_string())).unwrap();
    assert!(label1s_out.len() == 1);
    assert!(label1s_out[0] == "testlabel1");

    let label2s_out = db.get_entity_labels(Some(&"bel2".to_string())).unwrap();
    assert!(label2s_out.len() == 1);
    assert!(label2s_out[0] == "testlabel2");

    let all_labels_out = db.get_entity_labels(Some(&"bel".to_string())).unwrap();
    assert!(all_labels_out.len() == 2);
    assert!(all_labels_out.contains(&"testlabel1".to_string()));
    assert!(all_labels_out.contains(&"testlabel2".to_string()));

    temp_path.close().unwrap();
}
