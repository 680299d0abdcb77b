use lorecore::c_api::auxil::CharPointer;
use lorecore::c_api::read_database::{
    c_read_entity_columns, c_read_history_items, c_read_relationships, to_c_entity_columns,
    to_c_history_items, to_c_relationships,
};
use lorecore::c_api::types::{CEntityColumn, CEntityRelationship, CHistoryItem};
use lorecore::c_api::write_database::{
    c_write_entity_column, c_write_history_item, c_write_relationship, error_signal,
    write_entity_columns, write_history_items, write_relationships,
};
use lorecore::errors::LoreCoreError;
use lorecore::sql::statement::{SqlValue, Statement};
use lorecore::types::{EntityColumn, EntityRelationship, HistoryItem};

fn pointer(text: &str) -> CharPointer {
    CharPointer {
        target: Some(text.as_bytes().to_vec()),
    }
}

fn null() -> CharPointer {
    CharPointer { target: None }
}

fn text(value: &str) -> SqlValue {
    SqlValue::Text(value.to_string())
}

fn column(label: CharPointer) -> CEntityColumn {
    CEntityColumn {
        label,
        descriptor: pointer("d"),
        description: pointer(""),
    }
}

fn item(content: CharPointer) -> CHistoryItem {
    CHistoryItem {
        timestamp: 9,
        year: 2020,
        day: 0,
        content,
        properties: pointer(""),
    }
}

fn edge(parent: CharPointer) -> CEntityRelationship {
    CEntityRelationship {
        parent,
        child: pointer("c"),
        role: pointer(""),
    }
}

fn input_message<T: std::fmt::Debug>(outcome: Result<T, LoreCoreError>) -> String {
    match outcome {
        Err(LoreCoreError::InputError(message)) => message,
        other => panic!("unexpected {:?}", other.map(|_| ())),
    }
}

#[test]
fn one_record_becomes_one_insertion() {
    let (database, command) =
        c_write_entity_column(&pointer("lore.db"), &column(pointer("l"))).unwrap();
    assert_eq!(database.path_as_string(), "lore.db");
    assert_eq!(
        command.statement,
        Statement {
            sql: "INSERT INTO entities (label, descriptor, description) VALUES (?, ?, ?)"
                .to_string(),
            binds: vec![text("l"), text("d"), SqlValue::OptionalText(None)],
        }
    );
    let (database, command) =
        c_write_history_item(&pointer("lore.db"), &item(pointer("c"))).unwrap();
    assert_eq!(database.path_as_string(), "lore.db");
    assert_eq!(
        command.statement.binds,
        vec![
            SqlValue::BigInt(9),
            SqlValue::Integer(2020),
            SqlValue::OptionalInteger(None),
            text("c"),
            SqlValue::OptionalText(None),
        ]
    );
    let (database, command) =
        c_write_relationship(&pointer("lore.db"), &edge(pointer("p"))).unwrap();
    assert_eq!(database.path_as_string(), "lore.db");
    assert_eq!(command.statement.binds, vec![text("p"), text("c"), text("")]);
}

#[test]
fn null_location_is_reported_before_the_record() {
    assert_eq!(
        input_message(
            c_write_entity_column(&null(), &column(null())).map(|request| request.1)
        ),
        "Characterpointer is null."
    );
    assert_eq!(
        input_message(
            c_write_entity_column(
                &CharPointer {
                    target: Some(vec![0xc3])
                },
                &column(null())
            )
            .map(|request| request.1)
        ),
        "Could not convert characterpointer to string: incomplete utf-8 byte sequence from index 0"
    );
    assert_eq!(
        input_message(
            c_write_history_item(&null(), &item(pointer("c"))).map(|request| request.1)
        ),
        "Characterpointer is null."
    );
    assert_eq!(
        input_message(
            c_write_relationship(&null(), &edge(pointer("p"))).map(|request| request.1)
        ),
        "Characterpointer is null."
    );
}

#[test]
fn record_that_is_no_text_is_an_input_error() {
    assert_eq!(
        input_message(
            c_write_entity_column(&pointer("lore.db"), &column(null()))
                .map(|request| request.1)
        ),
        "Characterpointer is null."
    );
    assert_eq!(
        input_message(
            c_write_history_item(
                &pointer("lore.db"),
                &item(CharPointer {
                    target: Some(vec![0x80])
                })
            )
            .map(|request| request.1)
        ),
        "Could not convert characterpointer to string: invalid utf-8 sequence of 1 bytes from index 0"
    );
    assert_eq!(
        input_message(
            c_write_relationship(&pointer("lore.db"), &edge(null())).map(|request| request.1)
        ),
        "Characterpointer is null."
    );
}

#[test]
fn writing_nothing_succeeds_whatever_the_location() {
    let write = write_entity_columns(&null(), &[]);
    assert!(write.database.is_none());
    assert!(write.batch.is_finished());
    assert!(write.batch.outcome().is_ok());
    assert_eq!(error_signal(&write.batch.outcome()), pointer(""));
    let write = write_history_items(&null(), &[]);
    assert!(write.batch.is_finished());
    assert!(write.batch.outcome().is_ok());
    let write = write_relationships(&pointer("lore.db"), &[]);
    assert!(write.database.is_none());
    assert!(write.batch.outcome().is_ok());
}

#[test]
fn null_location_fails_the_write_at_once() {
    let write = write_entity_columns(&null(), &[column(pointer("l"))]);
    assert!(write.database.is_none());
    assert!(write.batch.is_finished());
    assert!(write.batch.pending().is_none());
    assert_eq!(
        error_signal(&write.batch.outcome()),
        pointer("InputError(\"Characterpointer is null.\")")
    );
    let write = write_history_items(&null(), &[item(pointer("c"))]);
    assert!(write.batch.is_finished());
    assert!(write.batch.outcome().is_err());
    let write = write_relationships(&null(), &[edge(pointer("p"))]);
    assert!(write.batch.is_finished());
    assert!(write.batch.outcome().is_err());
}

#[test]
fn write_takes_the_records_up_to_the_first_that_is_no_text() {
    let mut write = write_entity_columns(
        &pointer("lore.db"),
        &[
            column(pointer("first")),
            column(pointer("second")),
            column(null()),
            column(pointer("fourth")),
        ],
    );
    assert_eq!(write.database.unwrap().path_as_string(), "lore.db");
    assert_eq!(
        write.batch.pending().unwrap().statement.binds[0],
        text("first")
    );
    write.batch.record(&Ok(1));
    assert_eq!(
        write.batch.pending().unwrap().statement.binds[0],
        text("second")
    );
    assert!(write.batch.outcome().is_ok());
    write.batch.record(&Ok(1));
    assert!(write.batch.pending().is_none());
    assert!(write.batch.is_finished());
    assert_eq!(write.batch.written(), 2);
    assert_eq!(
        input_message(write.batch.outcome()),
        "Characterpointer is null."
    );
}

#[test]
fn write_of_records_that_are_all_text_is_whole() {
    let mut write = write_history_items(
        &pointer("lore.db"),
        &[item(pointer("a")), item(pointer("b"))],
    );
    assert!(write.database.is_some());
    write.batch.record(&Ok(1));
    write.batch.record(&Ok(1));
    assert!(write.batch.is_finished());
    assert_eq!(write.batch.written(), 2);
    assert!(write.batch.outcome().is_ok());

    let mut write = write_relationships(
        &pointer("lore.db"),
        &[edge(pointer("a")), edge(null())],
    );
    write.batch.record(&Err("UNIQUE constraint failed".to_string()));
    assert!(write.batch.is_finished());
    assert_eq!(write.batch.written(), 0);
    assert!(matches!(
        write.batch.outcome(),
        Err(LoreCoreError::SqlError(_))
    ));
}

#[test]
fn success_is_the_empty_string_and_failure_is_the_report() {
    assert_eq!(error_signal(&Ok(())), pointer(""));
    assert_eq!(
        error_signal(&Err(LoreCoreError::FileError("f".to_string()))),
        pointer("FileError(\"f\")")
    );
    assert_eq!(
        error_signal(&Err(LoreCoreError::SqlError("a\0b".to_string()))),
        pointer("SqlError(\"a\\0b\")")
    );
    assert_eq!(
        error_signal(&Err(LoreCoreError::InputError("".to_string()))),
        pointer("InputError(\"\")")
    );
}

#[test]
fn reads_search_for_everything() {
    let (database, query) = c_read_entity_columns(&pointer("lore.db")).unwrap();
    assert_eq!(database.path_as_string(), "lore.db");
    assert_eq!(
        query.statement,
        Statement {
            sql: "SELECT label, descriptor, description FROM entities".to_string(),
            binds: vec![],
        }
    );
    let (_, query) = c_read_history_items(&pointer("lore.db")).unwrap();
    assert_eq!(
        query.statement.sql,
        "SELECT timestamp, year, day, content, properties FROM history_items"
    );
    let (_, query) = c_read_relationships(&pointer("lore.db")).unwrap();
    assert_eq!(
        query.statement.sql,
        "SELECT parent, child, role FROM relationships"
    );
    assert_eq!(
        input_message(c_read_entity_columns(&null()).map(|request| request.1)),
        "Characterpointer is null."
    );
    assert_eq!(
        input_message(c_read_history_items(&null()).map(|request| request.1)),
        "Characterpointer is null."
    );
    assert_eq!(
        input_message(c_read_relationships(&null()).map(|request| request.1)),
        "Characterpointer is null."
    );
}

#[test]
fn records_go_out_flat_and_in_order() {
    let columns = vec![
        EntityColumn {
            label: "a".into(),
            descriptor: "d".into(),
            description: "x".into(),
        },
        EntityColumn {
            label: "b".into(),
            descriptor: "e".into(),
            description: "".into(),
        },
    ];
    assert_eq!(
        to_c_entity_columns(&columns).unwrap(),
        vec![
            CEntityColumn {
                label: pointer("a"),
                descriptor: pointer("d"),
                description: pointer("x"),
            },
            CEntityColumn {
                label: pointer("b"),
                descriptor: pointer("e"),
                description: pointer(""),
            },
        ]
    );
    assert_eq!(to_c_entity_columns(&vec![]).unwrap(), vec![]);
    let items = vec![HistoryItem {
        timestamp: 1.into(),
        year: 2.into(),
        day: 3.into(),
        content: "c".into(),
        properties: "{}".into(),
    }];
    assert_eq!(
        to_c_history_items(&items).unwrap(),
        vec![CHistoryItem {
            timestamp: 1,
            year: 2,
            day: 3,
            content: pointer("c"),
            properties: pointer("{}"),
        }]
    );
    let rels = vec![EntityRelationship {
        parent: "p".into(),
        child: "c".into(),
        role: "r".into(),
    }];
    assert_eq!(
        to_c_relationships(&rels).unwrap(),
        vec![CEntityRelationship {
            parent: pointer("p"),
            child: pointer("c"),
            role: pointer("r"),
        }]
    );
}
