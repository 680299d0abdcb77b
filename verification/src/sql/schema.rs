//! The tables of the store.
//!
//! `entities` holds one row for each attribute of an entity, with label and
//! descriptor as its key. `history_items` holds one row for each event, with
//! the identifier `timestamp` as its key. `relationships` holds one row for
//! each edge, with parent, child and role together as its key; the role is
//! never null, so that one pair of entities has at most one edge without a
//! role.

use crate::sql::statement::Statement;
use crate::sql::statement::StatementView;
use vstd::prelude::*;

verus! {

/// The statement that makes the table `entities` where it is missing.
pub open spec fn entities_table() -> StatementView {
    StatementView {
        sql: "CREATE TABLE IF NOT EXISTS entities (label TEXT NOT NULL, descriptor TEXT NOT NULL, description TEXT, PRIMARY KEY (label, descriptor))"@,
        binds: Seq::empty(),
    }
}

/// The statement that makes the table `history_items` where it is missing.
pub open spec fn history_items_table() -> StatementView {
    StatementView {
        sql: "CREATE TABLE IF NOT EXISTS history_items (timestamp BIGINT PRIMARY KEY NOT NULL, year INTEGER NOT NULL, day INTEGER, content TEXT NOT NULL, properties TEXT)"@,
        binds: Seq::empty(),
    }
}

/// The statement that makes the table `relationships` where it is missing.
pub open spec fn relationships_table() -> StatementView {
    StatementView {
        sql: "CREATE TABLE IF NOT EXISTS relationships (parent TEXT NOT NULL, child TEXT NOT NULL, role TEXT NOT NULL, PRIMARY KEY (parent, child, role))"@,
        binds: Seq::empty(),
    }
}

/// The statements that bring a database to the schema of the store. They
/// leave alone the tables that are there.
pub fn schema() -> (statements: Vec<Statement>)
    ensures
        statements.len() == 3,
        statements[0]@ == entities_table(),
        statements[1]@ == history_items_table(),
        statements[2]@ == relationships_table(),
{
    let mut statements: Vec<Statement> = Vec::new();
    statements.push(
        Statement::new(
            "CREATE TABLE IF NOT EXISTS entities (label TEXT NOT NULL, descriptor TEXT NOT NULL, description TEXT, PRIMARY KEY (label, descriptor))",
        ),
    );
    statements.push(
        Statement::new(
            "CREATE TABLE IF NOT EXISTS history_items (timestamp BIGINT PRIMARY KEY NOT NULL, year INTEGER NOT NULL, day INTEGER, content TEXT NOT NULL, properties TEXT)",
        ),
    );
    statements.push(
        Statement::new(
            "CREATE TABLE IF NOT EXISTS relationships (parent TEXT NOT NULL, child TEXT NOT NULL, role TEXT NOT NULL, PRIMARY KEY (parent, child, role))",
        ),
    );
    statements
}

} // verus!
