//! Writes across the boundary: from flat records to the commands that
//! write them.

use crate::c_api::auxil::c_bytes;
use crate::c_api::auxil::char_pointer_to_string;
use crate::c_api::auxil::native_text;
use crate::c_api::auxil::string_to_char_pointer;
use crate::c_api::auxil::CharPointer;
use crate::c_api::types::entity::to_entity_column;
use crate::c_api::types::entity::CEntityColumn;
use crate::c_api::types::history::to_history_item;
use crate::c_api::types::history::CHistoryItem;
use crate::c_api::types::relationship::to_relationship;
use crate::c_api::types::relationship::CEntityRelationship;
use crate::errors::LoreCoreError;
use crate::sql::entity::insert_entity;
use crate::sql::entity::insert_entity_command;
use crate::sql::history::insert_history_item;
use crate::sql::history::insert_history_item_command;
use crate::sql::lore_database::Command;
use crate::sql::lore_database::LoreDatabase;
use crate::sql::lore_database::Progress;
use crate::sql::lore_database::WriteBatch;
use crate::sql::relationship::insert_relationship;
use crate::sql::relationship::insert_relationship_command;
use vstd::prelude::*;

verus! {

/// A write across the boundary: the batch of commands, and the database to
/// execute them on. There is no database where the batch has no commands
/// because nothing is to be written or the location is no text.
pub struct BoundaryWrite {
    pub database: Option<LoreDatabase>,
    pub batch: WriteBatch,
}

/// Whether `outcome` is the input error with the message `message`.
pub open spec fn is_input_error<T>(outcome: Result<T, LoreCoreError>, message: Seq<char>) -> bool {
    outcome is Err && outcome->Err_0 is InputError && outcome->Err_0.message() == message
}

/// Whether `batch` is cut short by the input error with the message
/// `message`: it has not begun, and fails with that error once its commands
/// are written, or has failed with it where it has none.
pub open spec fn is_cut_short_by(batch: &WriteBatch, message: Seq<char>) -> bool {
    let error = if batch.commands().len() == 0 {
        batch.failure()
    } else {
        batch.due()
    };
    &&& batch.wf()
    &&& batch.progress() == Progress::start(batch.commands().len(), true)
    &&& error is Some
    &&& error->Some_0 is InputError
    &&& error->Some_0.message() == message
}

/// Whether `batch` is whole: it has not begun, and nothing but the engine
/// can make it fail.
pub open spec fn is_whole(batch: &WriteBatch) -> bool {
    &&& batch.wf()
    &&& batch.progress() == Progress::start(batch.commands().len(), false)
    &&& batch.failure() is None
    &&& batch.due() is None
}

/// The command that writes the record `column` to the database at
/// `db_path`, and that database. A location or a record that is no text is
/// an input error, the location's first.
pub fn c_write_entity_column(db_path: &CharPointer, column: &CEntityColumn) -> (request: Result<
    (LoreDatabase, Command),
    LoreCoreError,
>)
    ensures
        match native_text(db_path@) {
            Ok(path) => match column@.native() {
                Ok(record) => {
                    &&& request is Ok
                    &&& request->Ok_0.0.path() == path
                    &&& request->Ok_0.1@ == insert_entity_command(record.row())
                },
                Err(message) => is_input_error(request, message),
            },
            Err(message) => is_input_error(request, message),
        },
{
    let path = match char_pointer_to_string(db_path) {
        Ok(path) => path,
        Err(error) => {
            return Err(error);
        },
    };
    let record = match to_entity_column(column) {
        Ok(record) => record,
        Err(error) => {
            return Err(error);
        },
    };
    Ok((LoreDatabase::new(path), insert_entity(record.to_sql_entity_column())))
}

/// Whether `batch` is what writing `records` comes to: a command for each
/// record up to the first that is no text, in order, and the input error of
/// that record due after them.
pub open spec fn writes_columns(batch: &WriteBatch, records: Seq<CEntityColumn>) -> bool {
    let written = batch.commands().len();
    &&& batch.wf()
    &&& written <= records.len()
    &&& forall|i: int|
        0 <= i < written ==> (#[trigger] records[i])@.native() is Ok && batch.commands()[i]@
            == insert_entity_command(records[i]@.native()->Ok_0.row())
    &&& written < records.len() ==> records[written as int]@.native() is Err && is_cut_short_by(
        batch,
        records[written as int]@.native()->Err_0,
    )
    &&& written == records.len() ==> is_whole(batch)
}

/// The batch that writes `columns` to the database at `db_path`, and that
/// database where its location is a text. The records are taken strictly
/// in order; the first that is no text ends the batch with its input error,
/// after those before it are written. Without records there is nothing to
/// do, and the location is not even looked at.
pub fn write_entity_columns(
    db_path: &CharPointer,
    columns: &[CEntityColumn],
) -> (write: BoundaryWrite)
    ensures
        columns.len() == 0 ==> write.database is None && is_whole(&write.batch)
            && write.batch.commands().len() == 0,
        columns.len() > 0 ==> match native_text(db_path@) {
            Ok(path) => write.database is Some && write.database->Some_0.path() == path
                && writes_columns(&write.batch, columns@),
            Err(message) => write.database is None && write.batch.commands().len() == 0
                && is_cut_short_by(&write.batch, message),
        },
{
    if columns.len() == 0 {
        return BoundaryWrite { database: None, batch: WriteBatch::new(Vec::new()) };
    }
    let path = match char_pointer_to_string(db_path) {
        Ok(path) => path,
        Err(error) => {
            let batch = WriteBatch::cut_short(Vec::new(), error);
            return BoundaryWrite { database: None, batch };
        },
    };
    let database = LoreDatabase::new(path);
    let mut commands: Vec<Command> = Vec::new();
    let mut i: usize = 0;
    while i < columns.len()
        invariant
            i <= columns.len(),
            commands.len() == i,
            native_text(db_path@) is Ok,
            database.path() == native_text(db_path@)->Ok_0,
            forall|k: int|
                0 <= k < i ==> (#[trigger] columns[k])@.native() is Ok && commands[k]@
                    == insert_entity_command(columns[k]@.native()->Ok_0.row()),
        decreases columns.len() - i,
    {
        match to_entity_column(&columns[i]) {
            Ok(record) => {
                commands.push(insert_entity(record.to_sql_entity_column()));
            },
            Err(error) => {
                let batch = WriteBatch::cut_short(commands, error);
                return BoundaryWrite { database: Some(database), batch };
            },
        }
        i += 1;
    }
    BoundaryWrite { database: Some(database), batch: WriteBatch::new(commands) }
}

/// The command that writes the record `item` to the database at
/// `db_path`, and that database. A location or a record that is no text is
/// an input error, the location's first.
pub fn c_write_history_item(db_path: &CharPointer, item: &CHistoryItem) -> (request: Result<
    (LoreDatabase, Command),
    LoreCoreError,
>)
    ensures
        match native_text(db_path@) {
            Ok(path) => match item@.native() {
                Ok(record) => {
                    &&& request is Ok
                    &&& request->Ok_0.0.path() == path
                    &&& request->Ok_0.1@ == insert_history_item_command(record.row())
                },
                Err(message) => is_input_error(request, message),
            },
            Err(message) => is_input_error(request, message),
        },
{
    let path = match char_pointer_to_string(db_path) {
        Ok(path) => path,
        Err(error) => {
            return Err(error);
        },
    };
    let record = match to_history_item(item) {
        Ok(record) => record,
        Err(error) => {
            return Err(error);
        },
    };
    Ok((LoreDatabase::new(path), insert_history_item(record.to_sql_history_item())))
}

/// Whether `batch` is what writing `records` comes to: a command for each
/// record up to the first that is no text, in order, and the input error of
/// that record due after them.
pub open spec fn writes_items(batch: &WriteBatch, records: Seq<CHistoryItem>) -> bool {
    let written = batch.commands().len();
    &&& batch.wf()
    &&& written <= records.len()
    &&& forall|i: int|
        0 <= i < written ==> (#[trigger] records[i])@.native() is Ok && batch.commands()[i]@
            == insert_history_item_command(records[i]@.native()->Ok_0.row())
    &&& written < records.len() ==> records[written as int]@.native() is Err && is_cut_short_by(
        batch,
        records[written as int]@.native()->Err_0,
    )
    &&& written == records.len() ==> is_whole(batch)
}

/// The batch that writes `items` to the database at `db_path`, and that
/// database where its location is a text. The records are taken strictly
/// in order; the first that is no text ends the batch with its input error,
/// after those before it are written. Without records there is nothing to
/// do, and the location is not even looked at.
pub fn write_history_items(db_path: &CharPointer, items: &[CHistoryItem]) -> (write: BoundaryWrite)
    ensures
        items.len() == 0 ==> write.database is None && is_whole(&write.batch)
            && write.batch.commands().len() == 0,
        items.len() > 0 ==> match native_text(db_path@) {
            Ok(path) => write.database is Some && write.database->Some_0.path() == path
                && writes_items(&write.batch, items@),
            Err(message) => write.database is None && write.batch.commands().len() == 0
                && is_cut_short_by(&write.batch, message),
        },
{
    if items.len() == 0 {
        return BoundaryWrite { database: None, batch: WriteBatch::new(Vec::new()) };
    }
    let path = match char_pointer_to_string(db_path) {
        Ok(path) => path,
        Err(error) => {
            let batch = WriteBatch::cut_short(Vec::new(), error);
            return BoundaryWrite { database: None, batch };
        },
    };
    let database = LoreDatabase::new(path);
    let mut commands: Vec<Command> = Vec::new();
    let mut i: usize = 0;
    while i < items.len()
        invariant
            i <= items.len(),
            commands.len() == i,
            native_text(db_path@) is Ok,
            database.path() == native_text(db_path@)->Ok_0,
            forall|k: int|
                0 <= k < i ==> (#[trigger] items[k])@.native() is Ok && commands[k]@
                    == insert_history_item_command(items[k]@.native()->Ok_0.row()),
        decreases items.len() - i,
    {
        match to_history_item(&items[i]) {
            Ok(record) => {
                commands.push(insert_history_item(record.to_sql_history_item()));
            },
            Err(error) => {
                let batch = WriteBatch::cut_short(commands, error);
                return BoundaryWrite { database: Some(database), batch };
            },
        }
        i += 1;
    }
    BoundaryWrite { database: Some(database), batch: WriteBatch::new(commands) }
}

/// The command that writes the record `rel` to the database at
/// `db_path`, and that database. A location or a record that is no text is
/// an input error, the location's first.
pub fn c_write_relationship(db_path: &CharPointer, rel: &CEntityRelationship) -> (request: Result<
    (LoreDatabase, Command),
    LoreCoreError,
>)
    ensures
        match native_text(db_path@) {
            Ok(path) => match rel@.native() {
                Ok(record) => {
                    &&& request is Ok
                    &&& request->Ok_0.0.path() == path
                    &&& request->Ok_0.1@ == insert_relationship_command(record.row())
                },
                Err(message) => is_input_error(request, message),
            },
            Err(message) => is_input_error(request, message),
        },
{
    let path = match char_pointer_to_string(db_path) {
        Ok(path) => path,
        Err(error) => {
            return Err(error);
        },
    };
    let record = match to_relationship(rel) {
        Ok(record) => record,
        Err(error) => {
            return Err(error);
        },
    };
    Ok((LoreDatabase::new(path), insert_relationship(record.to_sql_entity_relationship())))
}

/// Whether `batch` is what writing `records` comes to: a command for each
/// record up to the first that is no text, in order, and the input error of
/// that record due after them.
pub open spec fn writes_relationships(
    batch: &WriteBatch,
    records: Seq<CEntityRelationship>,
) -> bool {
    let written = batch.commands().len();
    &&& batch.wf()
    &&& written <= records.len()
    &&& forall|i: int|
        0 <= i < written ==> (#[trigger] records[i])@.native() is Ok && batch.commands()[i]@
            == insert_relationship_command(records[i]@.native()->Ok_0.row())
    &&& written < records.len() ==> records[written as int]@.native() is Err && is_cut_short_by(
        batch,
        records[written as int]@.native()->Err_0,
    )
    &&& written == records.len() ==> is_whole(batch)
}

/// The batch that writes `relationships` to the database at `db_path`, and that
/// database where its location is a text. The records are taken strictly
/// in order; the first that is no text ends the batch with its input error,
/// after those before it are written. Without records there is nothing to
/// do, and the location is not even looked at.
pub fn write_relationships(
    db_path: &CharPointer,
    relationships: &[CEntityRelationship],
) -> (write: BoundaryWrite)
    ensures
        relationships.len() == 0 ==> write.database is None && is_whole(&write.batch)
            && write.batch.commands().len() == 0,
        relationships.len() > 0 ==> match native_text(db_path@) {
            Ok(path) => write.database is Some && write.database->Some_0.path() == path
                && writes_relationships(&write.batch, relationships@),
            Err(message) => write.database is None && write.batch.commands().len() == 0
                && is_cut_short_by(&write.batch, message),
        },
{
    if relationships.len() == 0 {
        return BoundaryWrite { database: None, batch: WriteBatch::new(Vec::new()) };
    }
    let path = match char_pointer_to_string(db_path) {
        Ok(path) => path,
        Err(error) => {
            let batch = WriteBatch::cut_short(Vec::new(), error);
            return BoundaryWrite { database: None, batch };
        },
    };
    let database = LoreDatabase::new(path);
    let mut commands: Vec<Command> = Vec::new();
    let mut i: usize = 0;
    while i < relationships.len()
        invariant
            i <= relationships.len(),
            commands.len() == i,
            native_text(db_path@) is Ok,
            database.path() == native_text(db_path@)->Ok_0,
            forall|k: int|
                0 <= k < i ==> (#[trigger] relationships[k])@.native() is Ok && commands[k]@
                    == insert_relationship_command(relationships[k]@.native()->Ok_0.row()),
        decreases relationships.len() - i,
    {
        match to_relationship(&relationships[i]) {
            Ok(record) => {
                commands.push(insert_relationship(record.to_sql_entity_relationship()));
            },
            Err(error) => {
                let batch = WriteBatch::cut_short(commands, error);
                return BoundaryWrite { database: Some(database), batch };
            },
        }
        i += 1;
    }
    BoundaryWrite { database: Some(database), batch: WriteBatch::new(commands) }
}

/// The bytes of the word `error`.
pub open spec fn error_word() -> Seq<u8> {
    seq![101u8, 114u8, 114u8, 111u8, 114u8]
}

/// The bytes that signal `outcome`: none for success, those of the error's
/// report for failure, and the word `error` where the report cannot be a C
/// string.
pub open spec fn signal_of(outcome: Result<(), LoreCoreError>) -> Seq<u8> {
    match outcome {
        Ok(_) => Seq::empty(),
        Err(error) => if c_bytes(error.report()).len() > 0 {
            c_bytes(error.report())
        } else {
            error_word()
        },
    }
}

/// What an entry point of the boundary hands back for `outcome`: the empty
/// string for success, the report of the error for failure. The string for
/// a failure is never empty: should the report not fit a C string, the word
/// `error` goes out in its place, so that a failure is never taken for
/// success.
pub fn error_signal(outcome: &Result<(), LoreCoreError>) -> (signal: CharPointer)
    ensures
        signal@ == Some(signal_of(*outcome)),
        outcome is Ok <==> signal@->Some_0.len() == 0,
{
    match outcome {
        Ok(_) => CharPointer { target: Some(Vec::new()) },
        Err(error) => {
            let report = error.to_string();
            let signal = string_to_char_pointer(report.as_str());
            let fits = match &signal.target {
                Some(bytes) => bytes.len() > 0,
                None => false,
            };
            if fits {
                signal
            } else {
                let mut word: Vec<u8> = Vec::new();
                word.push(101u8);
                word.push(114u8);
                word.push(114u8);
                word.push(111u8);
                word.push(114u8);
                assert(word@ =~= error_word());
                CharPointer { target: Some(word) }
            }
        },
    }
}

} // verus!
