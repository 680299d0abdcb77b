//! Reads across the boundary: the searches for all records of a kind, and
//! the records found in the flat layout.
//!
//! A caller of the C interface reads in two calls: the first tells how many
//! records there are, the second fills a buffer that the caller has made for
//! as many. Each call searches anew. What is written between the two is
//! seen by the second only: callers must not write in between.

use crate::c_api::auxil::char_pointer_to_string;
use crate::c_api::auxil::native_text;
use crate::c_api::auxil::CharPointer;
use crate::c_api::types::entity::to_c_entity_column;
use crate::c_api::types::entity::CEntityColumn;
use crate::c_api::types::history::to_c_history_item;
use crate::c_api::types::history::CHistoryItem;
use crate::c_api::types::relationship::to_c_relationship;
use crate::c_api::types::relationship::CEntityRelationship;
use crate::c_api::write_database::is_input_error;
use crate::errors::LoreCoreError;
use crate::sql::entity::entity_search;
use crate::sql::entity::EntityQuery;
use crate::sql::history::history_search;
use crate::sql::history::HistoryQuery;
use crate::sql::lore_database::LoreDatabase;
use crate::sql::relationship::relationship_search;
use crate::sql::relationship::RelationshipQuery;
use crate::sql::search_params::EntityColumnSearchParams;
use crate::sql::search_params::HistoryItemSearchParams;
use crate::sql::search_params::RelationshipSearchParams;
use crate::sql::search_params::SearchTextView;
use crate::types::entity::EntityColumn;
use crate::types::history::HistoryItem;
use crate::types::relationship::EntityRelationship;
use vstd::prelude::*;

verus! {

/// The search text that narrows nothing.
pub open spec fn no_search_text() -> SearchTextView {
    SearchTextView { text: None, is_exact: false }
}

/// The search for all attributes of the database at `db_path`, and that
/// database. A location that is no text is an input error.
pub fn c_read_entity_columns(db_path: &CharPointer) -> (request: Result<
    (LoreDatabase, EntityQuery),
    LoreCoreError,
>)
    ensures
        match native_text(db_path@) {
            Ok(path) => {
                &&& request is Ok
                &&& request->Ok_0.0.path() == path
                &&& request->Ok_0.1.statement@ == entity_search(no_search_text(), no_search_text())
            },
            Err(message) => is_input_error(request, message),
        },
{
    let path = match char_pointer_to_string(db_path) {
        Ok(path) => path,
        Err(error) => {
            return Err(error);
        },
    };
    let database = LoreDatabase::new(path);
    let query = database.read_entity_columns(EntityColumnSearchParams::empty());
    Ok((database, query))
}

/// The records `columns` in the flat layout, in order, each with newly
/// allocated strings. It never fails.
pub fn to_c_entity_columns(
    columns: &Vec<EntityColumn>,
) -> (flat: Result<Vec<CEntityColumn>, LoreCoreError>)
    ensures
        flat is Ok,
        flat->Ok_0.len() == columns.len(),
        forall|i: int|
            0 <= i < columns.len() ==> (#[trigger] flat->Ok_0[i])@ == columns[i]@.flat(),
{
    let mut flat: Vec<CEntityColumn> = Vec::new();
    let mut i: usize = 0;
    while i < columns.len()
        invariant
            i <= columns.len(),
            flat.len() == i,
            forall|k: int| 0 <= k < i ==> (#[trigger] flat[k])@ == columns[k]@.flat(),
        decreases columns.len() - i,
    {
        match to_c_entity_column(&columns[i]) {
            Ok(record) => {
                flat.push(record);
            },
            Err(error) => {
                return Err(error);
            },
        }
        i += 1;
    }
    Ok(flat)
}

/// The search for all events of the database at `db_path`, and that
/// database. A location that is no text is an input error.
pub fn c_read_history_items(db_path: &CharPointer) -> (request: Result<
    (LoreDatabase, HistoryQuery),
    LoreCoreError,
>)
    ensures
        match native_text(db_path@) {
            Ok(path) => {
                &&& request is Ok
                &&& request->Ok_0.0.path() == path
                &&& request->Ok_0.1.statement@ == history_search(None, None, None, no_search_text())
            },
            Err(message) => is_input_error(request, message),
        },
{
    let path = match char_pointer_to_string(db_path) {
        Ok(path) => path,
        Err(error) => {
            return Err(error);
        },
    };
    let database = LoreDatabase::new(path);
    let query = database.read_history_items(HistoryItemSearchParams::empty());
    Ok((database, query))
}

/// The records `items` in the flat layout, in order, each with newly
/// allocated strings. It never fails.
pub fn to_c_history_items(
    items: &Vec<HistoryItem>,
) -> (flat: Result<Vec<CHistoryItem>, LoreCoreError>)
    ensures
        flat is Ok,
        flat->Ok_0.len() == items.len(),
        forall|i: int|
            0 <= i < items.len() ==> (#[trigger] flat->Ok_0[i])@ == items[i]@.flat(),
{
    let mut flat: Vec<CHistoryItem> = Vec::new();
    let mut i: usize = 0;
    while i < items.len()
        invariant
            i <= items.len(),
            flat.len() == i,
            forall|k: int| 0 <= k < i ==> (#[trigger] flat[k])@ == items[k]@.flat(),
        decreases items.len() - i,
    {
        match to_c_history_item(&items[i]) {
            Ok(record) => {
                flat.push(record);
            },
            Err(error) => {
                return Err(error);
            },
        }
        i += 1;
    }
    Ok(flat)
}

/// The search for all relationships of the database at `db_path`, and that
/// database. A location that is no text is an input error.
pub fn c_read_relationships(db_path: &CharPointer) -> (request: Result<
    (LoreDatabase, RelationshipQuery),
    LoreCoreError,
>)
    ensures
        match native_text(db_path@) {
            Ok(path) => {
                &&& request is Ok
                &&& request->Ok_0.0.path() == path
                &&& request->Ok_0.1.statement@ == relationship_search(
                    no_search_text(),
                    no_search_text(),
                )
            },
            Err(message) => is_input_error(request, message),
        },
{
    let path = match char_pointer_to_string(db_path) {
        Ok(path) => path,
        Err(error) => {
            return Err(error);
        },
    };
    let database = LoreDatabase::new(path);
    let query = database.read_relationships(RelationshipSearchParams::empty());
    Ok((database, query))
}

/// The records `relationships` in the flat layout, in order, each with newly
/// allocated strings. It never fails.
pub fn to_c_relationships(
    relationships: &Vec<EntityRelationship>,
) -> (flat: Result<Vec<CEntityRelationship>, LoreCoreError>)
    ensures
        flat is Ok,
        flat->Ok_0.len() == relationships.len(),
        forall|i: int|
            0 <= i < relationships.len() ==> (#[trigger] flat->Ok_0[i])@
                == relationships[i]@.flat(),
{
    let mut flat: Vec<CEntityRelationship> = Vec::new();
    let mut i: usize = 0;
    while i < relationships.len()
        invariant
            i <= relationships.len(),
            flat.len() == i,
            forall|k: int| 0 <= k < i ==> (#[trigger] flat[k])@ == relationships[k]@.flat(),
        decreases relationships.len() - i,
    {
        match to_c_relationship(&relationships[i]) {
            Ok(record) => {
                flat.push(record);
            },
            Err(error) => {
                return Err(error);
            },
        }
        i += 1;
    }
    Ok(flat)
}

} // verus!
