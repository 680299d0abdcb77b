//! Storage core for a small lore database: labelled entities with their
//! attributes, dated history events and parent/child relationships.
//!
//! The crate holds the parts that carry invariants: the generator of history
//! identifiers, the search texts and the statements built from them, the
//! interpretation of what the relational engine answers, and the flat record
//! layout that crosses the foreign-function boundary.
//!
//! It neither talks to the engine nor touches foreign memory. A caller
//! executes the statements that [`sql`] plans and hands the engine's answers
//! back; a caller reads the pointers of the C interface and hands their
//! targets to [`c_api`].
//!
//! - [`types`]: the records and the values they are made of.
//! - [`timestamp`]: the generator of history identifiers.
//! - [`sql`]: searches, commands, batches, rows and the schema of the store.
//! - [`c_api`]: the flat layout, and reads and writes across the boundary.
//! - [`extractions`]: what occurs in a column of a list of records.
//! - [`errors`]: the errors and their messages.
//! - [`order`], [`text`], [`decimal`]: ordering and sorting, texts, numbers
//!   as text.
//! - [`gui`]: what the views of a graphical interface keep.

pub mod c_api;
pub mod decimal;
pub mod errors;
pub mod extractions;
pub mod gui;
pub mod order;
pub mod sql;
pub mod text;
pub mod timestamp;
pub mod types;
