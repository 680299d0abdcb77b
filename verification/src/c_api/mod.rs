//! The foreign-function boundary: records in the flat layout of the C
//! interface, and what crosses the boundary with them.
//!
//! A character pointer of the C interface stands here as what it points to.
//! Reading the pointer and allocating what is handed out are the caller's,
//! on the far side of this module.
//!
//! - [`auxil`]: texts across the boundary.
//! - [`types`]: the records in the flat layout.
//! - [`write_database`]: batches of records to write.
//! - [`change_database`]: changes and deletions by key.
//! - [`read_database`]: the records of the store, handed out flat.

pub mod auxil;
pub mod change_database;
pub mod read_database;
pub mod types;
pub mod write_database;
