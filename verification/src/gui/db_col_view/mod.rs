//! The view of one column of the database: a list to pick from, and a text
//! to narrow it.

pub mod state;
