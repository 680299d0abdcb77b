//! The record store: what is asked of the relational engine, and what its
//! answers mean.

pub mod entity;
pub mod history;
pub mod lore_database;
pub mod relationship;
pub mod schema;
pub mod search_params;
pub mod statement;
pub mod types;
