//! The rows of the store's tables. Their members are numbers, texts, and
//! options of these: what the engine itself holds.

pub mod entity;
pub mod history;
pub mod relationship;
