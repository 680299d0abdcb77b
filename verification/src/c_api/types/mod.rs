//! The records in the flat layout of the C interface. Their members are
//! numbers and character pointers.

pub mod entity;
pub mod history;
pub mod relationship;

pub use entity::CEntityColumn;
pub use history::CHistoryItem;
pub use relationship::CEntityRelationship;
