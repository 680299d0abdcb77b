//! What the views of the graphical interface keep, apart from how they are
//! drawn.

pub mod db_col_view;
