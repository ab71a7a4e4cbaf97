//! The catalogue: the statements that read and change it, and what their rows
//! mean.
pub mod catalogue;
pub mod cells;
pub mod meaning;
pub mod rows;
pub mod sql;
