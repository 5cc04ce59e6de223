//! The database's own types.

pub mod sql_types;
