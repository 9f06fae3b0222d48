//! Argument and credential resolution for a command-line client of a cloud
//! document database: which action an invocation selects, and which
//! (project id, credential path) pair the database context is built from.

pub mod entry;
pub mod environment;
pub mod invocation;
