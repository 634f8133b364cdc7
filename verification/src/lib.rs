//! A minimal to-do list library: an in-memory task list with verified
//! submit and delete rules, backed by a single-table SQLite store.

pub mod store;
pub mod tasks;
pub mod text;
