//! The todo record and the capability set of its store.
pub mod repository;
pub mod todo;
