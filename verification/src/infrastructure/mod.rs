//! The store adapter for a relational database.
pub mod conformance;
pub mod statement;
pub mod todo_repository;
