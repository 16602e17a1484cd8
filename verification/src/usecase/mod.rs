//! The use cases of the service, written against the capability set of a
//! store and nothing else.
pub mod guarantees;
pub mod todo_usecase;
