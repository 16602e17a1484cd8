//! The handlers of the routes.
pub mod todo_handler;
