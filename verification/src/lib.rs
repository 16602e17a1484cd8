//! A todo service arranged in three layers: presentation, use case and
//! persistence.
//!
//! Nothing in this crate waits on a store or a socket. Every layer is written
//! as a step function: it says which request goes to the layer below, and what
//! follows from the answer. The program around the crate carries the requests
//! out and hands the answers back.
//!
//! A use case starts with a method of [`usecase::todo_usecase::TodoUsecase`],
//! which returns a step. While the step is a call, the request goes to the
//! store and the outcome to `resume`; when the step is finished, its outcome
//! goes to the handler of the route in
//! [`presentation::handlers::todo_handler`], which returns the response.
//! A request reaches a database through
//! [`infrastructure::todo_repository::TodoRepositoryImpl`] in the same way:
//! `begin` returns a step, each statement of a step is carried out, and what
//! was fetched goes to `resume`.
//!
//! What the use cases guarantee is proved in [`usecase::guarantees`] for any
//! store that answers as [`domain::repository`] describes; that the adapter
//! in front of a database is such a store is proved in
//! [`infrastructure::conformance`], and [`wiring`] puts the two together.
pub mod domain;
pub mod infrastructure;
pub mod presentation;
pub mod usecase;
pub mod wiring;
