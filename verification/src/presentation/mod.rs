//! The HTTP face of the service: routes, responses and the data sent out.
pub mod handlers;
pub mod response;
