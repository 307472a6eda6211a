//! The request-handling and data-access core of a small user registry service.
//!
//! Users are records with one field, a username, kept in a schema-enforcing
//! store behind a single guarded connection. This crate holds what the service
//! decides: which statement each operation submits to the store, and which
//! reply each outcome of the store earns. Talking to the store and to HTTP
//! clients is left to the program around it.
//!
//! - [`user`]: the record.
//! - [`store`]: the statements, one for each operation, and the schema.
//! - [`handler`]: the replies, one for each outcome of a statement.
//! - [`error`]: the one error that every failure of the store becomes.
//! - [`reply`]: what a reply is.
//! - [`registry`]: a model of the store under the schema, and what callers of
//!   the service may rely on if the store behaves as modelled.

pub mod error;
pub mod handler;
pub mod registry;
pub mod reply;
pub mod store;
pub mod user;

pub use crate::error::Error;
pub use crate::user::User;
