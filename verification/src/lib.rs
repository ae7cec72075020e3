//! Request and message processing core of a categories service.
//!
//! The crate holds the domain model, the repository contracts, the domain
//! operations built on them, and the rules by which the HTTP and the message
//! entry points turn requests into domain commands and outcomes into
//! replies and acknowledgements.

pub mod amqp;
pub mod api;
pub mod domain;
pub mod repository;
