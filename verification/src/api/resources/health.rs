//! The health check over HTTP.

pub mod routes;
