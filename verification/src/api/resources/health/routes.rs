//! Routes of the health check.

pub mod check;
