//! The health check.

pub mod check;
pub mod repository;
