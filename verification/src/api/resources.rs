//! The resources that the HTTP entry point serves.

pub mod categories;
pub mod health;
