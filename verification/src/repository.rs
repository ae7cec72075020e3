//! Storage adapters and what they compute.

pub mod categories;
pub mod memory;
