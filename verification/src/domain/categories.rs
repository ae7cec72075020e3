//! The category resource.

pub mod model;
pub mod repository;
pub mod resources;
pub mod table;
