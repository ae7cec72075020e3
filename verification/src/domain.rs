//! Domain layer: entities, repository contracts and use cases.

pub mod categories;
pub mod error;
pub mod health;
