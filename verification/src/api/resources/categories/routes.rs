//! Routes of the category resource, one module each.

pub mod create;
pub mod delete_by_id;
pub mod find;
pub mod find_by_id;
pub mod update_by_id;
