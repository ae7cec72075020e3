//! The use cases of the category resource, one module each.

use crate::domain::categories::model::CategoryModel;
use crate::domain::error::{DomainError, DomainErrorView, ErrorKind};
use vstd::prelude::*;

pub mod create;
pub mod delete_by_id;
pub mod find;
pub mod find_by_id;
pub mod update_by_id;

verus! {

/// The error that a change to a category gives when nothing is stored under
/// the identifier it names.
pub open spec fn category_not_found() -> DomainErrorView {
    DomainErrorView { kind: ErrorKind::NotFound, message: "Category id not found"@ }
}

/// The existence rule of updates and deletions: a change goes on only
/// where the lookup that precedes it found the category.
pub fn require_found(found: &Option<CategoryModel>) -> (result: Result<(), DomainError>)
    ensures
        found is Some <==> result is Ok,
        result matches Err(error) ==> error@ == category_not_found(),
{
    match found {
        Some(_) => Ok(()),
        None => Err(DomainError::NotFound("Category id not found".to_owned())),
    }
}

} // verus!
