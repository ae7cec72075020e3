//! Use case: create a category.

use crate::domain::categories::model::{CategoryCreateModel, CategoryModel};
use crate::domain::categories::repository::CategoryRepository;
use crate::domain::categories::table::{is_stored_form, row_by_id, rows_after_insert};
use crate::domain::error::{DomainError, ErrorKind};
use vstd::prelude::*;

verus! {

/// Stores the category that the command describes and returns it as stored.
///
/// The command is trusted as it comes: lengths are checked where requests
/// enter, not here. On success the category carries the command's
/// identifier, name and description and is the newest row of the table. On
/// failure, which is always a storage failure, nothing was stored.
pub fn execute<R: CategoryRepository>(
    category_repository: &mut R,
    category_create_model: CategoryCreateModel,
) -> (result: Result<CategoryModel, DomainError>)
    ensures
        final(category_repository).writes() == old(category_repository).writes() + 1,
        match result {
            Ok(category) => {
                &&& row_by_id(old(category_repository).rows(), category_create_model.id) is None
                &&& is_stored_form(category@, category_create_model@)
                &&& final(category_repository).rows() == rows_after_insert(
                    old(category_repository).rows(),
                    category@,
                )
            },
            Err(error) => {
                &&& error@.kind == ErrorKind::InternalServerError
                &&& final(category_repository).rows() == old(category_repository).rows()
            },
        },
{
    category_repository.insert(&category_create_model)
}

} // verus!
