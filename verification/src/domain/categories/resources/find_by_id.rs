//! Use case: look one category up by its identifier.

use crate::domain::categories::model::CategoryModel;
use crate::domain::categories::repository::{found_view, CategoryRepository};
use crate::domain::categories::table::row_by_id;
use crate::domain::error::{DomainError, ErrorKind};
use vstd::prelude::*;

verus! {

/// Returns the category stored under `id`, or `None` where there is none.
/// That nothing is stored under `id` is no error.
pub fn execute<R: CategoryRepository>(category_repository: &R, id: u128) -> (result: Result<
    Option<CategoryModel>,
    DomainError,
>)
    ensures
        match result {
            Ok(found) => found_view(found) == row_by_id(category_repository.rows(), id),
            Err(error) => error@.kind == ErrorKind::InternalServerError,
        },
{
    category_repository.find_by_id(id)
}

} // verus!
