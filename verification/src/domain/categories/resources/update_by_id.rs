//! Use case: replace name and description of a stored category.

use crate::domain::categories::model::{CategoryModel, CategoryUpdateModel};
use crate::domain::categories::repository::CategoryRepository;
use crate::domain::categories::resources::{category_not_found, require_found};
use crate::domain::categories::table::{is_updated_form, row_by_id, rows_after_update};
use crate::domain::error::{DomainError, ErrorKind};
use vstd::prelude::*;

verus! {

/// Overwrites name and description of the category stored under `id` and
/// returns it as stored afterwards.
///
/// The category is looked up first. Where nothing is stored under `id` the
/// result is the `NotFound` error of [`category_not_found`], or the storage
/// failure that the lookup met, and storage is not asked to write. Every
/// failure leaves the table as it was.
pub fn execute<R: CategoryRepository>(
    category_repository: &mut R,
    id: u128,
    category_update_model: CategoryUpdateModel,
) -> (result: Result<CategoryModel, DomainError>)
    ensures
        match result {
            Ok(category) => {
                &&& final(category_repository).writes() == old(category_repository).writes() + 1
                &&& row_by_id(old(category_repository).rows(), id) matches Some(before)
                &&& category.id == id
                &&& is_updated_form(category@, before, category_update_model@)
                &&& final(category_repository).rows() == rows_after_update(
                    old(category_repository).rows(),
                    category@,
                )
            },
            Err(error) => {
                &&& final(category_repository).rows() == old(category_repository).rows()
                &&& error@.kind == ErrorKind::NotFound || error@.kind
                    == ErrorKind::InternalServerError
                &&& error@.kind == ErrorKind::NotFound ==> {
                    &&& error@ == category_not_found()
                    &&& row_by_id(old(category_repository).rows(), id) is None
                }
                &&& row_by_id(old(category_repository).rows(), id) is None ==> {
                    final(category_repository).writes() == old(category_repository).writes()
                }
            },
        },
{
    let has_category = category_repository.find_by_id(id)?;
    require_found(&has_category)?;
    category_repository.update_by_id(id, &category_update_model)
}

} // verus!
