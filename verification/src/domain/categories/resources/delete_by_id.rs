//! Use case: remove a stored category.

use crate::domain::categories::repository::CategoryRepository;
use crate::domain::categories::resources::{category_not_found, require_found};
use crate::domain::categories::table::{row_by_id, rows_after_delete};
use crate::domain::error::{DomainError, ErrorKind};
use vstd::prelude::*;

verus! {

/// Removes the category stored under `category_id`.
///
/// The category is looked up first. Where nothing is stored under
/// `category_id` the result is the `NotFound` error of
/// [`category_not_found`], or the storage failure that the lookup met, and
/// storage is not asked to write. Every failure leaves the table as it was.
pub fn execute<R: CategoryRepository>(category_repository: &mut R, category_id: u128) -> (result:
    Result<(), DomainError>)
    ensures
        match result {
            Ok(_) => {
                &&& final(category_repository).writes() == old(category_repository).writes() + 1
                &&& row_by_id(old(category_repository).rows(), category_id) is Some
                &&& final(category_repository).rows() == rows_after_delete(
                    old(category_repository).rows(),
                    category_id,
                )
            },
            Err(error) => {
                &&& final(category_repository).rows() == old(category_repository).rows()
                &&& error@.kind == ErrorKind::NotFound || error@.kind
                    == ErrorKind::InternalServerError
                &&& error@.kind == ErrorKind::NotFound ==> {
                    &&& error@ == category_not_found()
                    &&& row_by_id(old(category_repository).rows(), category_id) is None
                }
                &&& row_by_id(old(category_repository).rows(), category_id) is None ==> {
                    final(category_repository).writes() == old(category_repository).writes()
                }
            },
        },
{
    let has_category = category_repository.find_by_id(category_id)?;
    require_found(&has_category)?;
    category_repository.delete_by_id(category_id)
}

} // verus!
