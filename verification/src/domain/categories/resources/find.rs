//! Use case: search categories by name, page by page.

use crate::domain::categories::model::text_view;
use crate::domain::categories::repository::{page_view, CategoryPage, CategoryRepository};
use crate::domain::categories::table::find_rows;
use crate::domain::error::{DomainError, DomainErrorView, ErrorKind};
use vstd::prelude::*;

verus! {

/// The error that a search gives when it is asked for page 0: pages are
/// counted from 1, and there is none before the first.
pub open spec fn no_such_page() -> DomainErrorView {
    DomainErrorView { kind: ErrorKind::BadRequest, message: "page must be at least 1"@ }
}

/// Returns page `page` of the categories whose name contains `name`, with
/// the number of all matches, or `None` where that page holds nothing.
///
/// Pages are counted from 1. A search that finds nothing is no error. A
/// search for page 0 is refused with [`no_such_page`] and storage is not
/// asked; any other failure is a storage failure.
pub fn execute<R: CategoryRepository>(
    category_repository: &R,
    name: Option<String>,
    page: u32,
    page_size: u32,
) -> (result: Result<Option<CategoryPage>, DomainError>)
    ensures
        match result {
            Ok(found) => page >= 1 && page_view(found) == find_rows(
                category_repository.rows(),
                text_view(name),
                page as int,
                page_size as int,
            ),
            Err(error) => if page == 0 {
                error@ == no_such_page()
            } else {
                error@.kind == ErrorKind::InternalServerError
            },
        },
{
    if page == 0 {
        return Err(DomainError::BadRequest("page must be at least 1".to_owned()));
    }
    category_repository.find(&name, page, page_size)
}

} // verus!
