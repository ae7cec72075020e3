//! The capability that the domain asks of category storage.

use crate::domain::categories::model::{
    text_view, CategoryCreateModel, CategoryModel, CategoryUpdateModel,
};
use crate::domain::categories::table::{
    find_rows, is_stored_form, is_updated_form, row_by_id, rows_after_delete, rows_after_insert,
    rows_after_update,
};
use crate::domain::categories::model::CategoryView;
use crate::domain::error::{DomainError, ErrorKind};
use vstd::prelude::*;

verus! {

/// One page of categories with the number of all categories that matched.
pub type CategoryPage = (Vec<CategoryModel>, u32);

/// Mathematical value of a search result.
pub open spec fn page_view(found: Option<CategoryPage>) -> Option<(Seq<CategoryView>, nat)> {
    match found {
        Some((records, count)) => Some((records.deep_view(), count as nat)),
        None => None,
    }
}

/// Mathematical value of a lookup result.
pub open spec fn found_view(found: Option<CategoryModel>) -> Option<CategoryView> {
    match found {
        Some(category) => Some(category@),
        None => None,
    }
}

/// Storage of categories, whatever engine keeps them.
///
/// Each method is one atomic step on the table that `rows` names: it either
/// succeeds with the stated effect or fails and leaves the table as it was.
/// When a method succeeds is the implementation's affair; what it has done
/// when it succeeds is fixed here.
pub trait CategoryRepository {
    /// The stored rows, in storage order.
    spec fn rows(&self) -> Seq<CategoryView>;

    /// How often storage was asked to change the table, whether or not it
    /// did: the number of calls of `insert`, `update_by_id` and
    /// `delete_by_id` so far.
    spec fn writes(&self) -> nat;

    /// Page `page` (counted from 1) of the categories whose name contains
    /// `name`, with the number of all such categories; `None` when that page
    /// holds nothing.
    fn find(&self, name: &Option<String>, page: u32, page_size: u32) -> (result: Result<
        Option<CategoryPage>,
        DomainError,
    >)
        requires
            page >= 1,
        ensures
            match result {
                Ok(found) => page_view(found) == find_rows(
                    self.rows(),
                    text_view(*name),
                    page as int,
                    page_size as int,
                ),
                Err(error) => error@.kind == ErrorKind::InternalServerError,
            },
    ;

    /// The category stored under `id`, if any.
    fn find_by_id(&self, id: u128) -> (result: Result<Option<CategoryModel>, DomainError>)
        ensures
            match result {
                Ok(found) => found_view(found) == row_by_id(self.rows(), id),
                Err(error) => error@.kind == ErrorKind::InternalServerError,
            },
    ;

    /// Stores a new category. An identifier that is already taken makes
    /// this fail like any other storage failure.
    fn insert(&mut self, category_create_model: &CategoryCreateModel) -> (result: Result<
        CategoryModel,
        DomainError,
    >)
        ensures
            final(self).writes() == old(self).writes() + 1,
            match result {
                Ok(category) => {
                    &&& row_by_id(old(self).rows(), category_create_model.id) is None
                    &&& is_stored_form(category@, category_create_model@)
                    &&& final(self).rows() == rows_after_insert(old(self).rows(), category@)
                },
                Err(error) => {
                    &&& error@.kind == ErrorKind::InternalServerError
                    &&& final(self).rows() == old(self).rows()
                },
            },
    ;

    /// Overwrites name and description of the category stored under `id`.
    /// Where no such category is stored any more, this fails, with
    /// `NotFound` unless storage itself failed.
    fn update_by_id(&mut self, id: u128, category_update_model: &CategoryUpdateModel) -> (result:
        Result<CategoryModel, DomainError>)
        ensures
            final(self).writes() == old(self).writes() + 1,
            match result {
                Ok(category) => {
                    &&& row_by_id(old(self).rows(), id) matches Some(before)
                    &&& category.id == id
                    &&& is_updated_form(category@, before, category_update_model@)
                    &&& final(self).rows() == rows_after_update(old(self).rows(), category@)
                },
                Err(error) => {
                    &&& error@.kind != ErrorKind::BadRequest
                    &&& error@.kind == ErrorKind::NotFound ==> row_by_id(old(self).rows(), id)
                        is None
                    &&& final(self).rows() == old(self).rows()
                },
            },
    ;

    /// Removes the category stored under `id`. Removing what is not there
    /// is no error.
    fn delete_by_id(&mut self, id: u128) -> (result: Result<(), DomainError>)
        ensures
            final(self).writes() == old(self).writes() + 1,
            match result {
                Ok(_) => final(self).rows() == rows_after_delete(old(self).rows(), id),
                Err(error) => {
                    &&& error@.kind == ErrorKind::InternalServerError
                    &&& final(self).rows() == old(self).rows()
                },
            },
    ;
}

} // verus!
