//! Route: `PUT /categories/{id}`.

use crate::api::config::Config;
use crate::api::lib::AppState;
use crate::api::resources::categories::dto::{body_violation, RequestUpdateCategory};
use crate::api::resources::categories::routes::create::{single, single_reply};
use crate::api::error::outcome_view;
use crate::api::utils::response::{
    Reply, ReplyBodyView, STATUS_BAD_REQUEST, STATUS_INTERNAL_SERVER_ERROR, STATUS_NOT_FOUND,
    STATUS_OK,
};
use crate::domain::categories::model::{
    text_view, CategoryModel, CategoryUpdateModel, CategoryUpdateView,
};
use crate::domain::categories::repository::CategoryRepository;
use crate::domain::categories::resources::category_not_found;
use crate::domain::categories::table::{is_updated_form, row_by_id, rows_after_update};
use crate::domain::error::{DomainError, ErrorKind};
use vstd::prelude::*;

verus! {

/// The reply to an update that succeeded: 200 with the category as it is
/// stored now.
pub fn updated(category: CategoryModel, config: &Config) -> (reply: Reply)
    ensures
        reply@ == single_reply(STATUS_OK, category@, config.page_size_default),
{
    single(STATUS_OK, category, config)
}

/// Replaces name and description of the category stored under `id` by
/// those of the body.
///
/// A body that breaks [`body_violation`] is refused with `BadRequest`
/// before storage is touched. Where nothing is stored under `id` the
/// result is `NotFound`, unless the lookup itself failed. Every failure
/// leaves the table as it was.
pub fn handler<C: CategoryRepository, H>(
    state: &mut AppState<C, H>,
    id: u128,
    body: RequestUpdateCategory,
) -> (result: Result<Reply, DomainError>)
    ensures
        final(state).config == old(state).config,
        final(state).health_repository == old(state).health_repository,
        outcome_view(result).status == STATUS_OK || outcome_view(result).status
            == STATUS_BAD_REQUEST || outcome_view(result).status == STATUS_NOT_FOUND
            || outcome_view(result).status == STATUS_INTERNAL_SERVER_ERROR,
        match result {
            Ok(reply) => {
                &&& final(state).category_repository.writes() == old(
                    state,
                ).category_repository.writes() + 1
                &&& body_violation(body.name@, text_view(body.description)) is None
                &&& row_by_id(old(state).category_repository.rows(), id) matches Some(before)
                &&& reply@.body matches ReplyBodyView::Categories { meta, records }
                &&& records.len() == 1
                &&& reply@ == single_reply(
                    STATUS_OK,
                    records[0],
                    old(state).config.page_size_default,
                )
                &&& records[0].id == id
                &&& is_updated_form(
                    records[0],
                    before,
                    CategoryUpdateView {
                        name: body.name@,
                        description: text_view(body.description),
                    },
                )
                &&& final(state).category_repository.rows() == rows_after_update(
                    old(state).category_repository.rows(),
                    records[0],
                )
            },
            Err(error) => {
                &&& final(state).category_repository.rows() == old(
                    state,
                ).category_repository.rows()
                &&& error@.kind == ErrorKind::BadRequest <==> body_violation(
                    body.name@,
                    text_view(body.description),
                ) is Some
                &&& error@.kind == ErrorKind::BadRequest ==> Some(error@.message)
                    == body_violation(body.name@, text_view(body.description))
                &&& error@.kind == ErrorKind::NotFound ==> {
                    &&& error@ == category_not_found()
                    &&& row_by_id(old(state).category_repository.rows(), id) is None
                }
                &&& error@.kind != ErrorKind::InternalServerError ==> {
                    final(state).category_repository.writes() == old(
                        state,
                    ).category_repository.writes()
                }
            },
        },
{
    body.validate()?;
    let command = CategoryUpdateModel::from(body);
    let category = crate::domain::categories::resources::update_by_id::execute(
        &mut state.category_repository,
        id,
        command,
    )?;
    Ok(updated(category, &state.config))
}

} // verus!
