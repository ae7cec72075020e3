//! Route: `POST /categories`.

use crate::api::lib::AppState;
use crate::api::resources::categories::dto::{
    body_violation, RequestCreateCategory, ResponseCategory,
};
use crate::api::error::outcome_view;
use crate::api::utils::response::{
    meta_of, ApiResponse, Reply, ReplyBody, ReplyBodyView, ReplyView, STATUS_BAD_REQUEST,
    STATUS_CREATED, STATUS_INTERNAL_SERVER_ERROR,
};
use crate::api::config::Config;
use crate::domain::categories::model::{
    is_random_id, text_view, CategoryCreateModel, CategoryCreateView, CategoryModel, CategoryView,
};
use crate::domain::categories::repository::CategoryRepository;
use crate::domain::categories::table::{is_stored_form, row_by_id, rows_after_insert};
use crate::domain::error::{DomainError, ErrorKind};
use vstd::prelude::*;

verus! {

/// The reply that shows one category under status `status`: the category
/// alone in an envelope for a single record.
pub open spec fn single_reply(status: u16, category: CategoryView, default_page_size: u32)
    -> ReplyView {
    ReplyView {
        status,
        body: ReplyBodyView::Categories {
            meta: meta_of(None, None, None, default_page_size),
            records: seq![category],
        },
    }
}

/// Wraps one category into a reply of status `status`.
pub fn single(status: u16, category: CategoryModel, config: &Config) -> (reply: Reply)
    ensures
        reply@ == single_reply(status, category@, config.page_size_default),
{
    let mut records: Vec<ResponseCategory> = Vec::new();
    records.push(ResponseCategory::from(category));
    assert(records.deep_view() =~= seq![category@]);
    Reply {
        status,
        body: ReplyBody::Categories(ApiResponse::new(records, None, None, None, config)),
    }
}

/// The reply to a creation that succeeded: 201 with the category as it
/// was stored.
pub fn created(category: CategoryModel, config: &Config) -> (reply: Reply)
    ensures
        reply@ == single_reply(STATUS_CREATED, category@, config.page_size_default),
{
    single(STATUS_CREATED, category, config)
}

/// Creates the category that the body describes.
///
/// A body that breaks [`body_violation`] is refused with `BadRequest`
/// before storage is touched. Otherwise the category is stored under a
/// fresh random identifier and shown in a 201 reply. A storage failure
/// comes back as its error, with nothing stored.
pub fn handler<C: CategoryRepository, H>(state: &mut AppState<C, H>, body: RequestCreateCategory)
    -> (result: Result<Reply, DomainError>)
    ensures
        final(state).config == old(state).config,
        final(state).health_repository == old(state).health_repository,
        outcome_view(result).status == STATUS_CREATED || outcome_view(result).status
            == STATUS_BAD_REQUEST || outcome_view(result).status == STATUS_INTERNAL_SERVER_ERROR,
        match result {
            Ok(reply) => {
                &&& final(state).category_repository.writes() == old(
                    state,
                ).category_repository.writes() + 1
                &&& body_violation(body.name@, text_view(body.description)) is None
                &&& reply@.body matches ReplyBodyView::Categories { meta, records }
                &&& records.len() == 1
                &&& reply@ == single_reply(
                    STATUS_CREATED,
                    records[0],
                    old(state).config.page_size_default,
                )
                &&& is_random_id(records[0].id)
                &&& is_stored_form(
                    records[0],
                    CategoryCreateView {
                        id: records[0].id,
                        name: body.name@,
                        description: text_view(body.description),
                    },
                )
                &&& row_by_id(old(state).category_repository.rows(), records[0].id) is None
                &&& final(state).category_repository.rows() == rows_after_insert(
                    old(state).category_repository.rows(),
                    records[0],
                )
            },
            Err(error) => {
                &&& final(state).category_repository.rows() == old(
                    state,
                ).category_repository.rows()
                &&& error@.kind != ErrorKind::NotFound
                &&& error@.kind == ErrorKind::BadRequest <==> body_violation(
                    body.name@,
                    text_view(body.description),
                ) is Some
                &&& error@.kind == ErrorKind::BadRequest ==> {
                    &&& Some(error@.message) == body_violation(
                        body.name@,
                        text_view(body.description),
                    )
                    &&& final(state).category_repository.writes() == old(
                        state,
                    ).category_repository.writes()
                }
            },
        },
{
    body.validate()?;
    let command = CategoryCreateModel::from(body);
    let category = crate::domain::categories::resources::create::execute(
        &mut state.category_repository,
        command,
    )?;
    Ok(created(category, &state.config))
}

} // verus!
