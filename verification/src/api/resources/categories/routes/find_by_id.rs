//! Route: `GET /categories/{id}`.

use crate::api::config::Config;
use crate::api::lib::AppState;
use crate::api::resources::categories::routes::create::{single, single_reply};
use crate::api::error::outcome_view;
use crate::api::utils::response::{
    Reply, ReplyBody, ReplyBodyView, ReplyView, STATUS_INTERNAL_SERVER_ERROR, STATUS_NO_CONTENT,
    STATUS_OK,
};
use crate::domain::categories::model::{CategoryModel, CategoryView};
use crate::domain::categories::repository::{found_view, CategoryRepository};
use crate::domain::categories::table::row_by_id;
use crate::domain::error::{DomainError, ErrorKind};
use vstd::prelude::*;

verus! {

/// The reply that carries nothing, under status 204.
pub open spec fn no_content_reply() -> ReplyView {
    ReplyView { status: STATUS_NO_CONTENT, body: ReplyBodyView::Empty }
}

/// The reply to a lookup: 200 with the category where one was found, 204
/// with nothing where none was.
pub open spec fn lookup_reply(found: Option<CategoryView>, default_page_size: u32) -> ReplyView {
    match found {
        Some(category) => single_reply(STATUS_OK, category, default_page_size),
        None => no_content_reply(),
    }
}

/// The reply that carries nothing.
pub fn no_content() -> (reply: Reply)
    ensures
        reply@ == no_content_reply(),
{
    Reply { status: STATUS_NO_CONTENT, body: ReplyBody::Empty }
}

/// Wraps what a lookup found into its reply, see [`lookup_reply`].
pub fn found(result: Option<CategoryModel>, config: &Config) -> (reply: Reply)
    ensures
        reply@ == lookup_reply(found_view(result), config.page_size_default),
{
    match result {
        Some(category) => single(STATUS_OK, category, config),
        None => no_content(),
    }
}

/// Looks the category up that is stored under `id` and replies 200 with
/// it, or 204 where there is none. A storage failure comes back as its
/// error.
pub fn handler<C: CategoryRepository, H>(state: &AppState<C, H>, id: u128) -> (result: Result<
    Reply,
    DomainError,
>)
    ensures
        outcome_view(result).status == STATUS_OK || outcome_view(result).status
            == STATUS_NO_CONTENT || outcome_view(result).status == STATUS_INTERNAL_SERVER_ERROR,
        match result {
            Ok(reply) => reply@ == lookup_reply(
                row_by_id(state.category_repository.rows(), id),
                state.config.page_size_default,
            ),
            Err(error) => error@.kind == ErrorKind::InternalServerError,
        },
{
    let result = crate::domain::categories::resources::find_by_id::execute(
        &state.category_repository,
        id,
    )?;
    Ok(found(result, &state.config))
}

} // verus!
