//! Route: `DELETE /categories/{id}`.

use crate::api::lib::AppState;
use crate::api::resources::categories::routes::find_by_id::{no_content, no_content_reply};
use crate::api::error::outcome_view;
use crate::api::utils::response::{
    Reply, STATUS_INTERNAL_SERVER_ERROR, STATUS_NOT_FOUND, STATUS_NO_CONTENT,
};
use crate::domain::categories::repository::CategoryRepository;
use crate::domain::categories::resources::category_not_found;
use crate::domain::categories::table::{row_by_id, rows_after_delete};
use crate::domain::error::{DomainError, ErrorKind};
use vstd::prelude::*;

verus! {

/// The reply to a deletion that succeeded: 204 with nothing.
pub fn deleted() -> (reply: Reply)
    ensures
        reply@ == no_content_reply(),
{
    no_content()
}

/// Removes the category stored under `id` and replies 204.
///
/// Where nothing is stored under `id` the result is `NotFound`, unless the
/// lookup itself failed. Every failure leaves the table as it was.
pub fn handler<C: CategoryRepository, H>(state: &mut AppState<C, H>, id: u128) -> (result: Result<
    Reply,
    DomainError,
>)
    ensures
        final(state).config == old(state).config,
        final(state).health_repository == old(state).health_repository,
        outcome_view(result).status == STATUS_NO_CONTENT || outcome_view(result).status
            == STATUS_NOT_FOUND || outcome_view(result).status == STATUS_INTERNAL_SERVER_ERROR,
        match result {
            Ok(reply) => {
                &&& final(state).category_repository.writes() == old(
                    state,
                ).category_repository.writes() + 1
                &&& reply@ == no_content_reply()
                &&& row_by_id(old(state).category_repository.rows(), id) is Some
                &&& final(state).category_repository.rows() == rows_after_delete(
                    old(state).category_repository.rows(),
                    id,
                )
            },
            Err(error) => {
                &&& final(state).category_repository.rows() == old(
                    state,
                ).category_repository.rows()
                &&& error@.kind == ErrorKind::NotFound || error@.kind
                    == ErrorKind::InternalServerError
                &&& error@.kind == ErrorKind::NotFound ==> {
                    &&& error@ == category_not_found()
                    &&& row_by_id(old(state).category_repository.rows(), id) is None
                    &&& final(state).category_repository.writes() == old(
                        state,
                    ).category_repository.writes()
                }
            },
        },
{
    crate::domain::categories::resources::delete_by_id::execute(
        &mut state.category_repository,
        id,
    )?;
    Ok(deleted())
}

} // verus!
