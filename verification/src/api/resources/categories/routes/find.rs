//! Route: `GET /categories`.

use crate::api::config::Config;
use crate::api::lib::AppState;
use crate::api::resources::categories::dto::{
    query_violation, RequestFindCategories, ResponseCategory,
};
use crate::api::resources::categories::routes::find_by_id::{no_content, no_content_reply};
use crate::api::error::outcome_view;
use crate::api::utils::response::{
    meta_of, ApiResponse, Reply, ReplyBody, ReplyBodyView, ReplyView, STATUS_BAD_REQUEST,
    STATUS_INTERNAL_SERVER_ERROR, STATUS_NO_CONTENT, STATUS_OK,
};
use crate::domain::categories::model::{clone_text, text_view, CategoryModel, CategoryView};
use crate::domain::categories::repository::{page_view, CategoryPage, CategoryRepository};
use crate::domain::categories::table::find_rows;
use crate::domain::error::{DomainError, ErrorKind};
use vstd::prelude::*;

verus! {

/// The page that a query asks for: page 1 where it names none.
pub open spec fn requested_page(page: Option<u32>) -> u32 {
    if page is Some {
        page->0
    } else {
        1u32
    }
}

/// The page size that a query asks for: the default where it names none.
pub open spec fn requested_page_size(page_size: Option<u32>, default_page_size: u32) -> u32 {
    if page_size is Some {
        page_size->0
    } else {
        default_page_size
    }
}

/// The reply to a search: 200 with the records of the page and the
/// pagination data where the page holds any, 204 with nothing where it
/// holds none.
pub open spec fn search_reply(
    found: Option<(Seq<CategoryView>, nat)>,
    page: u32,
    page_size: u32,
    default_page_size: u32,
) -> ReplyView {
    match found {
        Some((records, count)) => ReplyView {
            status: STATUS_OK,
            body: ReplyBodyView::Categories {
                meta: meta_of(Some(page), Some(count as u32), Some(page_size), default_page_size),
                records,
            },
        },
        None => no_content_reply(),
    }
}

/// Shows each category of a page as replies show it.
pub fn to_records(categories: &Vec<CategoryModel>) -> (records: Vec<ResponseCategory>)
    ensures
        records.deep_view() == categories.deep_view(),
{
    let mut records: Vec<ResponseCategory> = Vec::new();
    let mut at: usize = 0;
    while at < categories.len()
        invariant
            at <= categories.len(),
            records.len() == at,
            forall|k: int| 0 <= k < at ==> (#[trigger] records[k])@ == categories[k]@,
        decreases categories.len() - at,
    {
        records.push(ResponseCategory::from(categories[at].clone()));
        at += 1;
    }
    assert(records.deep_view() =~= categories.deep_view());
    records
}

/// Wraps what a search found into its reply, see [`search_reply`].
pub fn found(result: Option<CategoryPage>, page: u32, page_size: u32, config: &Config) -> (reply:
    Reply)
    ensures
        reply@ == search_reply(page_view(result), page, page_size, config.page_size_default),
{
    match result {
        Some((categories, count)) => {
            let records = to_records(&categories);
            Reply {
                status: STATUS_OK,
                body: ReplyBody::Categories(
                    ApiResponse::new(records, Some(page), Some(count), Some(page_size), config),
                ),
            }
        },
        None => no_content(),
    }
}

/// Searches the categories that the query describes.
///
/// A query that breaks [`query_violation`] is refused with `BadRequest`
/// before storage is touched. Otherwise the reply shows the page that was
/// asked for, page 1 and the default page size standing in for what the
/// query leaves out. A storage failure comes back as its error.
pub fn handler<C: CategoryRepository, H>(state: &AppState<C, H>, query: RequestFindCategories)
    -> (result: Result<Reply, DomainError>)
    ensures
        outcome_view(result).status == STATUS_OK || outcome_view(result).status
            == STATUS_NO_CONTENT || outcome_view(result).status == STATUS_BAD_REQUEST
            || outcome_view(result).status == STATUS_INTERNAL_SERVER_ERROR,
        query.page_size matches Some(page_size) && page_size > state.config.page_size_max
            ==> outcome_view(result).status == STATUS_BAD_REQUEST,
        match result {
            Ok(reply) => {
                &&& query_violation(
                    text_view(query.name),
                    query.page,
                    query.page_size,
                    state.config.page_size_max,
                ) is None
                &&& reply@ == search_reply(
                    find_rows(
                        state.category_repository.rows(),
                        text_view(query.name),
                        requested_page(query.page) as int,
                        requested_page_size(query.page_size, state.config.page_size_default) as int,
                    ),
                    requested_page(query.page),
                    requested_page_size(query.page_size, state.config.page_size_default),
                    state.config.page_size_default,
                )
            },
            Err(error) => {
                &&& error@.kind != ErrorKind::NotFound
                &&& error@.kind == ErrorKind::BadRequest <==> query_violation(
                    text_view(query.name),
                    query.page,
                    query.page_size,
                    state.config.page_size_max,
                ) is Some
                &&& error@.kind == ErrorKind::BadRequest ==> Some(error@.message)
                    == query_violation(
                    text_view(query.name),
                    query.page,
                    query.page_size,
                    state.config.page_size_max,
                )
            },
        },
{
    query.validate(&state.config)?;
    let page: u32 = match query.page {
        Some(page) => page,
        None => 1,
    };
    let page_size: u32 = match query.page_size {
        Some(page_size) => page_size,
        None => state.config.page_size_default,
    };
    let name = clone_text(&query.name);
    let result = crate::domain::categories::resources::find::execute(
        &state.category_repository,
        name,
        page,
        page_size,
    )?;
    Ok(found(result, page, page_size, &state.config))
}

} // verus!
