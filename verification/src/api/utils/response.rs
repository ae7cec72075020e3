//! The reply envelope and the replies themselves.

use crate::api::config::Config;
use crate::api::error::ErrorResponse;
use crate::api::resources::categories::dto::ResponseCategory;
use crate::domain::categories::model::CategoryView;
use vstd::prelude::*;

verus! {

/// Number of pages that `count` records fill when a page holds `page_size`
/// of them: `count / page_size`, rounded up. With pages that hold nothing
/// no number of pages is enough for any record: the result is then the
/// largest number there is, or 0 where there is no record either.
pub open spec fn page_count(count: u32, page_size: u32) -> u32 {
    if page_size == 0 {
        if count == 0 {
            0u32
        } else {
            u32::MAX
        }
    } else {
        ((count + page_size - 1) / (page_size as int)) as u32
    }
}

/// `page_count` is the least number of pages that hold `count` records.
pub proof fn lemma_page_count_is_ceiling(count: u32, page_size: u32)
    requires
        page_size > 0,
    ensures
        page_count(count, page_size) * page_size >= count,
        (page_count(count, page_size) - 1) * page_size < count || count == 0,
        page_count(count, page_size) <= count,
        count == 0 <==> page_count(count, page_size) == 0,
{
    let total = count + page_size - 1;
    let pages = total / (page_size as int);
    assert(0 <= pages && pages * page_size <= total < (pages + 1) * page_size
        && pages <= count) by (nonlinear_arith)
        requires
            pages == total / (page_size as int),
            page_size > 0,
            total == count + page_size - 1,
            count >= 0,
    ;
    assert((pages - 1) * page_size == pages * page_size - page_size) by (nonlinear_arith);
    assert((pages + 1) * page_size == pages * page_size + page_size) by (nonlinear_arith);
}

/// Pagination data of a reply.
#[derive(Debug, Clone, Copy, PartialEq, Eq, Structural)]
pub struct Meta {
    pub count: u32,
    pub page: u32,
    pub pages: u32,
}

/// The pagination data for page `page` of `count` records in pages of
/// `page_size`. A missing page is page 1, a missing count is one record, a
/// missing page size is `default_page_size`.
pub open spec fn meta_of(
    page: Option<u32>,
    count: Option<u32>,
    page_size: Option<u32>,
    default_page_size: u32,
) -> Meta {
    let page = if page is Some { page->0 } else { 1u32 };
    let count = if count is Some { count->0 } else { 1u32 };
    let page_size = if page_size is Some { page_size->0 } else { default_page_size };
    Meta { count, page, pages: page_count(count, page_size) }
}

impl Meta {
    /// Pagination data from what is known of the page, see [`meta_of`].
    pub fn new(page: Option<u32>, count: Option<u32>, page_size: Option<u32>, config: &Config) -> (meta:
        Self)
        ensures
            meta == meta_of(page, count, page_size, config.page_size_default),
    {
        let page: u32 = match page {
            Some(page) => page,
            None => 1,
        };
        let count: u32 = match count {
            Some(count) => count,
            None => 1,
        };
        let page_size: u32 = match page_size {
            Some(page_size) => page_size,
            None => config.page_size_default,
        };
        let pages: u32 = if page_size == 0 {
            if count == 0 {
                0
            } else {
                u32::MAX
            }
        } else {
            let total: u64 = count as u64 + page_size as u64 - 1;
            let pages: u64 = total / (page_size as u64);
            proof {
                lemma_page_count_is_ceiling(count, page_size);
            }
            pages as u32
        };
        Self { count, page, pages }
    }
}

/// The envelope of every reply that carries records.
#[derive(Debug)]
pub struct ApiResponse<T> {
    pub meta: Meta,
    pub records: Vec<T>,
}

impl<T> ApiResponse<T> {
    /// Wraps `records` with the pagination data of [`meta_of`].
    pub fn new(
        records: Vec<T>,
        page: Option<u32>,
        count: Option<u32>,
        page_size: Option<u32>,
        config: &Config,
    ) -> (response: Self)
        ensures
            response.meta == meta_of(page, count, page_size, config.page_size_default),
            response.records == records,
    {
        Self { meta: Meta::new(page, count, page_size, config), records }
    }
}

/// What a reply carries.
#[derive(Debug)]
pub enum ReplyBody {
    /// Nothing.
    Empty,
    /// Categories in their envelope.
    Categories(ApiResponse<ResponseCategory>),
    /// An error message.
    Error(ErrorResponse),
    /// A line of text.
    Text(String),
}

/// A reply: its status code and what it carries. The transport writes the
/// body as JSON.
#[derive(Debug)]
pub struct Reply {
    pub status: u16,
    pub body: ReplyBody,
}

/// Mathematical value of a [`ReplyBody`].
pub enum ReplyBodyView {
    Empty,
    Categories { meta: Meta, records: Seq<CategoryView> },
    Error { message: Seq<char> },
    Text { text: Seq<char> },
}

/// Mathematical value of a [`Reply`].
pub struct ReplyView {
    pub status: u16,
    pub body: ReplyBodyView,
}

impl View for ReplyBody {
    type V = ReplyBodyView;

    open spec fn view(&self) -> ReplyBodyView {
        match self {
            ReplyBody::Empty => ReplyBodyView::Empty,
            ReplyBody::Categories(response) => ReplyBodyView::Categories {
                meta: response.meta,
                records: response.records.deep_view(),
            },
            ReplyBody::Error(error) => ReplyBodyView::Error { message: error.message@ },
            ReplyBody::Text(text) => ReplyBodyView::Text { text: text@ },
        }
    }
}

impl View for Reply {
    type V = ReplyView;

    open spec fn view(&self) -> ReplyView {
        ReplyView { status: self.status, body: self.body@ }
    }
}

/// Status of a reply that carries what was asked for.
pub const STATUS_OK: u16 = 200u16;

/// Status of the reply to a creation.
pub const STATUS_CREATED: u16 = 201u16;

/// Status of a reply that has nothing to carry.
pub const STATUS_NO_CONTENT: u16 = 204u16;

/// Status of the reply to a request that is malformed or invalid.
pub const STATUS_BAD_REQUEST: u16 = 400u16;

/// Status of the reply to a request for what does not exist.
pub const STATUS_NOT_FOUND: u16 = 404u16;

/// Status of the reply when the service itself failed.
pub const STATUS_INTERNAL_SERVER_ERROR: u16 = 500u16;

} // verus!
