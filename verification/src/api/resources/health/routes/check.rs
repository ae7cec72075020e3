//! Route: `GET /health`.

use crate::api::lib::AppState;
use crate::api::utils::response::{Reply, ReplyBody, ReplyBodyView, ReplyView, STATUS_OK};
use crate::domain::error::DomainError;
use crate::domain::health::check::can_come_to;
use crate::domain::health::repository::HealthRepository;
use vstd::prelude::*;

verus! {

/// The reply that carries a health report.
pub open spec fn healthy_reply(report: Seq<char>) -> ReplyView {
    ReplyView { status: STATUS_OK, body: ReplyBodyView::Text { text: report } }
}

/// Wraps a health report into its reply: 200 with the report as text.
pub fn healthy(report: String) -> (reply: Reply)
    ensures
        reply@ == healthy_reply(report@),
{
    Reply { status: STATUS_OK, body: ReplyBody::Text(report) }
}

/// Runs the health check and replies 200 with its report. A failed probe
/// comes back as its error.
///
/// The report, or the error, is an outcome that the check on the state's
/// health repository can come to, see [`can_come_to`].
pub fn handler<C, H: HealthRepository>(state: &AppState<C, H>) -> (result: Result<
    Reply,
    DomainError,
>)
    ensures
        match result {
            Ok(reply) => {
                &&& reply@.body matches ReplyBodyView::Text { text }
                &&& reply@ == healthy_reply(text)
                &&& can_come_to(&state.health_repository, Ok(text))
            },
            Err(error) => can_come_to(&state.health_repository, Err(error@)),
        },
{
    let result = crate::domain::health::check::execute(&state.health_repository)?;
    Ok(healthy(result))
}

} // verus!
