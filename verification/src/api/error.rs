//! How domain errors are told to HTTP callers.

use crate::api::utils::response::{
    Reply, ReplyBody, ReplyBodyView, ReplyView, STATUS_BAD_REQUEST, STATUS_INTERNAL_SERVER_ERROR,
    STATUS_NOT_FOUND,
};
use crate::domain::error::{DomainError, DomainErrorView, ErrorKind};
use vstd::prelude::*;

verus! {

/// Body of an error reply.
#[derive(Debug)]
pub struct ErrorResponse {
    pub message: String,
}

impl ErrorResponse {
    /// An error body with the given message.
    pub fn new(message: &str) -> (response: Self)
        ensures
            response.message@ == message@,
    {
        Self { message: message.to_owned() }
    }
}

/// The status code that tells of an error of kind `kind`.
pub open spec fn status_of(kind: ErrorKind) -> u16 {
    match kind {
        ErrorKind::NotFound => STATUS_NOT_FOUND,
        ErrorKind::BadRequest => STATUS_BAD_REQUEST,
        ErrorKind::InternalServerError => STATUS_INTERNAL_SERVER_ERROR,
    }
}

/// The message that callers are shown for `error`: its own message, unless
/// the failure was internal. Internal detail stays inside.
pub open spec fn public_message(error: DomainErrorView) -> Seq<char> {
    match error.kind {
        ErrorKind::InternalServerError => "Internal Server Error"@,
        _ => error.message,
    }
}

/// The reply that tells of `error`.
pub open spec fn error_reply(error: DomainErrorView) -> ReplyView {
    ReplyView {
        status: status_of(error.kind),
        body: ReplyBodyView::Error { message: public_message(error) },
    }
}

impl DomainError {
    /// The reply that tells a caller of this error: 404 for what was not
    /// found, 400 for a bad request, each with the error's message, and 500
    /// with a fixed message for everything else.
    pub fn error_response(&self) -> (reply: Reply)
        ensures
            reply@ == error_reply(self@),
    {
        match self {
            DomainError::NotFound(msg) => Reply {
                status: STATUS_NOT_FOUND,
                body: ReplyBody::Error(ErrorResponse::new(msg.as_str())),
            },
            DomainError::BadRequest(msg) => Reply {
                status: STATUS_BAD_REQUEST,
                body: ReplyBody::Error(ErrorResponse::new(msg.as_str())),
            },
            DomainError::InternalServerError(_) => Reply {
                status: STATUS_INTERNAL_SERVER_ERROR,
                body: ReplyBody::Error(ErrorResponse::new("Internal Server Error")),
            },
        }
    }

    /// The status code that tells of this error.
    pub fn status_code(&self) -> (status: u16)
        ensures
            status == status_of(self@.kind),
    {
        match self {
            DomainError::NotFound(_) => STATUS_NOT_FOUND,
            DomainError::BadRequest(_) => STATUS_BAD_REQUEST,
            DomainError::InternalServerError(_) => STATUS_INTERNAL_SERVER_ERROR,
        }
    }
}

/// Mathematical value of what a route returns.
pub open spec fn outcome_view(outcome: Result<Reply, DomainError>) -> ReplyView {
    match outcome {
        Ok(reply) => reply@,
        Err(error) => error_reply(error@),
    }
}

/// The reply that goes out for what a route returned: its reply, or the
/// reply that tells of its error.
pub fn into_reply(outcome: Result<Reply, DomainError>) -> (reply: Reply)
    ensures
        reply@ == outcome_view(outcome),
{
    match outcome {
        Ok(reply) => reply,
        Err(error) => error.error_response(),
    }
}

/// The status code and the error kinds stand for each other, and no error
/// is told with a status of success.
pub proof fn lemma_status_of_is_faithful(first: ErrorKind, second: ErrorKind)
    ensures
        status_of(first) == status_of(second) <==> first == second,
        status_of(first) >= 400,
{
}

} // verus!
