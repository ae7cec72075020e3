//! The rules that requests are held to before the domain sees them.

use crate::api::config::Config;
use crate::domain::error::{DomainError, DomainErrorView, ErrorKind};
use vstd::prelude::*;

verus! {

/// Most characters that a category name, or a name to search for, may have.
pub const NAME_MAX_LENGTH: usize = 64;

/// Most characters that a category description may have.
pub const DESCRIPTION_MAX_LENGTH: usize = 512;

/// The error that tells of the broken rule `message`.
pub open spec fn bad_request(message: Seq<char>) -> DomainErrorView {
    DomainErrorView { kind: ErrorKind::BadRequest, message }
}

/// Whether a validation result tells of exactly the broken rule
/// `violation`, if any.
pub open spec fn reports(result: Result<(), DomainError>, violation: Option<Seq<char>>) -> bool {
    match result {
        Ok(_) => violation is None,
        Err(error) => violation == Some(error@.message) && error@.kind == ErrorKind::BadRequest,
    }
}

/// Whether `text` has at most `max` characters.
pub fn validate_length(text: &str, max: usize) -> (valid: bool)
    ensures
        valid == (text@.len() <= max),
{
    text.unicode_len() <= max
}

/// The page size rule: a page may not be larger than the settings allow.
pub open spec fn page_size_violation(page_size: u32, page_size_max: u32) -> Option<Seq<char>> {
    if page_size > page_size_max {
        Some("page_size greater than the max"@)
    } else {
        None
    }
}

/// Checks the page size rule.
pub fn validate_page_size_max(page_size: u32, config: &Config) -> (result: Result<(), DomainError>)
    ensures
        reports(result, page_size_violation(page_size, config.page_size_max)),
{
    if page_size > config.page_size_max {
        return Err(DomainError::BadRequest("page_size greater than the max".to_owned()));
    }
    Ok(())
}

/// The `x-user-id` header of a request, as the transport found it.
#[derive(Debug)]
pub enum UserIdHeader {
    /// The request has no such header.
    Missing,
    /// The header holds bytes that are not visible ASCII text.
    Opaque,
    /// The header holds this text.
    Text(String),
}

/// Mathematical value of a [`UserIdHeader`].
pub enum UserIdHeaderView {
    Missing,
    Opaque,
    Text(Seq<char>),
}

impl View for UserIdHeader {
    type V = UserIdHeaderView;

    open spec fn view(&self) -> UserIdHeaderView {
        match self {
            UserIdHeader::Missing => UserIdHeaderView::Missing,
            UserIdHeader::Opaque => UserIdHeaderView::Opaque,
            UserIdHeader::Text(text) => UserIdHeaderView::Text(text@),
        }
    }
}

/// The identifier that `uuid::Uuid::parse_str` reads from `text`, as the
/// number that `Uuid::as_u128` gives; `None` where it reads none.
pub uninterp spec fn parsed_uuid(text: Seq<char>) -> Option<u128>;

/// Reads an identifier with `uuid::Uuid::parse_str`. The contract names the
/// result and claims nothing else of it: which texts are identifiers is the
/// parser's to say.
#[verifier::external_body]
fn parse_uuid(text: &str) -> (id: Option<u128>)
    ensures
        id == parsed_uuid(text@),
{
    match uuid::Uuid::parse_str(text) {
        Ok(id) => Some(id.as_u128()),
        Err(_) => None,
    }
}

/// Mathematical value of the outcome of reading a user identifier.
pub open spec fn user_id_view(result: Result<Option<u128>, DomainError>) -> Result<
    Option<u128>,
    DomainErrorView,
> {
    match result {
        Ok(id) => Ok(id),
        Err(error) => Err(error@),
    }
}

/// What a parsed header text means: the identifier, or the error that
/// tells that the text is none.
pub open spec fn user_id_of_parsed(parsed: Option<u128>) -> Result<Option<u128>, DomainErrorView> {
    match parsed {
        Some(id) => Ok(Some(id)),
        None => Err(bad_request("Invalid uuid in header"@)),
    }
}

/// The user identifier rule. A header that is missing is an error only
/// where one is required; a header that is there must hold an identifier.
pub open spec fn user_id_rule(header: UserIdHeaderView, required: bool) -> Result<
    Option<u128>,
    DomainErrorView,
> {
    match header {
        UserIdHeaderView::Missing => if required {
            Err(bad_request("Uuid is required in header"@))
        } else {
            Ok(None)
        },
        UserIdHeaderView::Opaque => Err(bad_request("Invalid value in header"@)),
        UserIdHeaderView::Text(text) => user_id_of_parsed(parsed_uuid(text)),
    }
}

/// Turns what the parser read from a header text into the outcome of the
/// user identifier rule.
pub fn user_id_from_parsed(parsed: Option<u128>) -> (result: Result<Option<u128>, DomainError>)
    ensures
        user_id_view(result) == user_id_of_parsed(parsed),
{
    match parsed {
        Some(id) => Ok(Some(id)),
        None => Err(DomainError::BadRequest("Invalid uuid in header".to_owned())),
    }
}

/// Reads the user identifier from the `x-user-id` header, see
/// [`user_id_rule`].
pub fn get_user_id_by_headers(header: &UserIdHeader, required: bool) -> (result: Result<
    Option<u128>,
    DomainError,
>)
    ensures
        user_id_view(result) == user_id_rule(header@, required),
{
    match header {
        UserIdHeader::Missing => {
            if required {
                Err(DomainError::BadRequest("Uuid is required in header".to_owned()))
            } else {
                Ok(None)
            }
        },
        UserIdHeader::Opaque => Err(
            DomainError::BadRequest("Invalid value in header".to_owned()),
        ),
        UserIdHeader::Text(text) => user_id_from_parsed(parse_uuid(text.as_str())),
    }
}

} // verus!
