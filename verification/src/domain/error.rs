//! The error taxonomy shared by every entry point.

use vstd::prelude::*;

verus! {

/// What went wrong, with a message for whoever is allowed to read it.
#[derive(Debug)]
pub enum DomainError {
    /// The addressed resource does not exist.
    NotFound(String),
    /// The input was malformed or failed validation.
    BadRequest(String),
    /// Storage, cache, broker or other infrastructure failed.
    InternalServerError(String),
}

/// The three kinds of failure, without their messages.
#[derive(Debug, Clone, Copy, PartialEq, Eq, Structural)]
pub enum ErrorKind {
    NotFound,
    BadRequest,
    InternalServerError,
}

/// Mathematical value of a [`DomainError`]: its kind and the characters of
/// its message.
pub struct DomainErrorView {
    pub kind: ErrorKind,
    pub message: Seq<char>,
}

impl View for DomainError {
    type V = DomainErrorView;

    open spec fn view(&self) -> DomainErrorView {
        match self {
            DomainError::NotFound(m) => DomainErrorView { kind: ErrorKind::NotFound, message: m@ },
            DomainError::BadRequest(m) => DomainErrorView {
                kind: ErrorKind::BadRequest,
                message: m@,
            },
            DomainError::InternalServerError(m) => DomainErrorView {
                kind: ErrorKind::InternalServerError,
                message: m@,
            },
        }
    }
}

impl DeepView for DomainError {
    type V = DomainErrorView;

    open spec fn deep_view(&self) -> DomainErrorView {
        self@
    }
}

impl DomainError {
    /// The kind of this error.
    pub fn kind(&self) -> (kind: ErrorKind)
        ensures
            kind == self@.kind,
    {
        match self {
            DomainError::NotFound(_) => ErrorKind::NotFound,
            DomainError::BadRequest(_) => ErrorKind::BadRequest,
            DomainError::InternalServerError(_) => ErrorKind::InternalServerError,
        }
    }

    /// The message carried by this error, exactly as it was given.
    pub fn to_string(&self) -> (text: String)
        ensures
            text@ == self@.message,
    {
        match self {
            DomainError::NotFound(m) => m.clone(),
            DomainError::BadRequest(m) => m.clone(),
            DomainError::InternalServerError(m) => m.clone(),
        }
    }
}

impl Clone for DomainError {
    fn clone(&self) -> (copy: Self)
        ensures
            copy@ == self@,
    {
        match self {
            DomainError::NotFound(m) => DomainError::NotFound(m.clone()),
            DomainError::BadRequest(m) => DomainError::BadRequest(m.clone()),
            DomainError::InternalServerError(m) => DomainError::InternalServerError(m.clone()),
        }
    }
}

} // verus!
