//! The probes that the health check asks of its two dependencies.

use crate::domain::error::{DomainError, DomainErrorView};
use vstd::prelude::*;

verus! {

/// Mathematical value of what a probe answered: the characters of its
/// answer, or the error it failed with.
pub open spec fn answer_view(answer: Result<String, DomainError>) -> Result<
    Seq<char>,
    DomainErrorView,
> {
    match answer {
        Ok(text) => Ok(text@),
        Err(error) => Err(error@),
    }
}

/// Access to the primary store and to the cache, as far as the health
/// check needs it.
///
/// What a probe answers depends on the dependency behind it and on the
/// moment, so none of the two is a function of the repository. An
/// implementation says which answers its probes can give at all; one that
/// says nothing can give any.
pub trait HealthRepository {
    /// Whether `get_now` can give `answer`.
    open spec fn can_tell_now(&self, answer: Result<Seq<char>, DomainErrorView>) -> bool {
        true
    }

    /// Whether `ping` can give `answer`.
    open spec fn can_answer_ping(&self, answer: Result<Seq<char>, DomainErrorView>) -> bool {
        true
    }

    /// The current time of the primary store, as text.
    fn get_now(&self) -> (answer: Result<String, DomainError>)
        ensures
            self.can_tell_now(answer_view(answer)),
    ;

    /// The answer of the cache to a liveness probe.
    fn ping(&self) -> (answer: Result<String, DomainError>)
        ensures
            self.can_answer_ping(answer_view(answer)),
    ;
}

} // verus!
