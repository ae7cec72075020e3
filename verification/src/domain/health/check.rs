//! Use case: report whether both dependencies answer.

use crate::domain::error::{DomainError, DomainErrorView};
use crate::domain::health::repository::{answer_view, HealthRepository};
use vstd::prelude::*;

verus! {

/// The health report for a store time and a cache answer.
pub open spec fn health_report(date_now: Seq<char>, redis_pong: Seq<char>) -> Seq<char> {
    "POSTGRES: "@ + date_now + " REDIS: "@ + redis_pong
}

/// Puts the two answers into one line.
pub fn report(date_now: &str, redis_pong: &str) -> (text: String)
    ensures
        text@ == health_report(date_now@, redis_pong@),
{
    let mut text = "POSTGRES: ".to_owned();
    text.append(date_now);
    text.append(" REDIS: ");
    text.append(redis_pong);
    text
}

/// Mathematical value of the outcome of the health check.
pub open spec fn outcome_view(result: Result<String, DomainError>) -> Result<
    Seq<char>,
    DomainErrorView,
> {
    match result {
        Ok(text) => Ok(text@),
        Err(error) => Err(error@),
    }
}

/// What the check comes to for the answers of its two probes: the report
/// where both answered, else the error of the first that failed. The
/// cache's answer counts for nothing once the store has failed.
pub open spec fn health_outcome(
    date_now: Result<Seq<char>, DomainErrorView>,
    redis_pong: Result<Seq<char>, DomainErrorView>,
) -> Result<Seq<char>, DomainErrorView> {
    match date_now {
        Err(error) => Err(error),
        Ok(now) => match redis_pong {
            Err(error) => Err(error),
            Ok(pong) => Ok(health_report(now, pong)),
        },
    }
}

/// Whether the check on `health_repository` can come to `outcome`: whether
/// `outcome` is what [`health_outcome`] makes of an answer that the store
/// can give and, where the store answers, of one that the cache can give.
pub open spec fn can_come_to<H: HealthRepository>(
    health_repository: &H,
    outcome: Result<Seq<char>, DomainErrorView>,
) -> bool {
    exists|date_now: Result<Seq<char>, DomainErrorView>, redis_pong: Result<Seq<char>, DomainErrorView>|
        {
            &&& health_repository.can_tell_now(date_now)
            &&& date_now is Ok ==> health_repository.can_answer_ping(redis_pong)
            &&& outcome == #[trigger] health_outcome(date_now, redis_pong)
        }
}

/// Ends the check once the store has told its time: the report where the
/// cache answered, the cache's error where it did not.
pub fn conclude(date_now: &str, redis_pong: Result<String, DomainError>) -> (result: Result<
    String,
    DomainError,
>)
    ensures
        outcome_view(result) == health_outcome(Ok(date_now@), answer_view(redis_pong)),
{
    match redis_pong {
        Ok(pong) => Ok(report(date_now, pong.as_str())),
        Err(error) => Err(error),
    }
}

/// Asks the store for its time, then the cache for its answer, and reports
/// both in one line. The first probe that fails ends the check with its
/// error; the cache is not asked once the store has failed.
///
/// The result is what [`health_outcome`] makes of the answers that the
/// probes gave. Which answers they give is theirs to say, so the contract
/// names them by what the repository can answer, see [`can_come_to`].
pub fn execute<H: HealthRepository>(health_repository: &H) -> (result: Result<String, DomainError>)
    ensures
        can_come_to(health_repository, outcome_view(result)),
{
    let date_now = health_repository.get_now();
    match date_now {
        Err(error) => {
            assert(Err::<Seq<char>, DomainErrorView>(error@) == health_outcome(
                answer_view(date_now),
                Ok(Seq::<char>::empty()),
            ));
            Err(error)
        },
        Ok(now) => {
            let redis_pong = health_repository.ping();
            assert(health_outcome(Ok(now@), answer_view(redis_pong)) == health_outcome(
                answer_view(date_now),
                answer_view(redis_pong),
            ));
            conclude(now.as_str(), redis_pong)
        },
    }
}

} // verus!
