//! The outcomes a lookup can have.

use vstd::prelude::*;

verus! {

/// Why a lookup gave no record.
#[derive(Clone, Copy, Debug, PartialEq, Eq, Structural)]
pub enum Failure {
    /// The entity does not exist; this is an answer, not an error.
    NotFound,
    /// The answer could not be trusted or read; another attempt, or the next
    /// source, may do better.
    TryAgain,
    /// The configuration or the backend is broken; this source is to be
    /// treated as absent.
    Unavailable,
}

/// What a lookup hands to its caller: a value, or one of the three failures.
#[derive(Debug, PartialEq, Eq)]
pub enum Outcome<T> {
    Success(T),
    NotFound,
    TryAgain,
    Unavailable,
}

impl<T> Outcome<T> {
    /// The outcome that stands for a failure.
    pub open spec fn failed(failure: Failure) -> Outcome<T> {
        match failure {
            Failure::NotFound => Outcome::NotFound,
            Failure::TryAgain => Outcome::TryAgain,
            Failure::Unavailable => Outcome::Unavailable,
        }
    }

    /// The outcome that stands for the result of a stage.
    pub open spec fn of(result: Result<T, Failure>) -> Outcome<T> {
        match result {
            Ok(value) => Outcome::Success(value),
            Err(failure) => Self::failed(failure),
        }
    }

    /// The failure that this outcome reports, if it is one.
    pub open spec fn failure_of(self) -> Option<Failure> {
        match self {
            Outcome::Success(_) => None,
            Outcome::NotFound => Some(Failure::NotFound),
            Outcome::TryAgain => Some(Failure::TryAgain),
            Outcome::Unavailable => Some(Failure::Unavailable),
        }
    }

    /// Maps the result of a stage to the outcome handed to the caller.
    pub fn from_result(result: Result<T, Failure>) -> (outcome: Outcome<T>)
        ensures
            outcome == Self::of(result),
    {
        match result {
            Ok(value) => Outcome::Success(value),
            Err(Failure::NotFound) => Outcome::NotFound,
            Err(Failure::TryAgain) => Outcome::TryAgain,
            Err(Failure::Unavailable) => Outcome::Unavailable,
        }
    }

    /// The failure reported, or `None` for a success.
    pub fn failure(&self) -> (failure: Option<Failure>)
        ensures
            failure == self.failure_of(),
    {
        match self {
            Outcome::Success(_) => None,
            Outcome::NotFound => Some(Failure::NotFound),
            Outcome::TryAgain => Some(Failure::TryAgain),
            Outcome::Unavailable => Some(Failure::Unavailable),
        }
    }

    /// Whether a value was found.
    pub fn is_success(&self) -> (found: bool)
        ensures
            found == (*self is Success),
    {
        match self {
            Outcome::Success(_) => true,
            _ => false,
        }
    }
}

/// Every stage's failure is one of the three failures of the outcome, and a
/// success is never mistaken for one.
pub proof fn outcome_reports_the_failure<T>(result: Result<T, Failure>)
    ensures
        result is Ok <==> Outcome::of(result) is Success,
        result matches Err(failure) ==> Outcome::of(result).failure_of() == Some(failure),
        result matches Ok(value) ==> Outcome::of(result) == Outcome::Success(value),
{
}

} // verus!
