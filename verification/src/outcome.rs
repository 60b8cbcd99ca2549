//! Status codes, and the outcome of a request guard.

use vstd::prelude::*;

verus! {

/// An HTTP status.
#[derive(Debug, Clone, Copy, PartialEq, Eq, Structural)]
pub struct Status {
    pub code: u16,
}

impl Status {
    /// `500`: the server met a condition that keeps it from answering.
    pub fn internal_server_error() -> (status: Status)
        ensures
            status.code == 500,
    {
        Status { code: 500 }
    }

    /// `503`: the server cannot answer at present.
    pub fn service_unavailable() -> (status: Status)
        ensures
            status.code == 503,
    {
        Status { code: 503 }
    }
}

/// What a request guard decides.
#[derive(Debug)]
pub enum Outcome<S, E> {
    /// The guard passes, with this value.
    Success(S),
    /// The guard fails: the request is answered with this status.
    Failure((Status, E)),
    /// The request is forwarded to the next route that matches it.
    Forward(()),
}

/// Success with the value, or failure with `status` and the error.
pub fn into_outcome<S, E>(result: Result<S, E>, status: Status) -> (outcome: Outcome<S, E>)
    ensures
        outcome == (match result {
            Ok(value) => Outcome::Success(value),
            Err(error) => Outcome::Failure((status, error)),
        }),
{
    match result {
        Ok(value) => Outcome::Success(value),
        Err(error) => Outcome::Failure((status, error)),
    }
}

} // verus!
