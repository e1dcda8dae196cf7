//! The worker's routing decision.
//!
//! Each worker owns its loop: it pulls one URL at a time from the input
//! channel, runs the fetch cycle for it to the end, and only then pulls the
//! next. Per URL there is exactly one decision to make afterwards, and it
//! is made here: a record goes to the output channel, a failure goes to the
//! log with its classification — and never the other way round. A failed
//! fetch never ends the worker or the pool.

use vstd::prelude::*;
use crate::errors::FetchError;
use crate::record::PricePoint;

verus! {

/// What a worker does with one decided URL.
#[derive(Debug)]
pub enum WorkerAction {
    /// Send the record to the output channel.
    Forward(PricePoint),
    /// Log the classified failure (with the URL and, for a capture, the
    /// debug-file path) and go on to the next URL.
    LogFailure(FetchError),
}

/// Route one decided URL: successes are forwarded, failures are logged,
/// each exactly as it came.
pub fn route_outcome(outcome: Result<PricePoint, FetchError>) -> (a: WorkerAction)
    ensures
        match outcome {
            Ok(point) => a == (WorkerAction::Forward(point)),
            Err(error) => a == (WorkerAction::LogFailure(error)),
        },
{
    match outcome {
        Ok(point) => WorkerAction::Forward(point),
        Err(error) => WorkerAction::LogFailure(error),
    }
}

} // verus!
