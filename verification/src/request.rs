//! Requests to the worker and what becomes of them.
use crate::error::{Failure, FailureModel, PlatformError};
use crate::protocol::answer_of;
use crate::snapshot::{decorate_snapshot, ConnectionSnapshot, Snapshot, SnapshotModel};
use vstd::prelude::*;

verus! {

/// How long a request waits for its answer.
pub const REQUEST_TIMEOUT_MS: u64 = 30_000;

/// What came of a request.
#[derive(Debug)]
pub enum Received {
    /// The worker no longer takes messages.
    Unsent,
    /// The worker did not answer in time.
    TimedOut,
    /// The worker dropped the request.
    Dropped,
    Answered(Result<ConnectionSnapshot, PlatformError>),
}

/// What the caller of a request gets.
pub open spec fn outcome(received: Received, power_notifications: bool) -> Result<
    SnapshotModel,
    FailureModel,
> {
    match received {
        Received::Unsent | Received::Dropped => Err(Failure::WorkerUnavailable),
        Received::TimedOut => Err(Failure::OperationTimedOut),
        Received::Answered(Ok(snapshot)) => Ok(
            Snapshot { power_notifications_available: power_notifications, ..snapshot@ },
        ),
        Received::Answered(Err(error)) => Err(error@),
    }
}

/// What the caller of a request gets: the worker's answer, marked with whether the host
/// hears of sleep and wake-up, or why there is none.
pub fn conclude_request(received: Received, power_notifications: bool) -> (result: Result<
    ConnectionSnapshot,
    PlatformError,
>)
    ensures
        answer_of(result) == outcome(received, power_notifications),
{
    match received {
        Received::Unsent | Received::Dropped => Err(Failure::WorkerUnavailable),
        Received::TimedOut => Err(Failure::OperationTimedOut),
        Received::Answered(Ok(snapshot)) => Ok(decorate_snapshot(snapshot, power_notifications)),
        Received::Answered(Err(error)) => Err(error),
    }
}

/// An answer reaches the caller as it is, but for the mark of the host. Without one the
/// caller hears whether the worker was slow or gone.
pub proof fn answers_reach_the_caller(received: Received, power_notifications: bool)
    ensures
        match received {
            Received::Answered(Ok(snapshot)) => {
                &&& outcome(received, power_notifications) matches Ok(seen)
                &&& seen.power_notifications_available == power_notifications
                &&& seen.phase == snapshot.phase
                &&& seen.remote_name == snapshot@.remote_name
                &&& seen.remote_model == snapshot.remote_model
                &&& seen.capabilities == snapshot.capabilities
                &&& seen.voice_state == snapshot.voice_state
                &&& seen.generation == snapshot.generation
                &&& seen.decoded_samples == snapshot.decoded_samples
                &&& seen.reconnect_attempt == snapshot.reconnect_attempt
                &&& seen.last_error == snapshot@.last_error
            },
            Received::Answered(Err(error)) => outcome(received, power_notifications) == Err::<
                SnapshotModel,
                FailureModel,
            >(error@),
            Received::TimedOut => outcome(received, power_notifications) == Err::<
                SnapshotModel,
                FailureModel,
            >(Failure::OperationTimedOut),
            Received::Unsent | Received::Dropped => outcome(received, power_notifications) == Err::<
                SnapshotModel,
                FailureModel,
            >(Failure::WorkerUnavailable),
        },
{
}

} // verus!
