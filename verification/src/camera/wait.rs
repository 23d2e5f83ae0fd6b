//! Waiting for a frame in short steps, so that a shutdown is noticed.

use vstd::prelude::*;

verus! {

/// How a wait ended.
#[derive(Clone, Copy, Debug, PartialEq, Eq)]
pub enum WaitResult<T> {
    Ready(T),
    TimedOut,
    Shutdown,
}

/// What a waiter does next.
#[derive(Clone, Copy, Debug, PartialEq, Eq, Structural)]
pub enum WaitStep {
    /// Gives up because of a shutdown.
    Shutdown,
    /// Gives up because the deadline has passed.
    TimedOut,
    /// Waits once, for at most so many nanoseconds.
    Wait(u64),
}

/// The next step of a wait, given how many nanoseconds remain until the deadline. A shutdown comes
/// first, and no single wait is longer than what remains or than the maximum.
pub fn bounded_wait(shutdown: bool, remaining: u64, maximum: u64) -> (step: WaitStep)
    ensures
        step == if shutdown {
            WaitStep::Shutdown
        } else if remaining == 0 {
            WaitStep::TimedOut
        } else if remaining < maximum {
            WaitStep::Wait(remaining)
        } else {
            WaitStep::Wait(maximum)
        },
{
    if shutdown {
        WaitStep::Shutdown
    } else if remaining == 0 {
        WaitStep::TimedOut
    } else if remaining < maximum {
        WaitStep::Wait(remaining)
    } else {
        WaitStep::Wait(maximum)
    }
}

/// What a single wait means: a value ends the wait, a timeout of the single wait does not, and any
/// other failure is handed on.
pub fn after_wait<T, E>(result: Result<T, E>, is_timeout: bool) -> (ended: Option<
    Result<WaitResult<T>, E>,
>)
    ensures
        ended == match result {
            Ok(value) => Some(Ok::<WaitResult<T>, E>(WaitResult::Ready(value))),
            Err(error) => if is_timeout {
                None
            } else {
                Some(Err::<WaitResult<T>, E>(error))
            },
        },
{
    match result {
        Ok(value) => Some(Ok(WaitResult::Ready(value))),
        Err(error) => {
            if is_timeout {
                None
            } else {
                Some(Err(error))
            }
        },
    }
}

} // verus!
