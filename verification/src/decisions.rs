//! What a handle makes of what the ready flag and the queues answer.
//!
//! The flag and the queues are shared with another thread, so what they
//! answer is not known beforehand. What follows from each answer is decided
//! here, for every answer there can be.

use vstd::prelude::*;
use crate::errors::{SendError, TaskError, TryLockError, TryRecvError, TrySendError};

verus! {

/// The answer of a submission or a receive that found the ready flag held:
/// nothing is touched.
pub open spec fn spec_contended<A, T>() -> Result<A, TaskError<T>> {
    Err(TaskError::Mutex(TryLockError))
}

/// The answer of a submission or a receive that found the ready flag held:
/// nothing is touched.
#[verifier::when_used_as_spec(spec_contended)]
pub fn contended<A, T>() -> (answer: Result<A, TaskError<T>>)
    ensures
        answer == spec_contended::<A, T>(),
{
    Err(TaskError::Mutex(TryLockError))
}

/// The answer of a submission that found the ready flag down: a request is
/// outstanding, nothing is sent.
pub open spec fn spec_busy<T>() -> Result<bool, TaskError<T>> {
    Ok(false)
}

/// The answer of a submission that found the ready flag down: a request is
/// outstanding, nothing is sent.
#[verifier::when_used_as_spec(spec_busy)]
pub fn busy<T>() -> (answer: Result<bool, TaskError<T>>)
    ensures
        answer == spec_busy::<T>(),
{
    Ok(false)
}

/// What a submission does once it knows what the ready flag gave.
pub enum Admission<T> {
    /// Nothing is sent and the flag is not written; the submission ends with
    /// this answer.
    Refused(Result<bool, TaskError<T>>),
    /// The request goes to the request queue.
    Send,
}

/// The step of a submission for each thing that taking the ready flag can
/// give: `None` where the other side held the flag, else the flag's value.
/// A held flag ends the submission as contended, a flag that is down ends
/// it as busy, and in both cases nothing is sent and the flag is left as it
/// is; only a flag that is up lets the request go to the queue.
pub open spec fn spec_admission<T>(flag: Option<bool>) -> Admission<T> {
    match flag {
        None => Admission::Refused(spec_contended::<bool, T>()),
        Some(false) => Admission::Refused(spec_busy::<T>()),
        Some(true) => Admission::Send,
    }
}

/// The step of a submission for each thing that taking the ready flag can
/// give: `None` where the other side held the flag, else the flag's value.
#[verifier::when_used_as_spec(spec_admission)]
pub fn admission<T>(flag: Option<bool>) -> (step: Admission<T>)
    ensures
        step == spec_admission::<T>(flag),
{
    match flag {
        None => Admission::Refused(contended()),
        Some(false) => Admission::Refused(busy()),
        Some(true) => Admission::Send,
    }
}

/// What follows a non-blocking send of a request: whether the ready flag is
/// lowered, and the answer of the submission. The flag is lowered only once
/// the request is queued; a request that was refused comes back in the
/// answer and leaves the flag up.
pub open spec fn spec_submitted<T>(sent: Result<(), TrySendError<T>>) -> (bool, Result<
    bool,
    TaskError<T>,
>) {
    match sent {
        Ok(()) => (true, Ok(true)),
        Err(e) => (false, Err(TaskError::ChannelTrySend(e))),
    }
}

/// What follows a non-blocking send of a request: whether the ready flag is
/// lowered, and the answer of the submission.
#[verifier::when_used_as_spec(spec_submitted)]
pub fn submitted<T>(sent: Result<(), TrySendError<T>>) -> (r: (bool, Result<bool, TaskError<T>>))
    ensures
        r == spec_submitted(sent),
{
    match sent {
        Ok(()) => (true, Ok(true)),
        Err(e) => (false, Err(TaskError::ChannelTrySend(e))),
    }
}

/// What follows a blocking send of a request: whether the ready flag is
/// lowered, and the answer of the submission. The flag is lowered whether or
/// not the worker was there to take the request.
pub open spec fn spec_called<T>(sent: Result<(), SendError<T>>) -> (bool, Result<
    bool,
    TaskError<T>,
>) {
    match sent {
        Ok(()) => (true, Ok(true)),
        Err(e) => (true, Err(TaskError::ChannelSend(e))),
    }
}

/// What follows a blocking send of a request: whether the ready flag is
/// lowered, and the answer of the submission.
#[verifier::when_used_as_spec(spec_called)]
pub fn called<T>(sent: Result<(), SendError<T>>) -> (r: (bool, Result<bool, TaskError<T>>))
    ensures
        r == spec_called(sent),
{
    match sent {
        Ok(()) => (true, Ok(true)),
        Err(e) => (true, Err(TaskError::ChannelSend(e))),
    }
}

/// The answer of a non-blocking receive or collection, given what the queue
/// gave.
pub open spec fn spec_received<T>(taken: Result<T, TryRecvError>) -> Result<T, TaskError<T>> {
    match taken {
        Ok(v) => Ok(v),
        Err(e) => Err(TaskError::ChannelTryRecev(e)),
    }
}

/// The answer of a non-blocking receive or collection, given what the queue
/// gave.
#[verifier::when_used_as_spec(spec_received)]
pub fn received<T>(taken: Result<T, TryRecvError>) -> (answer: Result<T, TaskError<T>>)
    ensures
        answer == spec_received(taken),
{
    match taken {
        Ok(v) => Ok(v),
        Err(e) => Err(TaskError::ChannelTryRecev(e)),
    }
}

/// The answer of a non-blocking response, given what the queue said to the
/// result.
pub open spec fn spec_responded<T>(sent: Result<(), TrySendError<T>>) -> Result<(), TaskError<T>> {
    match sent {
        Ok(()) => Ok(()),
        Err(e) => Err(TaskError::ChannelTrySend(e)),
    }
}

/// The answer of a non-blocking response, given what the queue said to the
/// result.
#[verifier::when_used_as_spec(spec_responded)]
pub fn responded<T>(sent: Result<(), TrySendError<T>>) -> (answer: Result<(), TaskError<T>>)
    ensures
        answer == spec_responded(sent),
{
    match sent {
        Ok(()) => Ok(()),
        Err(e) => Err(TaskError::ChannelTrySend(e)),
    }
}

/// The answer of a blocking response, given what the queue said to the
/// result.
pub open spec fn spec_returned<T>(sent: Result<(), SendError<T>>) -> Result<(), TaskError<T>> {
    match sent {
        Ok(()) => Ok(()),
        Err(e) => Err(TaskError::ChannelSend(e)),
    }
}

/// The answer of a blocking response, given what the queue said to the
/// result.
#[verifier::when_used_as_spec(spec_returned)]
pub fn returned<T>(sent: Result<(), SendError<T>>) -> (answer: Result<(), TaskError<T>>)
    ensures
        answer == spec_returned(sent),
{
    match sent {
        Ok(()) => Ok(()),
        Err(e) => Err(TaskError::ChannelSend(e)),
    }
}

} // verus!
