//! Why an operation on a task handle did not go through.

use vstd::prelude::*;

verus! {

/// The ready flag was held by the other side at the moment of the attempt.
#[derive(Debug, Clone, Copy, PartialEq, Eq)]
pub struct TryLockError;

/// A value that a non-blocking send could not place; it carries the value back.
#[derive(Debug)]
pub enum TrySendError<T> {
    /// The single slot still holds the previous value.
    Full(T),
    /// The receiving handle is gone.
    Closed(T),
}

/// A value that a blocking send could not place because the receiving handle
/// is gone; it carries the value back.
#[derive(Debug)]
pub struct SendError<T>(pub T);

/// Why a non-blocking receive returned nothing.
#[derive(Debug, Clone, Copy, PartialEq, Eq)]
pub enum TryRecvError {
    /// The slot is empty and the sending handle is alive.
    Empty,
    /// The slot is empty and the sending handle is gone.
    Disconnected,
}

/// Failure of one operation on a task handle.
#[derive(Debug)]
pub enum TaskError<T> {
    Mutex(TryLockError),
    ChannelTrySend(TrySendError<T>),
    ChannelSend(SendError<T>),
    ChannelTryRecev(TryRecvError),
}

impl<T> TrySendError<T> {
    /// The value that was not sent.
    pub open spec fn value(self) -> T {
        match self {
            TrySendError::Full(v) => v,
            TrySendError::Closed(v) => v,
        }
    }

    /// Gives the unsent value back.
    pub fn into_inner(self) -> (v: T)
        ensures
            v == self.value(),
    {
        match self {
            TrySendError::Full(v) => v,
            TrySendError::Closed(v) => v,
        }
    }
}

impl<T> TaskError<T> {
    /// True when the failure means that the paired handle is gone, so that no
    /// later attempt can succeed.
    pub open spec fn spec_is_closed(&self) -> bool {
        match *self {
            TaskError::ChannelTrySend(TrySendError::Closed(_)) => true,
            TaskError::ChannelSend(_) => true,
            TaskError::ChannelTryRecev(TryRecvError::Disconnected) => true,
            _ => false,
        }
    }

    /// Tells a closed channel, which ends a worker loop, from the failures
    /// that only mean "try again on the next cycle".
    #[verifier::when_used_as_spec(spec_is_closed)]
    pub fn is_closed(&self) -> (b: bool)
        ensures
            b == self.spec_is_closed(),
    {
        match self {
            TaskError::ChannelTrySend(TrySendError::Closed(_)) => true,
            TaskError::ChannelSend(_) => true,
            TaskError::ChannelTryRecev(TryRecvError::Disconnected) => true,
            _ => false,
        }
    }
}

impl<T> From<TryLockError> for TaskError<T> {
    fn from(value: TryLockError) -> (e: Self) {
        TaskError::Mutex(value)
    }
}

impl<T> vstd::std_specs::convert::FromSpecImpl<TryLockError> for TaskError<T> {
    open spec fn obeys_from_spec() -> bool {
        true
    }

    open spec fn from_spec(value: TryLockError) -> Self {
        TaskError::Mutex(value)
    }
}

impl<T> From<TrySendError<T>> for TaskError<T> {
    fn from(value: TrySendError<T>) -> (e: Self) {
        TaskError::ChannelTrySend(value)
    }
}

impl<T> vstd::std_specs::convert::FromSpecImpl<TrySendError<T>> for TaskError<T> {
    open spec fn obeys_from_spec() -> bool {
        true
    }

    open spec fn from_spec(value: TrySendError<T>) -> Self {
        TaskError::ChannelTrySend(value)
    }
}

impl<T> From<SendError<T>> for TaskError<T> {
    fn from(value: SendError<T>) -> (e: Self) {
        TaskError::ChannelSend(value)
    }
}

impl<T> vstd::std_specs::convert::FromSpecImpl<SendError<T>> for TaskError<T> {
    open spec fn obeys_from_spec() -> bool {
        true
    }

    open spec fn from_spec(value: SendError<T>) -> Self {
        TaskError::ChannelSend(value)
    }
}

impl<T> From<TryRecvError> for TaskError<T> {
    fn from(value: TryRecvError) -> (e: Self) {
        TaskError::ChannelTryRecev(value)
    }
}

impl<T> vstd::std_specs::convert::FromSpecImpl<TryRecvError> for TaskError<T> {
    open spec fn obeys_from_spec() -> bool {
        true
    }

    open spec fn from_spec(value: TryRecvError) -> Self {
        TaskError::ChannelTryRecev(value)
    }
}

} // verus!
