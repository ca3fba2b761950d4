//! The two handles of a task channel pair.
//!
//! A pair is made of two single-slot queues and a ready flag, all three
//! shared by a caller handle and a worker handle that may live on different
//! threads. The queues and the flag are tokio's; what another thread does to
//! them between two operations is not visible here. So a handle's operation
//! states what holds whatever the flag and the queues gave: its answer is
//! one that the sequential model of `protocol` gives in some state of the
//! pair. What follows from each thing that they can give is decided by the
//! functions of `decisions`, which the operations go through and whose
//! contracts are exact.
//!
//! The operations whose names begin with `try_` never wait. The others wait
//! on the calling thread, which must not be one that drives the tasks of an
//! async runtime: it would be held up for as long as the operation waits.

use std::sync::Arc;
use vstd::prelude::*;
use crate::decisions::{
    admission, called, contended, received, responded, returned, submitted, Admission,
};
use crate::errors::{SendError, TaskError, TryRecvError, TrySendError};
use crate::protocol::Pair;

verus! {

#[verifier::external_type_specification]
#[verifier::external_body]
#[verifier::reject_recursive_types(T)]
pub struct ExSender<T>(tokio::sync::mpsc::Sender<T>);

#[verifier::external_type_specification]
#[verifier::external_body]
#[verifier::reject_recursive_types(T)]
pub struct ExReceiver<T>(tokio::sync::mpsc::Receiver<T>);

#[verifier::external_type_specification]
#[verifier::external_body]
#[verifier::reject_recursive_types(T)]
pub struct ExMutex<T: ?Sized>(tokio::sync::Mutex<T>);

#[verifier::external_type_specification]
#[verifier::external_body]
#[verifier::reject_recursive_types(T)]
pub struct ExMutexGuard<'a, T: ?Sized>(tokio::sync::MutexGuard<'a, T>);

/// The number of values that each queue of a pair holds.
pub const SLOTS: usize = 1;

/// `tokio::sync::mpsc::channel`: the two ends of a new bounded queue. tokio
/// panics on a capacity of zero or above an eighth of `usize::MAX`, which
/// `requires` leaves out; this library makes queues of `SLOTS` values only.
/// Nothing is claimed of the ends.
#[verifier::external_body]
fn bounded_queue<T>(capacity: usize) -> (ends: (
    tokio::sync::mpsc::Sender<T>,
    tokio::sync::mpsc::Receiver<T>,
))
    requires
        0 < capacity <= usize::MAX / 8,
        capacity == SLOTS,
{
    tokio::sync::mpsc::channel::<T>(capacity)
}

/// `tokio::sync::mpsc::Sender::try_send`: places the value without waiting.
/// Whether it succeeds depends on the other thread; claimed is only that a
/// refusal carries the very value back.
#[verifier::external_body]
fn queue_try_send<T>(tx: &tokio::sync::mpsc::Sender<T>, value: T) -> (r: Result<
    (),
    TrySendError<T>,
>)
    ensures
        r matches Err(e) ==> e.value() == value,
{
    match tx.try_send(value) {
        Ok(()) => Ok(()),
        Err(tokio::sync::mpsc::error::TrySendError::Full(v)) => Err(TrySendError::Full(v)),
        Err(tokio::sync::mpsc::error::TrySendError::Closed(v)) => Err(TrySendError::Closed(v)),
    }
}

/// `tokio::sync::mpsc::Sender::send`, driven to its end by
/// `pollster::block_on`: waits on the calling thread until the slot is free.
/// Claimed is only that a refusal, which tokio gives when the receiving end is
/// gone, carries the very value back.
#[verifier::external_body]
fn queue_send<T>(tx: &tokio::sync::mpsc::Sender<T>, value: T) -> (r: Result<(), SendError<T>>)
    ensures
        r matches Err(e) ==> e.0 == value,
{
    match pollster::block_on(tx.send(value)) {
        Ok(()) => Ok(()),
        Err(e) => Err(SendError(e.0)),
    }
}

/// `tokio::sync::mpsc::Receiver::try_recv`: takes the value that waits, if
/// any, without waiting. Nothing is claimed of the outcome.
#[verifier::external_body]
fn queue_try_recv<T>(rx: &mut tokio::sync::mpsc::Receiver<T>) -> (r: Result<T, TryRecvError>) {
    match rx.try_recv() {
        Ok(v) => Ok(v),
        Err(tokio::sync::mpsc::error::TryRecvError::Empty) => Err(TryRecvError::Empty),
        Err(tokio::sync::mpsc::error::TryRecvError::Disconnected) => Err(
            TryRecvError::Disconnected,
        ),
    }
}

/// `tokio::sync::mpsc::Receiver::recv`, driven to its end by
/// `pollster::block_on`: waits on the calling thread for a value; `None`
/// means that every sender is gone and the queue is empty. Nothing is claimed
/// of the outcome.
#[verifier::external_body]
fn queue_recv<T>(rx: &mut tokio::sync::mpsc::Receiver<T>) -> (r: Option<T>) {
    pollster::block_on(rx.recv())
}

/// The value that a ready flag held when `tokio::sync::Mutex::new` made it.
/// What it holds later is what either side stored last, and has no name.
pub uninterp spec fn flag_made_with(flag: tokio::sync::Mutex<bool>) -> bool;

/// `tokio::sync::Mutex::new`: a new, unlocked ready flag that holds the
/// given value.
#[verifier::external_body]
fn flag_new(up: bool) -> (flag: tokio::sync::Mutex<bool>)
    ensures
        flag_made_with(flag) == up,
{
    tokio::sync::Mutex::new(up)
}

/// `Arc::clone`: a second owner of the same ready flag. The clone points to
/// the very flag that the given owner points to.
#[verifier::external_body]
fn flag_share(ready: &Arc<tokio::sync::Mutex<bool>>) -> (shared: Arc<tokio::sync::Mutex<bool>>)
    ensures
        shared == *ready,
{
    Arc::clone(ready)
}

/// `tokio::sync::Mutex::try_lock`: the guard of the ready flag, or `None`
/// where the other side holds it. Nothing is claimed of the outcome.
#[verifier::external_body]
fn flag_try_lock<'a>(ready: &'a Arc<tokio::sync::Mutex<bool>>) -> (held: Option<
    tokio::sync::MutexGuard<'a, bool>,
>) {
    ready.try_lock().ok()
}

/// `tokio::sync::Mutex::lock`, driven to its end by `pollster::block_on`:
/// waits on the calling thread until the ready flag is free.
#[verifier::external_body]
fn flag_lock<'a>(ready: &'a Arc<tokio::sync::Mutex<bool>>) -> (held: tokio::sync::MutexGuard<
    'a,
    bool,
>) {
    pollster::block_on(ready.lock())
}

/// The value of the ready flag under its guard. While a guard is held, no
/// one else reads or writes the flag, so that the value is the guard's own
/// until it is given up.
pub uninterp spec fn flag_held(held: tokio::sync::MutexGuard<'_, bool>) -> bool;

/// Reads the ready flag through its guard (`Deref` of
/// `tokio::sync::MutexGuard`): the value under the guard.
#[verifier::external_body]
fn flag_read(held: &tokio::sync::MutexGuard<'_, bool>) -> (up: bool)
    ensures
        up == flag_held(*held),
{
    **held
}

/// Stores into the ready flag through its guard (`DerefMut` of
/// `tokio::sync::MutexGuard`): the value under the guard is the one stored.
#[verifier::external_body]
fn flag_write(held: &mut tokio::sync::MutexGuard<'_, bool>, up: bool)
    ensures
        flag_held(*final(held)) == up,
{
    **held = up;
}

/// What a receive does while it holds the ready flag: it raises it, so that
/// the caller may submit.
fn raise_held(held: &mut tokio::sync::MutexGuard<'_, bool>)
    ensures
        flag_held(*final(held)),
{
    flag_write(held, true);
}

/// What a non-blocking submission does while it holds the ready flag. With
/// the flag down nothing is sent and the flag stays down. With the flag up
/// the request goes to the queue: once it is queued the flag is lowered; a
/// request that the queue refused comes back in the answer, and the flag
/// stays up.
fn submit_held<T>(
    held: &mut tokio::sync::MutexGuard<'_, bool>,
    tx: &tokio::sync::mpsc::Sender<T>,
    input: T,
) -> (r: Result<bool, TaskError<T>>)
    ensures
        !flag_held(*old(held)) ==> r == Ok::<bool, TaskError<T>>(false) && !flag_held(
            *final(held),
        ),
        flag_held(*old(held)) ==> (r == Ok::<bool, TaskError<T>>(true) && !flag_held(*final(held)))
            || (r matches Err(TaskError::ChannelTrySend(e)) && e.value() == input && flag_held(
            *final(held),
        )),
{
    let up = flag_read(held);
    match admission(Some(up)) {
        Admission::Refused(answer) => answer,
        Admission::Send => {
            let (lower, answer) = submitted(queue_try_send(tx, input));
            if lower {
                flag_write(held, false);
            }
            answer
        },
    }
}

/// What a blocking submission does while it holds the ready flag. With the
/// flag down nothing is sent and the flag stays down. With the flag up the
/// request goes to the queue, and the flag is lowered whether the request
/// was queued or came back because the worker is gone.
fn call_held<T>(
    held: &mut tokio::sync::MutexGuard<'_, bool>,
    tx: &tokio::sync::mpsc::Sender<T>,
    input: T,
) -> (r: Result<bool, TaskError<T>>)
    ensures
        !flag_held(*final(held)),
        !flag_held(*old(held)) ==> r == Ok::<bool, TaskError<T>>(false),
        flag_held(*old(held)) ==> r == Ok::<bool, TaskError<T>>(true) || (r matches Err(
            TaskError::ChannelSend(e),
        ) && e.0 == input),
{
    let up = flag_read(held);
    match admission(Some(up)) {
        Admission::Refused(answer) => answer,
        Admission::Send => {
            let (lower, answer) = called(queue_send(tx, input));
            if lower {
                flag_write(held, false);
            }
            answer
        },
    }
}

/// The worker's end of a pair: it waits for requests and hands results back.
#[derive(Debug)]
#[verifier::reject_recursive_types(I)]
#[verifier::reject_recursive_types(O)]
pub struct BackgroundTaskFunction<I, O> {
    input_rx: tokio::sync::mpsc::Receiver<I>,
    output_tx: tokio::sync::mpsc::Sender<O>,
    rts: Arc<tokio::sync::Mutex<bool>>,
}

/// The caller's end of a pair: it offers requests and picks results up.
#[derive(Debug)]
#[verifier::reject_recursive_types(I)]
#[verifier::reject_recursive_types(O)]
pub struct BackgroundTaskCaller<I, O> {
    input_tx: tokio::sync::mpsc::Sender<I>,
    output_rx: tokio::sync::mpsc::Receiver<O>,
    rts: Arc<tokio::sync::Mutex<bool>>,
}

impl<I, O> BackgroundTaskFunction<I, O> {
    /// The ready flag of the pair that this handle belongs to.
    pub closed spec fn flag(&self) -> tokio::sync::Mutex<bool> {
        *self.rts
    }

    /// Raises the ready flag, as `raise_held` says, then waits on the calling
    /// thread until a request arrives and returns it. `None` means that the
    /// caller handle is gone and no request is left: no more work will
    /// arrive. Which of the two comes, and which request, is for the caller's
    /// side to decide.
    pub fn recv(&mut self) -> (r: Option<I>) {
        {
            let mut held = flag_lock(&self.rts);
            raise_held(&mut held);
        }
        queue_recv(&mut self.input_rx)
    }

    /// Raises the ready flag and takes the request that waits, without
    /// waiting for either. Fails with `Mutex` where the caller holds the flag,
    /// and with `ChannelTryRecev` where no request waits.
    pub fn try_recv(&mut self) -> (r: Result<I, TaskError<I>>)
        ensures
            exists|s: Pair<I, O>, held: bool| s.worker && #[trigger] s.try_receive(held).1 == r,
    {
        match flag_try_lock(&self.rts) {
            None => {
                proof {
                    assert(Pair::<I, O>::fresh().try_receive(true).1 == contended::<I, I>());
                }
                return contended();
            },
            Some(mut held) => {
                raise_held(&mut held);
            },
        }
        let taken = queue_try_recv(&mut self.input_rx);
        let ghost seen = taken;
        proof {
            let s = match seen {
                Ok(request) => Pair::<I, O> { request: Some(request), ..Pair::fresh() },
                Err(e) => Pair::<I, O> { caller: e == TryRecvError::Empty, ..Pair::fresh() },
            };
            assert(s.worker && s.try_receive(false).1 == received(seen));
        }
        received(taken)
    }

    /// Hands a result to the caller, waiting on the calling thread while the
    /// previous result has not been collected. Fails with `ChannelSend`, which
    /// carries the result back, where the caller handle is gone.
    pub fn ret(&self, input: O) -> (r: Result<(), TaskError<O>>)
        ensures
            exists|s: Pair<I, O>| s.worker && s.can_ret() && #[trigger] s.ret(input).1 == r,
    {
        let sent = queue_send(&self.output_tx, input);
        let ghost seen = sent;
        proof {
            let s = match seen {
                Ok(()) => Pair::<I, O>::fresh(),
                Err(_) => Pair::<I, O>::fresh().drop_caller(),
            };
            assert(s.worker && s.can_ret() && s.ret(input).1 == returned(seen));
        }
        returned(sent)
    }

    /// Hands a result to the caller without waiting. Fails with
    /// `ChannelTrySend`, which carries the result back, where the previous
    /// result has not been collected or the caller handle is gone.
    pub fn try_ret(&self, input: O) -> (r: Result<(), TaskError<O>>)
        ensures
            exists|s: Pair<I, O>| s.worker && #[trigger] s.respond(input).1 == r,
    {
        let sent = queue_try_send(&self.output_tx, input);
        let ghost seen = sent;
        proof {
            let s = match seen {
                Ok(()) => Pair::<I, O>::fresh(),
                Err(TrySendError::Full(_)) => Pair::<I, O> {
                    response: Some(input),
                    ..Pair::fresh()
                },
                Err(TrySendError::Closed(_)) => Pair::<I, O>::fresh().drop_caller(),
            };
            assert(s.worker && s.respond(input).1 == responded(seen));
        }
        responded(sent)
    }
}

impl<I, O> BackgroundTaskCaller<I, O> {
    /// The ready flag of the pair that this handle belongs to.
    pub closed spec fn flag(&self) -> tokio::sync::Mutex<bool> {
        *self.rts
    }

    /// Offers a request, waiting on the calling thread for the ready flag and
    /// for the request slot. What is done while the flag is held is what
    /// `call_held` says. `Ok(true)`: the request was queued and the flag
    /// lowered. `Ok(false)`: the flag was down, nothing was sent. Fails with
    /// `ChannelSend`, which carries the request back, where the worker handle
    /// is gone; the flag is lowered then too.
    pub fn call(&self, input: I) -> (r: Result<bool, TaskError<I>>)
        ensures
            exists|s: Pair<I, O>| s.caller && s.can_call() && #[trigger] s.call(input).1 == r,
    {
        let mut held = flag_lock(&self.rts);
        let r = call_held(&mut held, &self.input_tx, input);
        proof {
            let s = match r {
                Ok(true) => Pair::<I, O>::fresh().set_ready(),
                Ok(false) => Pair::<I, O>::fresh(),
                Err(_) => Pair::<I, O>::fresh().set_ready().drop_worker(),
            };
            assert(s.caller && s.can_call() && s.call(input).1 == r);
        }
        r
    }

    /// Offers a request without waiting. Where the worker holds the flag,
    /// nothing is touched, as `admission` says; else what is done while the
    /// flag is held is what `submit_held` says. `Ok(true)`: the ready flag
    /// was up, the request is queued and the flag lowered. `Ok(false)`: the
    /// flag was down, a request is outstanding and this one was dropped.
    /// Fails with `Mutex` where the worker holds the flag, and with
    /// `ChannelTrySend`, which carries the request back and leaves the flag
    /// up, where the request slot is taken or the worker handle is gone.
    pub fn try_call(&self, input: I) -> (r: Result<bool, TaskError<I>>)
        ensures
            exists|s: Pair<I, O>, held: bool| s.caller && #[trigger] s.submit(input, held).1 == r,
    {
        match flag_try_lock(&self.rts) {
            None => match admission::<I>(None) {
                Admission::Refused(answer) => {
                    proof {
                        assert(Pair::<I, O>::fresh().submit(input, true).1 == answer);
                    }
                    answer
                },
                Admission::Send => contended(),
            },
            Some(mut held) => {
                let r = submit_held(&mut held, &self.input_tx, input);
                proof {
                    let s = match r {
                        Ok(true) => Pair::<I, O>::fresh().set_ready(),
                        Ok(false) => Pair::<I, O>::fresh(),
                        Err(TaskError::ChannelTrySend(TrySendError::Full(_))) => Pair::<I, O> {
                            request: Some(input),
                            ..Pair::fresh().set_ready()
                        },
                        Err(_) => Pair::<I, O>::fresh().set_ready().drop_worker(),
                    };
                    assert(s.caller && s.submit(input, false).1 == r);
                }
                r
            },
        }
    }

    /// Waits on the calling thread until a result arrives and returns it.
    /// `None` means that the worker handle is gone and no result is left.
    /// Which of the two comes, and which result, is for the worker's side to
    /// decide.
    pub fn recv(&mut self) -> (r: Option<O>) {
        queue_recv(&mut self.output_rx)
    }

    /// Picks up the result that waits, without waiting for one. Fails with
    /// `ChannelTryRecev` where none waits.
    pub fn try_recv(&mut self) -> (r: Result<O, TaskError<O>>)
        ensures
            exists|s: Pair<I, O>| s.caller && #[trigger] s.collect().1 == r,
    {
        let taken = queue_try_recv(&mut self.output_rx);
        let ghost seen = taken;
        proof {
            let s = match seen {
                Ok(response) => Pair::<I, O> { response: Some(response), ..Pair::fresh() },
                Err(e) => Pair::<I, O> { worker: e == TryRecvError::Empty, ..Pair::fresh() },
            };
            assert(s.caller && s.collect().1 == received(seen));
        }
        received(taken)
    }
}

/// Makes a pair: one worker handle and one caller handle that share one
/// ready flag, made down so that nothing is accepted until the worker first
/// receives, and two queues of one slot each, one for requests and one for
/// results.
pub fn new_task<I, O>() -> (handles: (BackgroundTaskFunction<I, O>, BackgroundTaskCaller<I, O>))
    ensures
        handles.0.flag() == handles.1.flag(),
        !flag_made_with(handles.0.flag()),
{
    let (input_tx, input_rx) = bounded_queue::<I>(SLOTS);
    let (output_tx, output_rx) = bounded_queue::<O>(SLOTS);
    let rts = Arc::new(flag_new(false));
    (
        BackgroundTaskFunction { input_rx, output_tx, rts: flag_share(&rts) },
        BackgroundTaskCaller { input_tx, output_rx, rts },
    )
}

} // verus!
