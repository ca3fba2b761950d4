//! The sequential meaning of one task channel pair.
//!
//! A pair is a ready flag and two single-slot queues shared by a caller handle
//! and a worker handle. `Pair` holds that shared state as plain values, and
//! each operation of a handle is a function from the state before it to the
//! state after it and the answer it gives. The handles themselves answer as
//! this model does in some state; the laws at the end of this file are proved
//! of the model.

use vstd::prelude::*;
use crate::decisions::{
    admission, called, contended, received, responded, returned, submitted, Admission,
};
use crate::errors::{SendError, TaskError, TryLockError, TryRecvError, TrySendError};

verus! {

/// A non-blocking send into a single-slot queue: the slot afterwards, and
/// what the queue says. A free slot takes the value while the receiving
/// handle exists.
pub open spec fn slot_try_send<T>(slot: Option<T>, receiver: bool, x: T) -> (
    Option<T>,
    Result<(), TrySendError<T>>,
) {
    if !receiver {
        (slot, Err(TrySendError::Closed(x)))
    } else if slot is Some {
        (slot, Err(TrySendError::Full(x)))
    } else {
        (Some(x), Ok(()))
    }
}

/// A blocking send into a single-slot queue can finish: the receiving
/// handle is gone, or the slot is free.
pub open spec fn slot_can_send<T>(slot: Option<T>, receiver: bool) -> bool {
    !receiver || slot is None
}

/// A blocking send into a single-slot queue, where it can finish.
pub open spec fn slot_send<T>(slot: Option<T>, receiver: bool, x: T) -> (
    Option<T>,
    Result<(), SendError<T>>,
) {
    if !receiver {
        (slot, Err(SendError(x)))
    } else {
        (Some(x), Ok(()))
    }
}

/// A non-blocking receive from a single-slot queue: the slot afterwards,
/// and what the queue gives.
pub open spec fn slot_try_recv<T>(slot: Option<T>, sender: bool) -> (
    Option<T>,
    Result<T, TryRecvError>,
) {
    match slot {
        Some(x) => (None, Ok(x)),
        None => if sender {
            (slot, Err(TryRecvError::Empty))
        } else {
            (slot, Err(TryRecvError::Disconnected))
        },
    }
}

/// A blocking receive from a single-slot queue can finish: a value waits,
/// or the sending handle is gone.
pub open spec fn slot_can_recv<T>(slot: Option<T>, sender: bool) -> bool {
    slot is Some || !sender
}

/// What the two handles of one pair share.
pub struct Pair<I, O> {
    /// `true`: no request is outstanding and the caller may submit.
    pub ready: bool,
    /// The request slot.
    pub request: Option<I>,
    /// The response slot.
    pub response: Option<O>,
    /// The caller handle exists.
    pub caller: bool,
    /// The worker handle exists.
    pub worker: bool,
}

impl<I, O> Pair<I, O> {
    /// A pair as it is created: ready flag down until the worker first
    /// receives, both slots empty, both handles alive.
    pub open spec fn fresh() -> Self {
        Pair { ready: false, request: None, response: None, caller: true, worker: true }
    }

    /// Both slots are empty and both handles are alive.
    pub open spec fn quiet(self) -> bool {
        self.request is None && self.response is None && self.caller && self.worker
    }

    // ----- caller side -----

    /// A non-blocking submission of `x`. `held` says that the worker held the
    /// ready flag at that moment.
    pub open spec fn submit(self, x: I, held: bool) -> (Self, Result<bool, TaskError<I>>) {
        match admission::<I>(if held { None } else { Some(self.ready) }) {
            Admission::Refused(answer) => (self, answer),
            Admission::Send => {
                let (slot, sent) = slot_try_send(self.request, self.worker, x);
                let (lower, answer) = submitted(sent);
                (Pair { ready: !lower, request: slot, ..self }, answer)
            },
        }
    }

    /// A blocking submission can finish: the ready flag is down, so that
    /// nothing is sent, or the worker is gone, or the request slot is free.
    pub open spec fn can_call(self) -> bool {
        !self.ready || slot_can_send(self.request, self.worker)
    }

    /// A blocking submission of `x`, where it can finish. Once the ready flag
    /// was found up it is lowered again, whether or not the worker was there
    /// to take the request.
    pub open spec fn call(self, x: I) -> (Self, Result<bool, TaskError<I>>) {
        match admission::<I>(Some(self.ready)) {
            Admission::Refused(answer) => (self, answer),
            Admission::Send => {
                let (slot, sent) = slot_send(self.request, self.worker, x);
                let (lower, answer) = called(sent);
                (Pair { ready: !lower, request: slot, ..self }, answer)
            },
        }
    }

    /// A non-blocking collection.
    pub open spec fn collect(self) -> (Self, Result<O, TaskError<O>>) {
        let (slot, taken) = slot_try_recv(self.response, self.worker);
        (Pair { response: slot, ..self }, received(taken))
    }

    /// A blocking collection can finish: a response waits, or the worker is
    /// gone.
    pub open spec fn can_await_response(self) -> bool {
        slot_can_recv(self.response, self.worker)
    }

    /// A blocking collection, where it can finish.
    pub open spec fn await_response(self) -> (Self, Option<O>) {
        (Pair { response: None, ..self }, self.response)
    }

    /// The caller handle is destroyed: a queued request can still be taken, a
    /// response that was not collected is lost.
    pub open spec fn drop_caller(self) -> Self {
        Pair { caller: false, response: None, ..self }
    }

    // ----- worker side -----

    /// The first half of every receive: the worker raises the ready flag.
    pub open spec fn set_ready(self) -> Self {
        Pair { ready: true, ..self }
    }

    /// The second half of a non-blocking receive: the worker looks into the
    /// request slot.
    pub open spec fn take(self) -> (Self, Result<I, TaskError<I>>) {
        let (slot, taken) = slot_try_recv(self.request, self.caller);
        (Pair { request: slot, ..self }, received(taken))
    }

    /// A non-blocking receive. `held` says that the caller held the ready
    /// flag at that moment; the request slot is then left alone.
    pub open spec fn try_receive(self, held: bool) -> (Self, Result<I, TaskError<I>>) {
        if held {
            (self, contended())
        } else {
            self.set_ready().take()
        }
    }

    /// A blocking receive whose ready flag is up can finish: a request waits,
    /// or the caller is gone.
    pub open spec fn can_receive(self) -> bool {
        slot_can_recv(self.request, self.caller)
    }

    /// The second half of a blocking receive, where it can finish: the
    /// request, or `None` once the caller is gone and the slot is empty.
    pub open spec fn receive(self) -> (Self, Option<I>) {
        (Pair { request: None, ..self }, self.request)
    }

    /// A non-blocking response.
    pub open spec fn respond(self, r: O) -> (Self, Result<(), TaskError<O>>) {
        let (slot, sent) = slot_try_send(self.response, self.caller, r);
        (Pair { response: slot, ..self }, responded(sent))
    }

    /// A blocking response can finish: the caller is gone, or the response
    /// slot is free.
    pub open spec fn can_ret(self) -> bool {
        slot_can_send(self.response, self.caller)
    }

    /// A blocking response, where it can finish.
    pub open spec fn ret(self, r: O) -> (Self, Result<(), TaskError<O>>) {
        let (slot, sent) = slot_send(self.response, self.caller, r);
        (Pair { response: slot, ..self }, returned(sent))
    }

    /// The worker handle is destroyed: a response that waits can still be
    /// collected, a request that was not taken is lost.
    pub open spec fn drop_worker(self) -> Self {
        Pair { worker: false, request: None, ..self }
    }

    // ----- runs -----

    /// The caller submits `xs` one after the other, with nothing else
    /// happening in between. `held[i]` says whether attempt `i` found the
    /// ready flag taken by the worker. Gives the state at the end and the
    /// answers in order.
    pub open spec fn submit_each(self, xs: Seq<I>, held: Seq<bool>) -> (
        Self,
        Seq<Result<bool, TaskError<I>>>,
    )
        decreases xs.len(),
    {
        if xs.len() == 0 {
            (self, Seq::empty())
        } else {
            let (mid, first) = self.submit(xs[0], held[0]);
            let (end, rest) = mid.submit_each(xs.drop_first(), held.drop_first());
            (end, seq![first] + rest)
        }
    }

    /// One full round: the worker raises the ready flag, the caller submits
    /// `x`, the worker takes the request, hands it to the collaborator `work`,
    /// and responds; the caller collects. Gives what the caller collected.
    pub open spec fn round(self, x: I, work: spec_fn(I) -> O) -> (Self, Result<O, TaskError<O>>) {
        let (submitted, _) = self.set_ready().submit(x, false);
        let (taken, request) = submitted.take();
        match request {
            Ok(req) => {
                let (responded, _) = taken.respond(work(req));
                responded.collect()
            },
            Err(_) => taken.collect(),
        }
    }

    /// One round for each of `xs`, in order. Gives the state at the end and
    /// what the caller collected in each round.
    pub open spec fn rounds(self, xs: Seq<I>, work: spec_fn(I) -> O) -> (
        Self,
        Seq<Result<O, TaskError<O>>>,
    )
        decreases xs.len(),
    {
        if xs.len() == 0 {
            (self, Seq::empty())
        } else {
            let (mid, first) = self.round(xs[0], work);
            let (end, rest) = mid.rounds(xs.drop_first(), work);
            (end, seq![first] + rest)
        }
    }
}

/// The answer of a submission that did not go through and left the pair as it
/// was: the ready flag was down, or held by the worker.
pub open spec fn not_submitted<I>(answer: Result<bool, TaskError<I>>) -> bool {
    answer == Ok::<bool, TaskError<I>>(false) || answer == Err::<bool, TaskError<I>>(
        TaskError::Mutex(TryLockError),
    )
}

/// While the ready flag is down, submissions change nothing and none is
/// accepted.
pub proof fn lemma_flag_down_rejects<I, O>(s: Pair<I, O>, xs: Seq<I>, held: Seq<bool>)
    requires
        !s.ready,
        held.len() == xs.len(),
    ensures
        s.submit_each(xs, held).0 == s,
        s.submit_each(xs, held).1.len() == xs.len(),
        forall|i: int|
            0 <= i < xs.len() ==> not_submitted(#[trigger] s.submit_each(xs, held).1[i]),
    decreases xs.len(),
{
    if xs.len() > 0 {
        lemma_flag_down_rejects(s, xs.drop_first(), held.drop_first());
    }
}

/// A newly created pair accepts nothing until the worker's first receive has
/// raised the ready flag.
pub proof fn law_fresh_pair_is_not_ready<I, O>(x: I, held: bool)
    ensures
        not_submitted(Pair::<I, O>::fresh().submit(x, held).1),
        Pair::<I, O>::fresh().submit(x, held).0 == Pair::<I, O>::fresh(),
        Pair::<I, O>::fresh().set_ready().submit(x, false).1 == Ok::<bool, TaskError<I>>(true),
{
}

/// At most one request is in flight: in a run of submissions with no receive
/// of the worker in between, whatever the state at the start, an accepted
/// submission is followed only by submissions that are not accepted, and
/// these leave the pair as the accepted one left it: its request waits in the
/// slot and the ready flag is down.
pub proof fn law_at_most_one_in_flight<I, O>(s: Pair<I, O>, xs: Seq<I>, held: Seq<bool>)
    requires
        held.len() == xs.len(),
    ensures
        s.submit_each(xs, held).1.len() == xs.len(),
        forall|i: int, j: int|
            0 <= i < j < xs.len() && #[trigger] s.submit_each(xs, held).1[i] == Ok::<
                bool,
                TaskError<I>,
            >(true) ==> not_submitted(#[trigger] s.submit_each(xs, held).1[j]),
        forall|i: int|
            0 <= i < xs.len() && #[trigger] s.submit_each(xs, held).1[i] == Ok::<
                bool,
                TaskError<I>,
            >(true) ==> s.submit_each(xs, held).0.request == Some(xs[i])
                && !s.submit_each(xs, held).0.ready,
    decreases xs.len(),
{
    if xs.len() > 0 {
        let (mid, first) = s.submit(xs[0], held[0]);
        let tail = xs.drop_first();
        let tail_held = held.drop_first();
        law_at_most_one_in_flight(mid, tail, tail_held);
        let answers = s.submit_each(xs, held).1;
        let rest = mid.submit_each(tail, tail_held).1;
        assert(answers == seq![first] + rest);
        assert(forall|k: int| 1 <= k < xs.len() ==> answers[k] == rest[k - 1]);
        assert(forall|k: int| 1 <= k < xs.len() ==> xs[k] == tail[k - 1]);
        if first == Ok::<bool, TaskError<I>>(true) {
            lemma_flag_down_rejects(mid, tail, tail_held);
        }
    }
}

/// Collecting does not raise the ready flag, nor touch the request slot:
/// only a receive of the worker makes room for the next request. So a
/// submission that follows an accepted one is not accepted either where the
/// caller collects in between.
pub proof fn law_collect_keeps_flag<I, O>(s: Pair<I, O>, a: I, b: I, held: bool)
    ensures
        s.collect().0.ready == s.ready,
        s.collect().0.request == s.request,
        s.submit(a, false).1 == Ok::<bool, TaskError<I>>(true) ==> not_submitted(
            s.submit(a, false).0.collect().0.submit(b, held).1,
        ),
{
}

/// A submission while busy never touches the request that waits: whatever the
/// ready flag says, the slot holds the same request afterwards, the newcomer
/// is not accepted, and the worker's next receive yields the request that was
/// there first.
pub proof fn law_busy_submit_keeps_request<I, O>(s: Pair<I, O>, a: I, b: I, held: bool)
    requires
        s.request == Some(a),
    ensures
        s.submit(b, held).0 == s,
        s.submit(b, held).1 != Ok::<bool, TaskError<I>>(true),
        s.submit(b, held).0.try_receive(false).1 == Ok::<I, TaskError<I>>(a),
        s.submit(b, held).0.receive().1 == Some(a),
{
}

/// Submitting `a` and then `b` before the worker has received: `a` is
/// accepted, `b` is not, and the worker receives `a`.
pub proof fn law_first_request_wins<I, O>(s: Pair<I, O>, a: I, b: I, held: bool)
    requires
        s.submit(a, false).1 == Ok::<bool, TaskError<I>>(true),
    ensures
        not_submitted(s.submit(a, false).0.submit(b, held).1),
        s.submit(a, false).0.submit(b, held).0.try_receive(false).1 == Ok::<
            I,
            TaskError<I>,
        >(a),
        s.submit(a, false).0.submit(b, held).0.can_receive(),
        s.submit(a, false).0.submit(b, held).0.set_ready().receive().1 == Some(a),
{
}

/// One round on a quiet pair goes through: the request is accepted, the
/// caller collects what the collaborator made of it, and the pair is quiet
/// again.
pub proof fn lemma_round<I, O>(s: Pair<I, O>, x: I, work: spec_fn(I) -> O)
    requires
        s.quiet(),
    ensures
        s.set_ready().submit(x, false).1 == Ok::<bool, TaskError<I>>(true),
        s.round(x, work).1 == Ok::<O, TaskError<O>>(work(x)),
        s.round(x, work).0.quiet(),
{
}

/// Requests and responses correspond one to one: over any number of rounds on
/// a quiet pair, the response collected in round `k` is what the collaborator
/// made of the request submitted in round `k`.
pub proof fn law_rounds_correspond<I, O>(s: Pair<I, O>, xs: Seq<I>, work: spec_fn(I) -> O)
    requires
        s.quiet(),
    ensures
        s.rounds(xs, work).0.quiet(),
        s.rounds(xs, work).1.len() == xs.len(),
        forall|k: int|
            0 <= k < xs.len() ==> #[trigger] s.rounds(xs, work).1[k] == Ok::<O, TaskError<O>>(
                work(xs[k]),
            ),
    decreases xs.len(),
{
    if xs.len() > 0 {
        lemma_round(s, xs[0], work);
        let (mid, first) = s.round(xs[0], work);
        let tail = xs.drop_first();
        law_rounds_correspond(mid, tail, work);
        let collected = s.rounds(xs, work).1;
        let rest = mid.rounds(tail, work).1;
        assert(collected == seq![first] + rest);
        assert(forall|k: int| 1 <= k < xs.len() ==> collected[k] == rest[k - 1]);
        assert(forall|k: int| 1 <= k < xs.len() ==> xs[k] == tail[k - 1]);
    }
}

/// Once the caller handle is destroyed, a blocking receive of the worker
/// never waits. It yields the request that was still queued, if there was
/// one, and `None` otherwise; the receive after it yields `None`, as does
/// every later one. A non-blocking receive reports the closed channel in the
/// same states.
pub proof fn law_closed_channel_ends_receive<I, O>(s: Pair<I, O>)
    ensures
        s.drop_caller().set_ready().can_receive(),
        s.drop_caller().set_ready().receive().1 == s.request,
        s.request is None ==> s.drop_caller().try_receive(false).1 == Err::<I, TaskError<I>>(
            TaskError::ChannelTryRecev(TryRecvError::Disconnected),
        ),
        s.drop_caller().set_ready().receive().0.set_ready().can_receive(),
        s.drop_caller().set_ready().receive().0.set_ready().receive().1 is None,
        s.drop_caller().set_ready().receive().0.set_ready().receive().0
            == s.drop_caller().set_ready().receive().0.set_ready(),
{
}

/// What the worker sends to a caller that is gone comes back to it, and the
/// pair is left as it was.
pub proof fn law_response_to_closed_channel_returns<I, O>(s: Pair<I, O>, r: O)
    ensures
        s.drop_caller().respond(r).1 == Err::<(), TaskError<O>>(
            TaskError::ChannelTrySend(TrySendError::Closed(r)),
        ),
        s.drop_caller().respond(r).0 == s.drop_caller(),
        s.drop_caller().can_ret(),
        s.drop_caller().ret(r).1 == Err::<(), TaskError<O>>(TaskError::ChannelSend(SendError(r))),
{
}

/// At most one response waits: a response while the previous one has not
/// been collected is handed back, and the caller still collects the previous
/// one.
pub proof fn law_full_response_slot_keeps_response<I, O>(s: Pair<I, O>, old_r: O, new_r: O)
    requires
        s.caller,
        s.response == Some(old_r),
    ensures
        s.respond(new_r).1 == Err::<(), TaskError<O>>(
            TaskError::ChannelTrySend(TrySendError::Full(new_r)),
        ),
        s.respond(new_r).0 == s,
        s.respond(new_r).0.collect().1 == Ok::<O, TaskError<O>>(old_r),
{
}

/// Once the worker handle is destroyed, the caller learns of it: a
/// submission with the ready flag up is handed back as closed, and a
/// collection yields the response that still waited, if there was one, and
/// reports the closed channel from then on.
pub proof fn law_gone_worker_is_reported<I, O>(s: Pair<I, O>, x: I)
    ensures
        s.ready ==> s.drop_worker().submit(x, false).1 == Err::<bool, TaskError<I>>(
            TaskError::ChannelTrySend(TrySendError::Closed(x)),
        ),
        s.drop_worker().submit(x, false).0 == s.drop_worker(),
        s.response matches Some(r) ==> s.drop_worker().collect().1 == Ok::<O, TaskError<O>>(r),
        s.drop_worker().collect().0.collect().1 == Err::<O, TaskError<O>>(
            TaskError::ChannelTryRecev(TryRecvError::Disconnected),
        ),
        s.drop_worker().can_await_response(),
        s.drop_worker().await_response().0.await_response().1 is None,
{
}

} // verus!
