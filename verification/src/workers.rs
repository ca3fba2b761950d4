//! One round of each worker: receive a request, have the collaborator do its
//! work, hand the result back. A result is handed back without waiting: only
//! the wait for the next request holds a worker up.
//!
//! A worker is a loop around one of these rounds that ends when the round
//! reports the channel closed. What a collaborator does outside this library
//! (reading squares out of a picture, an HTTP exchange, a conversation with a
//! card) comes in as a function.
//!
//! Each worker has two functions. The one whose name ends in `_round` takes
//! what the receive returned and states the round for every such value. The
//! one whose name ends in `_task` makes the receive, which the caller's side
//! decides, and hands what it returned to the first.

use vstd::prelude::*;
use vstd::string::*;
use crate::client::{HttpRequest, LeashClient, Method};
use crate::errors::TaskError;
use crate::qr::{decode_frame, is_frame_decoded, Frame, GrayFrame, GridReading, Point};
use crate::reader::AsyncPcsc;
use crate::tasks::BackgroundTaskFunction;
use crate::text::{append_decimal, decimal};
use crate::user::User;

verus! {

/// How one round of a worker ended.
#[derive(Debug, Clone, Copy, PartialEq, Eq)]
pub enum Round {
    /// The caller handle is gone: the worker stops.
    Closed,
    /// The collaborator failed: nothing was handed back, and the caller sees
    /// no result, as if the work were still going on.
    Skipped,
    /// The result was handed to the caller.
    Answered,
    /// The result could not be delivered and was dropped: the caller has
    /// not collected the previous one, or is gone.
    Dropped,
}

impl Round {
    /// How a round ends whose result went to the response queue, given what
    /// the queue said to it.
    pub open spec fn spec_delivered<T>(sent: Result<(), TaskError<T>>) -> Round {
        match sent {
            Ok(()) => Round::Answered,
            Err(_) => Round::Dropped,
        }
    }

    /// How a round ends whose result went to the response queue, given what
    /// the queue said to it: a result that was refused is dropped, and the
    /// worker goes on.
    #[verifier::when_used_as_spec(spec_delivered)]
    pub fn delivered<T>(sent: Result<(), TaskError<T>>) -> (round: Round)
        ensures
            round == Self::spec_delivered(sent),
    {
        match sent {
            Ok(()) => Round::Answered,
            Err(_) => Round::Dropped,
        }
    }

    /// The worker goes on to its next round.
    pub open spec fn spec_goes_on(&self) -> bool {
        !(*self is Closed)
    }

    /// The worker goes on to its next round: only a closed channel ends it.
    #[verifier::when_used_as_spec(spec_goes_on)]
    pub fn goes_on(&self) -> (more: bool)
        ensures
            more == self.spec_goes_on(),
    {
        match self {
            Round::Closed => false,
            _ => true,
        }
    }
}

/// `round` is how a round ends that received `request` and whose
/// collaborator is `work`: closed exactly where nothing more will arrive;
/// passed over where `work` made nothing of this request; answered, or
/// dropped by the queue, where `work` made a result of this request.
pub open spec fn is_round<I, O, F: Fn(I) -> Option<O>>(
    request: Option<I>,
    work: F,
    round: Round,
) -> bool {
    match request {
        None => round is Closed,
        Some(x) => match round {
            Round::Closed => false,
            Round::Skipped => work.ensures((x,), None::<O>),
            _ => exists|y: O| work.ensures((x,), Some(y)),
        },
    }
}

/// The rest of a round, once the receive has returned `request`: `None`
/// ends the worker; a request goes to the collaborator `work`, whose result
/// is handed to the caller and whose failure is passed over.
pub fn serve_request<I, O, F: Fn(I) -> Option<O>>(
    task: &BackgroundTaskFunction<I, O>,
    request: Option<I>,
    work: F,
) -> (round: Round)
    requires
        request matches Some(x) ==> work.requires((x,)),
    ensures
        is_round(request, work, round),
{
    match request {
        None => Round::Closed,
        Some(x) => match work(x) {
            None => Round::Skipped,
            Some(y) => Round::delivered(task.try_ret(y)),
        },
    }
}

/// One round of a worker whose collaborator is `work`: waits for a request,
/// then goes on as `serve_request` says of what the wait returned.
pub fn serve<I, O, F: Fn(I) -> Option<O>>(
    task: &mut BackgroundTaskFunction<I, O>,
    work: F,
) -> (round: Round)
    requires
        forall|x: I| work.requires((x,)),
    ensures
        exists|request: Option<I>| is_round(request, work, round),
{
    let request = task.recv();
    let ghost got = request;
    let round = serve_request(task, request, work);
    assert(is_round(got, work, round));
    round
}

/// Where the directory exchanges a scanned token for a user.
pub open spec fn checkin_path(token: Seq<char>) -> Seq<char> {
    "api/users/get/checkin/"@ + token
}

/// Where the directory keeps the user with the given number.
pub open spec fn user_path(id: u32) -> Seq<char> {
    "api/users/"@ + decimal(id as nat)
}

/// The JSON text that sets a user's card identifier. The identifier is
/// written between the quotes as it is.
pub open spec fn card_patch(card_number: Seq<char>) -> Seq<char> {
    "{\"card_id\": \""@ + card_number + "\"}"@
}

/// The request that exchanges a scanned token for its user. `None` where
/// the client's base address is no absolute URL.
pub fn checkin_request(api: &LeashClient, token: &str) -> (r: Option<HttpRequest>)
    ensures
        match r {
            Some(request) => api.is_request(
                request,
                Method::Get,
                checkin_path(token@),
                Seq::empty(),
                None,
            ),
            None => api.request_url(checkin_path(token@), Seq::empty()) is None,
        },
{
    let mut path = String::from_str("api/users/get/checkin/");
    path.append(token);
    api.get(path.as_str(), None)
}

/// The request that links the card `card_number` to the user with the
/// number `user_id`. `None` where the client's base address is no absolute
/// URL.
pub fn card_update_request(api: &LeashClient, user_id: u32, card_number: &str) -> (r: Option<
    HttpRequest,
>)
    ensures
        match r {
            Some(request) => api.is_request(
                request,
                Method::Patch,
                user_path(user_id),
                Seq::empty(),
                Some(card_patch(card_number@)),
            ),
            None => api.request_url(user_path(user_id), Seq::empty()) is None,
        },
{
    let mut path = String::from_str("api/users/");
    append_decimal(&mut path, user_id);
    let mut body = String::from_str("{\"card_id\": \"");
    body.append(card_number);
    body.append("\"}");
    api.patch(path.as_str(), None, body.as_str())
}

/// `round` is how a round of the worker that reads QR codes ends that
/// received `request`, with the reader `scan`: closed exactly where nothing
/// more will arrive; else answered, or dropped by the queue, with what
/// looking for a code in this frame came to. This worker has no failure to
/// pass over: a frame without a code is answered with `None`.
pub open spec fn is_qr_reader_round<S: Fn(GrayFrame) -> Vec<GridReading>>(
    request: Option<Frame>,
    scan: S,
    round: Round,
) -> bool {
    match request {
        None => round is Closed,
        Some(frame) => (round is Answered || round is Dropped) && exists|
            code: Option<([Point; 4], String)>,
        | is_frame_decoded(frame, scan, code),
    }
}

/// The rest of a round of the worker that reads QR codes, once the receive
/// has returned `request`: `None` ends the worker; a frame is looked
/// through for a code, and what was found, be it a code or none, is handed
/// to the caller.
pub fn qr_reader_round<S: Fn(GrayFrame) -> Vec<GridReading>>(
    task: &BackgroundTaskFunction<Frame, Option<([Point; 4], String)>>,
    request: Option<Frame>,
    scan: S,
) -> (round: Round)
    requires
        forall|gray: GrayFrame| gray.is_well_formed() ==> scan.requires((gray,)),
    ensures
        is_qr_reader_round(request, scan, round),
{
    match request {
        None => Round::Closed,
        Some(frame) => {
            let code = decode_frame(&frame, scan);
            assert(is_frame_decoded(frame, scan, code));
            Round::delivered(task.try_ret(code))
        },
    }
}

/// One round of the worker that reads QR codes: waits for a frame, then
/// goes on as `qr_reader_round` says of what the wait returned.
pub fn qr_reader_task<S: Fn(GrayFrame) -> Vec<GridReading>>(
    task: &mut BackgroundTaskFunction<Frame, Option<([Point; 4], String)>>,
    scan: S,
) -> (round: Round)
    requires
        forall|gray: GrayFrame| gray.is_well_formed() ==> scan.requires((gray,)),
    ensures
        exists|request: Option<Frame>| is_qr_reader_round(request, scan, round),
{
    let request = task.recv();
    let ghost got = request;
    let round = qr_reader_round(task, request, scan);
    assert(is_qr_reader_round(got, scan, round));
    round
}

/// `found` is what the check-in of `token` comes to with the collaborator
/// `send`: what `send` made of the check-in request for that token, and
/// nothing where that request cannot be built.
pub open spec fn is_checkin<F: Fn(HttpRequest) -> Option<User>>(
    api: &LeashClient,
    token: Seq<char>,
    send: F,
    found: Option<User>,
) -> bool {
    match api.request_url(checkin_path(token), Seq::empty()) {
        Some(_) => exists|request: HttpRequest|
            api.is_request(request, Method::Get, checkin_path(token), Seq::empty(), None)
                && send.ensures((request,), found),
        None => found is None,
    }
}

/// Exchanges a scanned token for its user: builds the check-in request and
/// has `send` carry it out and read the user out of the answer. Gives what
/// `send` made of that request, be it a user or a failure; `None` without
/// asking `send` where the request cannot be built.
pub fn checkin<F: Fn(HttpRequest) -> Option<User>>(
    api: &LeashClient,
    token: &str,
    send: F,
) -> (found: Option<User>)
    requires
        forall|request: HttpRequest| send.requires((request,)),
    ensures
        is_checkin(api, token@, send, found),
{
    match checkin_request(api, token) {
        Some(request) => {
            let ghost asked = request;
            let found = send(request);
            assert(api.is_request(asked, Method::Get, checkin_path(token@), Seq::empty(), None)
                && send.ensures((asked,), found));
            found
        },
        None => None,
    }
}

/// `round` is how a round of the worker that checks users in ends that
/// received `request`, with the collaborator `send`: closed exactly where
/// nothing more will arrive; passed over where the check-in of this token
/// came to nothing; answered, or dropped by the queue, where it came to a
/// user.
pub open spec fn is_qr_checkin_round<F: Fn(HttpRequest) -> Option<User>>(
    api: &LeashClient,
    request: Option<String>,
    send: F,
    round: Round,
) -> bool {
    match request {
        None => round is Closed,
        Some(token) => match round {
            Round::Closed => false,
            Round::Skipped => is_checkin(api, token@, send, None::<User>),
            _ => exists|user: User| is_checkin(api, token@, send, Some(user)),
        },
    }
}

/// The rest of a round of the worker that checks users in, once the
/// receive has returned `request`: `None` ends the worker; a token is
/// exchanged for its user, who is handed to the caller; where the check-in
/// comes to nothing, nothing is handed back and the worker goes on.
pub fn qr_checkin_round<F: Fn(HttpRequest) -> Option<User>>(
    api: &LeashClient,
    task: &BackgroundTaskFunction<String, User>,
    request: Option<String>,
    send: F,
) -> (round: Round)
    requires
        forall|request: HttpRequest| send.requires((request,)),
    ensures
        is_qr_checkin_round(api, request, send, round),
{
    match request {
        None => Round::Closed,
        Some(token) => {
            let found = checkin(api, token.as_str(), send);
            assert(is_checkin(api, token@, send, found));
            match found {
                None => Round::Skipped,
                Some(user) => Round::delivered(task.try_ret(user)),
            }
        },
    }
}

/// One round of the worker that checks users in: waits for a scanned token,
/// then goes on as `qr_checkin_round` says of what the wait returned.
/// `send` carries a request out and reads the user out of the answer.
pub fn qr_checkin_task<F: Fn(HttpRequest) -> Option<User>>(
    api: &LeashClient,
    task: &mut BackgroundTaskFunction<String, User>,
    send: F,
) -> (round: Round)
    requires
        forall|request: HttpRequest| send.requires((request,)),
    ensures
        exists|request: Option<String>| is_qr_checkin_round(api, request, send, round),
{
    let request = task.recv();
    let ghost got = request;
    let round = qr_checkin_round(api, task, request, send);
    assert(is_qr_checkin_round(api, got, send, round));
    round
}

/// `id` is the card identifier in what the reader gave: the identifier
/// that the answer holds, and none where the reader failed or its answer is
/// too short to hold the two status bytes.
pub open spec fn is_card_id_in(answer: Option<Vec<u8>>, id: Option<String>) -> bool {
    match answer {
        Some(rapdu) => match id {
            Some(text) => rapdu@.len() >= 2 && text@ == AsyncPcsc::card_id_of(rapdu@),
            None => rapdu@.len() < 2,
        },
        None => id is None,
    }
}

/// `id` is what reading a card comes to with the collaborator `read`: the
/// card identifier in what `read` returned.
pub open spec fn is_card_read<F: Fn() -> Option<Vec<u8>>>(read: F, id: Option<String>) -> bool {
    exists|answer: Option<Vec<u8>>| read.ensures((), answer) && is_card_id_in(answer, id)
}

/// The card identifier that the reader gives: `read` waits for a card and
/// returns its answer to `AsyncPcsc::card_id_command`. Gives the identifier
/// in what `read` returned; `None` where `read` failed or the answer is too
/// short.
pub fn read_card<F: Fn() -> Option<Vec<u8>>>(read: F) -> (id: Option<String>)
    requires
        read.requires(()),
    ensures
        is_card_read(read, id),
{
    let answer = read();
    let id = match &answer {
        Some(rapdu) => AsyncPcsc::get_card_id(rapdu.as_slice()),
        None => None,
    };
    assert(read.ensures((), answer) && is_card_id_in(answer, id));
    id
}

/// `round` is how a round of the worker that waits for a card ends that
/// received `request`, with the collaborator `read`: closed exactly where
/// nothing more will arrive; passed over where reading the card came to
/// nothing; answered, or dropped by the queue, where it came to an
/// identifier.
pub open spec fn is_card_round<F: Fn() -> Option<Vec<u8>>>(
    request: Option<()>,
    read: F,
    round: Round,
) -> bool {
    match request {
        None => round is Closed,
        Some(_) => match round {
            Round::Closed => false,
            Round::Skipped => is_card_read(read, None::<String>),
            _ => exists|id: String| is_card_read(read, Some(id)),
        },
    }
}

/// The rest of a round of the worker that waits for a card, once the
/// receive has returned `request`: `None` ends the worker; on a request the
/// next card is read and its identifier handed to the caller; where the
/// reader or the read fails, nothing is handed back and the worker goes on.
pub fn card_round<F: Fn() -> Option<Vec<u8>>>(
    task: &BackgroundTaskFunction<(), String>,
    request: Option<()>,
    read: F,
) -> (round: Round)
    requires
        read.requires(()),
    ensures
        is_card_round(request, read, round),
{
    match request {
        None => Round::Closed,
        Some(_) => {
            let id = read_card(read);
            assert(is_card_read(read, id));
            match id {
                None => Round::Skipped,
                Some(card_id) => Round::delivered(task.try_ret(card_id)),
            }
        },
    }
}

/// One round of the worker that waits for a card: waits for a request, then
/// goes on as `card_round` says of what the wait returned.
pub fn card_task<F: Fn() -> Option<Vec<u8>>>(
    task: &mut BackgroundTaskFunction<(), String>,
    read: F,
) -> (round: Round)
    requires
        read.requires(()),
    ensures
        exists|request: Option<()>| is_card_round(request, read, round),
{
    let request = task.recv();
    let ghost got = request;
    let round = card_round(task, request, read);
    assert(is_card_round(got, read, round));
    round
}

/// `done` is what linking the card comes to with the collaborator `send`:
/// what `send` reported of the request that sets the user's card, and
/// `false` where that request cannot be built.
pub open spec fn is_link<F: Fn(HttpRequest) -> bool>(
    api: &LeashClient,
    user_id: u32,
    card_number: Seq<char>,
    send: F,
    done: bool,
) -> bool {
    match api.request_url(user_path(user_id), Seq::empty()) {
        Some(_) => exists|request: HttpRequest|
            api.is_request(
                request,
                Method::Patch,
                user_path(user_id),
                Seq::empty(),
                Some(card_patch(card_number)),
            ) && send.ensures((request,), done),
        None => !done,
    }
}

/// Links a card to a user in the directory: builds the request and has
/// `send` carry it out. Gives what `send` reported of that request: `true`
/// where the directory answered. `false` without asking `send` where the
/// request cannot be built.
pub fn link_card<F: Fn(HttpRequest) -> bool>(
    api: &LeashClient,
    user_id: u32,
    card_number: &str,
    send: F,
) -> (done: bool)
    requires
        forall|request: HttpRequest| send.requires((request,)),
    ensures
        is_link(api, user_id, card_number@, send, done),
{
    match card_update_request(api, user_id, card_number) {
        Some(request) => {
            let ghost asked = request;
            let done = send(request);
            assert(api.is_request(
                asked,
                Method::Patch,
                user_path(user_id),
                Seq::empty(),
                Some(card_patch(card_number@)),
            ) && send.ensures((asked,), done));
            done
        },
        None => false,
    }
}

/// `round` is how a round of the worker that updates user records ends
/// that received `request`, with the collaborator `send`: closed exactly
/// where nothing more will arrive; passed over where linking this card to
/// this user was not reported done; answered, or dropped by the queue,
/// where it was.
pub open spec fn is_update_round<F: Fn(HttpRequest) -> bool>(
    api: &LeashClient,
    request: Option<(User, String)>,
    send: F,
    round: Round,
) -> bool {
    match request {
        None => round is Closed,
        Some((user, card_number)) => match round {
            Round::Closed => false,
            Round::Skipped => is_link(api, user.id, card_number@, send, false),
            _ => is_link(api, user.id, card_number@, send, true),
        },
    }
}

/// The rest of a round of the worker that updates user records, once the
/// receive has returned `request`: `None` ends the worker; a user and a
/// card identifier are linked in the directory, and the caller is answered
/// exactly where the directory has answered; else nothing is handed back
/// and the worker goes on.
pub fn update_round<F: Fn(HttpRequest) -> bool>(
    api: &LeashClient,
    task: &BackgroundTaskFunction<(User, String), ()>,
    request: Option<(User, String)>,
    send: F,
) -> (round: Round)
    requires
        forall|request: HttpRequest| send.requires((request,)),
    ensures
        is_update_round(api, request, send, round),
{
    match request {
        None => Round::Closed,
        Some((user, card_number)) => {
            let done = link_card(api, user.id, card_number.as_str(), send);
            assert(is_link(api, user.id, card_number@, send, done));
            if done {
                Round::delivered(task.try_ret(()))
            } else {
                Round::Skipped
            }
        },
    }
}

/// One round of the worker that updates user records: waits for a user and
/// a card identifier, then goes on as `update_round` says of what the wait
/// returned. `send` carries a request out.
pub fn update_task<F: Fn(HttpRequest) -> bool>(
    api: &LeashClient,
    task: &mut BackgroundTaskFunction<(User, String), ()>,
    send: F,
) -> (round: Round)
    requires
        forall|request: HttpRequest| send.requires((request,)),
    ensures
        exists|request: Option<(User, String)>| is_update_round(api, request, send, round),
{
    let request = task.recv();
    let ghost got = request;
    let round = update_round(api, task, request, send);
    assert(is_update_round(api, got, send, round));
    round
}

} // verus!
