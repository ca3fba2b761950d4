//! The kiosk's screens and what moves it from one to the next.
//!
//! Once per frame the kiosk offers work to its workers, picks up what they
//! have finished, and computes at most one transition from what it saw. A
//! screen is replaced as a whole, never changed in place.

use vstd::prelude::*;
use crate::duplicate::Duplicate;
use crate::errors::TaskError;
use crate::qr::{Frame, Point};
use crate::tasks::BackgroundTaskCaller;
use crate::user::User;

verus! {

/// How long the kiosk asks whether to relink a card, in milliseconds.
pub const RELINK_TIMEOUT_MS: u64 = 10_000;

/// How long the kiosk confirms a link, in milliseconds.
pub const CONFIRM_TIMEOUT_MS: u64 = 5_000;

/// The screen that the kiosk shows.
#[derive(Debug, Clone)]
pub enum State {
    /// Scanning for a QR code.
    Camera,
    /// The scanned user has a card already; asking whether to relink, until
    /// `timeout`.
    AlreadyLinked { user: User, timeout: u64 },
    /// Waiting for the user's card to be tapped.
    ScanCard { user: User },
    /// The card was linked; confirming until `timeout`.
    Linked { timeout: u64 },
}

/// What one frame brought that can move the kiosk on.
pub struct Events {
    /// The check-in worker delivered this user.
    pub checkin: Option<User>,
    /// The update worker reported that the card is linked.
    pub updated: bool,
    /// "Yes" was pressed.
    pub yes: bool,
    /// "No" was pressed.
    pub no: bool,
    /// "Start Over" was pressed.
    pub start_over: bool,
}

/// What the kiosk's surroundings hand to one frame. Times are in
/// milliseconds on a clock that never goes back.
pub struct FrameInput {
    pub now: u64,
    /// The camera's frame; `None` where it had none.
    pub frame: Option<Frame>,
    pub yes: bool,
    pub no: bool,
    pub start_over: bool,
}

/// What one frame came to.
#[derive(Debug, Clone, Copy, PartialEq, Eq)]
pub struct FrameOutcome {
    /// The screen was replaced.
    pub changed: bool,
    /// After a replacement, whether the camera stream is to run: only while
    /// scanning.
    pub stream: Option<bool>,
}

/// The moment `span` milliseconds after `now`, or the last moment of the
/// clock where that lies beyond it.
pub open spec fn deadline(now: u64, span: u64) -> u64 {
    if now + span > u64::MAX {
        u64::MAX
    } else {
        (now + span) as u64
    }
}

impl State {
    /// The screen that replaces this one, or `None` where it stays, given
    /// what the frame at time `now` brought.
    ///
    /// While scanning, a delivered user leads to the question whether to
    /// relink where a card is linked already, and to waiting for the card
    /// otherwise. That question ends with "No", with "Yes" or by its
    /// timeout, in this order of precedence. Waiting for the card ends when
    /// the link is reported. The confirmation ends with "Start Over" or by
    /// its timeout.
    pub open spec fn next(self, events: Events, now: u64) -> Option<State> {
        match self {
            State::Camera => match events.checkin {
                Some(user) => if user.card_id is Some {
                    Some(State::AlreadyLinked { user, timeout: deadline(now, RELINK_TIMEOUT_MS) })
                } else {
                    Some(State::ScanCard { user })
                },
                None => None,
            },
            State::AlreadyLinked { user, timeout } => if events.no {
                Some(State::Camera)
            } else if events.yes {
                Some(State::ScanCard { user })
            } else if now > timeout {
                Some(State::Camera)
            } else {
                None
            },
            State::ScanCard { user } => if events.updated {
                Some(State::Linked { timeout: deadline(now, CONFIRM_TIMEOUT_MS) })
            } else {
                None
            },
            State::Linked { timeout } => if events.start_over || now > timeout {
                Some(State::Camera)
            } else {
                None
            },
        }
    }

    /// The screen after the frame: the one that `next` gives, or this one.
    pub open spec fn after(self, events: Events, now: u64) -> State {
        match self.next(events, now) {
            Some(screen) => screen,
            None => self,
        }
    }

    /// The kiosk is scanning.
    pub open spec fn spec_is_camera(&self) -> bool {
        *self is Camera
    }

    /// The kiosk is scanning.
    #[verifier::when_used_as_spec(spec_is_camera)]
    pub fn is_camera(&self) -> (scanning: bool)
        ensures
            scanning == self.spec_is_camera(),
    {
        match self {
            State::Camera => true,
            _ => false,
        }
    }

    /// Computes the transition of one frame: the screen afterwards, and
    /// whether it replaced this one.
    pub fn advance(self, events: Events, now: u64) -> (r: (State, bool))
        ensures
            r.0 == self.after(events, now),
            r.1 == self.next(events, now) is Some,
    {
        match self {
            State::Camera => match events.checkin {
                Some(user) => if user.has_card() {
                    (
                        State::AlreadyLinked {
                            user,
                            timeout: now.saturating_add(RELINK_TIMEOUT_MS),
                        },
                        true,
                    )
                } else {
                    (State::ScanCard { user }, true)
                },
                None => (State::Camera, false),
            },
            State::AlreadyLinked { user, timeout } => if events.no {
                (State::Camera, true)
            } else if events.yes {
                (State::ScanCard { user }, true)
            } else if now > timeout {
                (State::Camera, true)
            } else {
                (State::AlreadyLinked { user, timeout }, false)
            },
            State::ScanCard { user } => if events.updated {
                (State::Linked { timeout: now.saturating_add(CONFIRM_TIMEOUT_MS) }, true)
            } else {
                (State::ScanCard { user }, false)
            },
            State::Linked { timeout } => if events.start_over || now > timeout {
                (State::Camera, true)
            } else {
                (State::Linked { timeout }, false)
            },
        }
    }
}

/// The token that goes to the check-in worker, given what the QR worker
/// answered: the text of the code that it found. Nothing is offered where
/// it found none, or has not answered.
pub open spec fn spec_token_to_check(
    answer: Result<Option<([Point; 4], String)>, TaskError<Option<([Point; 4], String)>>>,
) -> Option<String> {
    match answer {
        Ok(Some((_, content))) => Some(content),
        _ => None,
    }
}

/// The token that goes to the check-in worker, given what the QR worker
/// answered: the text of the code that it found. Nothing is offered where
/// it found none, or has not answered.
#[verifier::when_used_as_spec(spec_token_to_check)]
pub fn token_to_check(
    answer: Result<Option<([Point; 4], String)>, TaskError<Option<([Point; 4], String)>>>,
) -> (token: Option<String>)
    ensures
        token == spec_token_to_check(answer),
{
    match answer {
        Ok(Some((_, content))) => Some(content),
        _ => None,
    }
}

/// `pair` is what goes to the update worker, given the screen and what the
/// card worker answered: while the kiosk waits for a card and an identifier
/// has come, a copy of the user whose card is waited for, together with
/// that identifier; nothing otherwise.
pub open spec fn is_link_to_ask(
    state: State,
    answer: Result<String, TaskError<String>>,
    pair: Option<(User, String)>,
) -> bool {
    match (state, answer) {
        (State::ScanCard { user }, Ok(card_id)) => pair matches Some(asked) && user.same(&asked.0)
            && asked.1 == card_id,
        _ => pair is None,
    }
}

/// What goes to the update worker, given the screen and what the card
/// worker answered: the user whose card is waited for, together with the
/// identifier that was read.
pub fn link_to_ask(state: &State, answer: Result<String, TaskError<String>>) -> (pair: Option<
    (User, String),
>)
    ensures
        is_link_to_ask(*state, answer, pair),
{
    match (state, answer) {
        (State::ScanCard { user }, Ok(card_id)) => Some((user.duplicate(), card_id)),
        _ => None,
    }
}

/// The kiosk: its screen and the caller handles of its four workers.
#[derive(Debug)]
pub struct App {
    pub state: State,
    pub qr_reader_caller: BackgroundTaskCaller<Frame, Option<([Point; 4], String)>>,
    pub qr_checkin_caller: BackgroundTaskCaller<String, User>,
    pub card_reader_caller: BackgroundTaskCaller<(), String>,
    pub user_update_caller: BackgroundTaskCaller<(User, String), ()>,
}

impl App {
    /// A kiosk that starts out scanning and owns the handles it is given.
    pub fn new(
        qr_reader_caller: BackgroundTaskCaller<Frame, Option<([Point; 4], String)>>,
        qr_checkin_caller: BackgroundTaskCaller<String, User>,
        card_reader_caller: BackgroundTaskCaller<(), String>,
        user_update_caller: BackgroundTaskCaller<(User, String), ()>,
    ) -> (app: Self)
        ensures
            app.state is Camera,
            app.qr_reader_caller == qr_reader_caller,
            app.qr_checkin_caller == qr_checkin_caller,
            app.card_reader_caller == card_reader_caller,
            app.user_update_caller == user_update_caller,
    {
        App {
            state: State::Camera,
            qr_reader_caller,
            qr_checkin_caller,
            card_reader_caller,
            user_update_caller,
        }
    }

    /// What a frame with the given input can have brought: the presses are
    /// those of the input; what the workers delivered is not known here.
    pub open spec fn brought(input: FrameInput, events: Events) -> bool {
        events.yes == input.yes && events.no == input.no && events.start_over == input.start_over
    }

    /// One frame. While scanning, the frame is offered to the QR worker, the
    /// token that `token_to_check` makes of its answer is offered to the
    /// check-in worker, and a user that the check-in worker delivered is
    /// picked up. While waiting for a card, a request is offered to the card
    /// worker, the pair that `link_to_ask` makes of its answer is offered to
    /// the update worker, and the update worker's report is picked up. None of
    /// this waits. Then the screen is replaced as `State::next` says of what
    /// was picked up and pressed; after a replacement, results that still wait
    /// are discarded, and the outcome says whether the camera stream is to
    /// run.
    pub fn update(&mut self, input: FrameInput) -> (outcome: FrameOutcome)
        ensures
            exists|events: Events|
                Self::brought(input, events) && final(self).state == (#[trigger] old(
                    self,
                ).state.after(events, input.now)) && outcome.changed == old(self).state.next(
                    events,
                    input.now,
                ) is Some,
            outcome.stream == if outcome.changed {
                Some(final(self).state.is_camera())
            } else {
                None::<bool>
            },
            !(old(self).state is Camera) && !(old(self).state is ScanCard) ==> final(self).state
                == old(self).state.after(
                Events {
                    checkin: None,
                    updated: false,
                    yes: input.yes,
                    no: input.no,
                    start_over: input.start_over,
                },
                input.now,
            ),
    {
        let mut checkin: Option<User> = None;
        let mut updated = false;
        match &self.state {
            State::Camera => {
                match input.frame {
                    Some(frame) => {
                        let _ = self.qr_reader_caller.try_call(frame);
                    },
                    None => {},
                }
                match token_to_check(self.qr_reader_caller.try_recv()) {
                    Some(token) => {
                        let _ = self.qr_checkin_caller.try_call(token);
                    },
                    None => {},
                }
                match self.qr_checkin_caller.try_recv() {
                    Ok(user) => {
                        checkin = Some(user);
                    },
                    Err(_) => {},
                }
            },
            State::ScanCard { .. } => {
                let _ = self.card_reader_caller.try_call(());
                match link_to_ask(&self.state, self.card_reader_caller.try_recv()) {
                    Some(pair) => {
                        let _ = self.user_update_caller.try_call(pair);
                    },
                    None => {},
                }
                updated = self.user_update_caller.try_recv().is_ok();
            },
            _ => {},
        }
        let events = Events {
            checkin,
            updated,
            yes: input.yes,
            no: input.no,
            start_over: input.start_over,
        };
        let mut current = State::Camera;
        std::mem::swap(&mut self.state, &mut current);
        let (next, changed) = current.advance(events, input.now);
        let scanning = next.is_camera();
        self.state = next;
        if changed {
            let _ = self.qr_reader_caller.try_recv();
            let _ = self.qr_checkin_caller.try_recv();
            let _ = self.card_reader_caller.try_recv();
            let _ = self.user_update_caller.try_recv();
            FrameOutcome { changed, stream: Some(scanning) }
        } else {
            FrameOutcome { changed, stream: None }
        }
    }
}

/// The screens follow one another in a fixed order: scanning leads to the
/// relink question or to waiting for the card, the question leads back to
/// scanning or on to waiting for the card, waiting leads to the
/// confirmation, and the confirmation leads back to scanning. The user who
/// was scanned is the user whose card is waited for.
pub proof fn law_screen_order(state: State, events: Events, now: u64)
    ensures
        match state.next(events, now) {
            None => true,
            Some(State::Camera) => state is AlreadyLinked || state is Linked,
            Some(State::AlreadyLinked { user, timeout }) => state is Camera && events.checkin
                == Some(user) && user.card_id is Some && timeout >= now,
            Some(State::ScanCard { user }) => (state is Camera && events.checkin == Some(user)
                && user.card_id is None) || (state matches State::AlreadyLinked {
                user: asked,
                ..
            } && asked == user),
            Some(State::Linked { timeout }) => state is ScanCard && timeout >= now,
        },
{
}

/// Without a delivery and without a press, only a timeout replaces a
/// screen, and only once its moment has passed.
pub proof fn law_idle_frame(state: State, now: u64)
    ensures
        ({
            let idle = Events {
                checkin: None,
                updated: false,
                yes: false,
                no: false,
                start_over: false,
            };
            match state {
                State::AlreadyLinked { timeout, .. } => state.next(idle, now) is Some <==> now
                    > timeout,
                State::Linked { timeout } => state.next(idle, now) is Some <==> now > timeout,
                _ => state.next(idle, now) is None,
            }
        }),
{
}

} // verus!
