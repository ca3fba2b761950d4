use card_linker::client::{HttpRequest, LeashAuthenticator, LeashClient, Method};
use card_linker::qr::{Frame, GrayFrame, GridReading, Point};
use card_linker::reader::{AsyncPcsc, CardError, ConnectStep};
use card_linker::state::{App, FrameInput, State};
use card_linker::tasks::{new_task, BackgroundTaskFunction};
use card_linker::timestamp::Timestamp;
use card_linker::user::User;
use card_linker::workers::{card_task, qr_checkin_task, qr_reader_task, update_task, Round};

/// Finds and decodes the squares in a grey frame with `rqrr`.
fn scan(gray: GrayFrame) -> Vec<GridReading> {
    let img = image::GrayImage::from_raw(gray.width, gray.height, gray.luma).unwrap();
    let mut prepared = rqrr::PreparedImage::prepare(img);
    prepared
        .detect_grids()
        .iter()
        .map(|g| GridReading {
            bounds: g.bounds.map(|p| Point { x: p.x, y: p.y }),
            content: g.decode().ok().map(|decoded| decoded.1),
        })
        .collect()
}

struct Workers {
    qr_reader: BackgroundTaskFunction<Frame, Option<([Point; 4], String)>>,
    qr_checkin: BackgroundTaskFunction<String, User>,
    card_reader: BackgroundTaskFunction<(), String>,
    user_update: BackgroundTaskFunction<(User, String), ()>,
}

impl Workers {
    /// What every worker does at the top of its loop, short of waiting.
    fn wait_for_work(&mut self) {
        assert!(self.qr_reader.try_recv().is_err());
        assert!(self.qr_checkin.try_recv().is_err());
        assert!(self.card_reader.try_recv().is_err());
        assert!(self.user_update.try_recv().is_err());
    }
}

fn kiosk() -> (App, Workers) {
    let (qr_reader, qr_reader_caller) = new_task();
    let (qr_checkin, qr_checkin_caller) = new_task();
    let (card_reader, card_reader_caller) = new_task();
    let (user_update, user_update_caller) = new_task();
    let mut workers = Workers {
        qr_reader,
        qr_checkin,
        card_reader,
        user_update,
    };
    workers.wait_for_work();
    (
        App::new(
            qr_reader_caller,
            qr_checkin_caller,
            card_reader_caller,
            user_update_caller,
        ),
        workers,
    )
}

fn api() -> LeashClient {
    LeashClient::new(
        LeashAuthenticator::ApiKey("kiosk-key".to_string()),
        "https://leash.example.net".to_string(),
    )
}

fn directory_user(id: u32, card_id: Option<&str>) -> User {
    let at = Timestamp {
        secs: 1_700_000_000,
        nanos: 500,
    };
    User {
        id,
        created_at: at,
        updated_at: at,
        deleted_at: None,
        email: "ann@example.net".to_string(),
        pending_email: None,
        card_id: card_id.map(|c| c.to_string()),
        name: "Ann".to_string(),
        pronouns: "she/her".to_string(),
        role: "member".to_string(),
        user_type: "student".to_string(),
        graduation_year: Some(2027),
        major: Some("Physics".to_string()),
        department: None,
        job_title: None,
        preload_trainings: None,
        preload_holds: None,
        preload_api_keys: None,
        preload_user_updates: None,
        preload_notifications: None,
        permissions: vec!["user".to_string()],
        endpoint_prefix: String::new(),
    }
}

fn frame_with_code(text: &str) -> Frame {
    let code = qrcode::QrCode::new(text.as_bytes()).unwrap();
    let (scale, margin) = (5usize, 4usize);
    let side = (code.width() + 2 * margin) * scale;
    let mut pixels = vec![255u8; 3 * side * side];
    for my in 0..code.width() {
        for mx in 0..code.width() {
            if code[(mx, my)] == qrcode::Color::Dark {
                for dy in 0..scale {
                    for dx in 0..scale {
                        let at = 3 * (((my + margin) * scale + dy) * side + (mx + margin) * scale + dx);
                        pixels[at..at + 3].copy_from_slice(&[0, 0, 0]);
                    }
                }
            }
        }
    }
    Frame {
        width: side as u32,
        height: side as u32,
        pixels,
    }
}

fn white_frame() -> Frame {
    Frame {
        width: 145,
        height: 145,
        pixels: vec![255u8; 3 * 145 * 145],
    }
}

fn frame_at(now: u64, frame: Frame) -> FrameInput {
    FrameInput {
        now,
        frame: Some(frame),
        yes: false,
        no: false,
        start_over: false,
    }
}

fn idle(now: u64) -> FrameInput {
    FrameInput {
        now,
        frame: None,
        yes: false,
        no: false,
        start_over: false,
    }
}

#[test]
fn visible_code_checks_the_user_in_and_waits_for_the_card() {
    let (mut app, mut workers) = kiosk();
    assert!(!app.update(frame_at(0, frame_with_code("tok-123"))).changed);
    assert_eq!(qr_reader_task(&mut workers.qr_reader, scan), Round::Answered);
    assert!(!app.update(frame_at(16, frame_with_code("tok-123"))).changed);
    let round = qr_checkin_task(&api(), &mut workers.qr_checkin, |request: HttpRequest| {
        assert_eq!(request.method, Method::Get);
        assert_eq!(
            request.url,
            "https://leash.example.net/api/users/get/checkin/tok-123?"
        );
        assert_eq!(request.authorization, "API-Key kiosk-key");
        Some(directory_user(42, None))
    });
    assert_eq!(round, Round::Answered);
    let outcome = app.update(frame_at(32, frame_with_code("tok-123")));
    assert!(outcome.changed);
    assert_eq!(outcome.stream, Some(false));
    match &app.state {
        State::ScanCard { user } => {
            assert_eq!(user.id, 42);
            assert_eq!(user.card_id, None);
            assert_eq!(user.email, "ann@example.net");
        }
        other => panic!("unexpected: {:?}", other),
    }
}

#[test]
fn frame_without_code_leaves_the_kiosk_scanning() {
    let (mut app, mut workers) = kiosk();
    for n in 0..4u64 {
        assert!(!app.update(frame_at(16 * n, white_frame())).changed);
        if n == 0 {
            assert_eq!(qr_reader_task(&mut workers.qr_reader, scan), Round::Answered);
        }
        assert!(app.state.is_camera());
    }
    // the check-in worker was never asked
    assert!(workers.qr_checkin.try_recv().is_err());
}

#[test]
fn user_with_a_card_is_asked_and_may_relink() {
    let (mut app, mut workers) = kiosk();
    assert!(!app.update(frame_at(0, frame_with_code("tok-9"))).changed);
    assert_eq!(qr_reader_task(&mut workers.qr_reader, scan), Round::Answered);
    assert!(!app.update(idle(16)).changed);
    let round = qr_checkin_task(&api(), &mut workers.qr_checkin, |_| {
        Some(directory_user(9, Some("04A23B1C5D6E80")))
    });
    assert_eq!(round, Round::Answered);
    let outcome = app.update(idle(1_000));
    assert!(outcome.changed);
    assert_eq!(outcome.stream, Some(false));
    assert!(matches!(
        app.state,
        State::AlreadyLinked {
            timeout: 11_000,
            ..
        }
    ));
    let outcome = app.update(FrameInput {
        yes: true,
        ..idle(2_000)
    });
    assert!(outcome.changed);
    assert!(matches!(&app.state, State::ScanCard { user } if user.id == 9));
}

#[test]
fn failed_check_in_is_tried_again_with_the_next_code() {
    let (mut app, mut workers) = kiosk();
    assert!(!app.update(frame_at(0, frame_with_code("tok-123"))).changed);
    assert_eq!(qr_reader_task(&mut workers.qr_reader, scan), Round::Answered);
    assert!(!app.update(idle(16)).changed);
    // the directory cannot be reached
    assert_eq!(
        qr_checkin_task(&api(), &mut workers.qr_checkin, |_| None),
        Round::Skipped
    );
    assert!(!app.update(idle(32)).changed);
    assert!(app.state.is_camera());
    // the workers wait for work again, and the next frame starts over
    workers.wait_for_work();
    assert!(!app.update(frame_at(48, frame_with_code("tok-123"))).changed);
    assert_eq!(qr_reader_task(&mut workers.qr_reader, scan), Round::Answered);
    assert!(!app.update(idle(64)).changed);
    assert_eq!(
        qr_checkin_task(&api(), &mut workers.qr_checkin, |_| Some(
            directory_user(42, None)
        )),
        Round::Answered
    );
    assert!(app.update(idle(80)).changed);
    assert!(matches!(app.state, State::ScanCard { .. }));
}

#[test]
fn card_tapped_after_three_seconds_is_linked_and_confirmed() {
    let (mut app, mut workers) = kiosk();
    app.state = State::ScanCard {
        user: directory_user(42, None),
    };
    // the kiosk asks for a card
    assert!(!app.update(idle(0)).changed);
    // the card worker polls: no card for three seconds, then one appears
    let settings = AsyncPcsc::new();
    let waited = std::cell::Cell::new(0u64);
    let round = card_task(&mut workers.card_reader, || {
        let attempts = [
            Err(CardError::NoSmartcard),
            Err(CardError::NoSmartcard),
            Err(CardError::NoSmartcard),
            Ok(()),
        ];
        for attempt in attempts {
            match settings.connect(attempt) {
                ConnectStep::Retry(ms) => waited.set(waited.get() + ms),
                ConnectStep::Connected => {
                    return Some(vec![0x04, 0xA2, 0x3B, 0x1C, 0x5D, 0x6E, 0x80, 0x90, 0x00])
                }
                ConnectStep::GiveUp => return None,
            }
        }
        None
    });
    assert_eq!(round, Round::Answered);
    assert_eq!(waited.get(), 3_000);
    // meanwhile the kiosk kept showing the card screen
    assert!(!app.update(idle(3_000)).changed);
    // the identifier went on to the update worker
    let round = update_task(&api(), &mut workers.user_update, |request: HttpRequest| {
        assert_eq!(request.method, Method::Patch);
        assert_eq!(request.url, "https://leash.example.net/api/users/42?");
        assert_eq!(
            request.json_body.as_deref(),
            Some("{\"card_id\": \"04A23B1C5D6E80\"}")
        );
        true
    });
    assert_eq!(round, Round::Answered);
    let outcome = app.update(idle(3_016));
    assert!(outcome.changed);
    assert_eq!(outcome.stream, Some(false));
    assert!(matches!(app.state, State::Linked { timeout: 8_016 }));
    // the confirmation stays for five seconds
    assert!(!app.update(idle(8_016)).changed);
    let outcome = app.update(idle(8_017));
    assert!(outcome.changed);
    assert_eq!(outcome.stream, Some(true));
    assert!(app.state.is_camera());
}

#[test]
fn workers_stop_once_the_kiosk_is_gone() {
    let (app, mut workers) = kiosk();
    drop(app);
    assert_eq!(qr_reader_task(&mut workers.qr_reader, scan), Round::Closed);
    assert_eq!(
        qr_checkin_task(&api(), &mut workers.qr_checkin, |_| None),
        Round::Closed
    );
    assert_eq!(
        card_task(&mut workers.card_reader, || None),
        Round::Closed
    );
    assert_eq!(
        update_task(&api(), &mut workers.user_update, |_| true),
        Round::Closed
    );
    assert!(!Round::Closed.goes_on());
}
