use watchcat_server::routers::card_login::{
    card_login_start, card_login_step, card_login_step_at, local_time, CardLoginAction, CardLoginEvent,
    CardLoginReply, CardLoginState, Info,
};
use watchcat_server::routers::token_login::{
    token_login_start, token_login_step, AccessToken, TokenLoginAction, TokenLoginEvent, TokenLoginReply,
    TokenLoginState, TokenPayload,
};
use watchcat_server::{Card, Moment, Reservation, Room, Status, User};

const NOW_UTC: i64 = 1_704_164_640;
const LOCAL: i64 = NOW_UTC + 8 * 3600;

fn at(secs: i64, nanos: u32) -> Moment {
    Moment { secs, nanos }
}

fn info(card: &str, mac: &str) -> Info {
    Info { card_id: card.to_string(), device_mac: mac.to_string() }
}

fn room() -> Room {
    Room { room_id: "R101".to_string(), device_mac: "aa:bb:cc:dd:ee:ff".to_string() }
}

fn reservation(room: &str, begins: i64, ends: i64, pending: bool) -> Reservation {
    Reservation {
        reservation_id: 1,
        room_id: room.to_string(),
        user_id: "42".to_string(),
        description: None,
        begins,
        ends,
        approval_pending: pending,
    }
}

fn card(id: &str, expire: Option<i64>) -> Card {
    Card { expire, id: id.to_string(), owner: "42".to_string() }
}

fn reply(action: CardLoginAction) -> CardLoginReply {
    match action {
        CardLoginAction::Respond(r) => r,
        _ => panic!("expected a reply"),
    }
}

fn to_reservations(clock: Moment) -> CardLoginState {
    let (state, action) = card_login_start(&info("0123abcd", "aa:bb:cc:dd:ee:ff"));
    match action {
        CardLoginAction::FindRoom { device_mac } => assert_eq!(device_mac, "aa:bb:cc:dd:ee:ff"),
        _ => panic!("expected room lookup"),
    }
    let (state, action) = card_login_step_at(state, CardLoginEvent::Room(Some(room())), &clock);
    match action {
        CardLoginAction::FindReservations { room_id } => assert_eq!(room_id, "R101"),
        _ => panic!("expected reservations lookup"),
    }
    state
}

#[test]
fn local_time_is_eight_hours_ahead() {
    let l = local_time(&at(0, 5)).unwrap();
    assert_eq!((l.secs, l.nanos), (28800, 5));
    assert_eq!(local_time(&at(i64::MAX - 28800, 0)).map(|m| m.secs), Some(i64::MAX));
    assert!(local_time(&at(i64::MAX - 28799, 0)).is_none());
}

#[test]
fn malformed_card_or_mac_is_bad_request() {
    let (_, action) = card_login_start(&info("0123abc", "aa:bb:cc:dd:ee:ff"));
    assert_eq!(reply(action).status(), Status::BadRequest);
    let (_, action) = card_login_start(&info("0123abcd", "aa:bb:cc:dd:ee"));
    assert_eq!(reply(action).status(), Status::BadRequest);
}

#[test]
fn unknown_device_is_bad_request_with_text() {
    let (state, _) = card_login_start(&info("0123abcd", "aa:bb:cc:dd:ee:ff"));
    let (_, action) = card_login_step(state, CardLoginEvent::Room(None));
    let r = reply(action);
    assert_eq!(r.status(), Status::BadRequest);
    assert_eq!(r.body(), "No room found for device: aa:bb:cc:dd:ee:ff");
}

#[test]
fn approved_card_login_records_and_opens() {
    let state = to_reservations(at(NOW_UTC, 0));
    let rows = vec![reservation("R101", LOCAL - 60, LOCAL, true), reservation("R101", LOCAL, LOCAL + 60, false)];
    let (state, action) = card_login_step_at(state, CardLoginEvent::Reservations(rows), &at(0, 0));
    match action {
        CardLoginAction::FindCards { card_id } => assert_eq!(card_id, "0123abcd"),
        _ => panic!("expected card lookup"),
    }
    let (state, action) =
        card_login_step_at(state, CardLoginEvent::Cards(vec![card("0123abcd", Some(LOCAL))]), &at(0, 0));
    match action {
        CardLoginAction::InsertRecord { record } => {
            assert_eq!(record.room_id, "R101");
            assert_eq!(record.device_mac, "aa:bb:cc:dd:ee:ff");
            assert_eq!(record.card_id, "0123abcd");
            assert_eq!((record.at.secs, record.at.nanos), (LOCAL, 0));
        }
        _ => panic!("expected record"),
    }
    let (state, action) = card_login_step_at(state, CardLoginEvent::Recorded, &at(0, 0));
    let r = reply(action);
    assert!(matches!(r, CardLoginReply::Approved));
    assert_eq!(r.status(), Status::Success);
    assert!(matches!(state, CardLoginState::Finished));
}

#[test]
fn no_covering_approved_reservation_is_forbidden() {
    let state = to_reservations(at(NOW_UTC, 0));
    let rows = vec![
        reservation("R101", LOCAL - 60, LOCAL + 60, true),
        reservation("R101", LOCAL + 1, LOCAL + 60, false),
        reservation("R101", NOW_UTC - 60, NOW_UTC + 60, false),
    ];
    let (_, action) = card_login_step_at(state, CardLoginEvent::Reservations(rows), &at(0, 0));
    assert_eq!(reply(action).status(), Status::Forbidden);
}

#[test]
fn expired_or_unknown_card_is_forbidden() {
    let state = to_reservations(at(NOW_UTC, 0));
    let rows = vec![reservation("R101", LOCAL - 60, LOCAL + 60, false)];
    let (state, _) = card_login_step_at(state, CardLoginEvent::Reservations(rows), &at(0, 0));
    let cards = vec![card("0123abcd", Some(LOCAL - 1))];
    let (_, action) = card_login_step_at(state, CardLoginEvent::Cards(cards), &at(0, 0));
    assert_eq!(reply(action).status(), Status::Forbidden);
}

#[test]
fn card_without_expiry_opens() {
    let state = to_reservations(at(NOW_UTC, 0));
    let rows = vec![reservation("R101", LOCAL - 60, LOCAL + 60, false)];
    let (state, _) = card_login_step_at(state, CardLoginEvent::Reservations(rows), &at(0, 0));
    let (_, action) = card_login_step_at(state, CardLoginEvent::Cards(vec![card("0123abcd", None)]), &at(0, 0));
    assert!(matches!(action, CardLoginAction::InsertRecord { .. }));
}

#[test]
fn database_failure_is_internal_error() {
    let state = to_reservations(at(NOW_UTC, 0));
    let (_, action) = card_login_step_at(state, CardLoginEvent::Failed("gone away".to_string()), &at(0, 0));
    let r = reply(action);
    assert_eq!(r.status(), Status::InternalServerError);
    assert_eq!(r.body(), "gone away");
}

fn payload() -> TokenPayload {
    TokenPayload { sub: "1234567890".to_string(), email: Some("a@b.c".to_string()), name: Some("Ann".to_string()) }
}

#[test]
fn rejected_token_is_bad_request_with_text() {
    let (state, action) = token_login_start(&AccessToken { access_token: "tok".to_string() });
    match action {
        TokenLoginAction::ValidateToken { access_token } => assert_eq!(access_token, "tok"),
        _ => panic!("expected validation"),
    }
    let (_, action) = token_login_step(state, TokenLoginEvent::Rejected);
    match action {
        TokenLoginAction::Respond(r) => {
            assert_eq!(r.status(), Status::BadRequest);
            assert_eq!(r.body(), "Failed to validate access token.");
            assert!(r.cookie().is_none());
        }
        _ => panic!("expected a reply"),
    }
}

#[test]
fn new_user_is_registered_then_logged_in() {
    let (state, _) = token_login_start(&AccessToken { access_token: "tok".to_string() });
    let (state, action) = token_login_step(state, TokenLoginEvent::Validated(payload()));
    match action {
        TokenLoginAction::FindUser { id } => assert_eq!(id, "1234567890"),
        _ => panic!("expected lookup"),
    }
    let (state, action) = token_login_step(state, TokenLoginEvent::Users(Vec::new()));
    match action {
        TokenLoginAction::InsertUser { id, email, name } => {
            assert_eq!(id, "1234567890");
            assert_eq!(email.as_deref(), Some("a@b.c"));
            assert_eq!(name.as_deref(), Some("Ann"));
        }
        _ => panic!("expected insert"),
    }
    let (_, action) = token_login_step(state, TokenLoginEvent::Inserted);
    match action {
        TokenLoginAction::Respond(r) => {
            assert_eq!(r.status(), Status::Found);
            assert_eq!(r.location().as_deref(), Some("/after_login"));
            let c = r.cookie().unwrap();
            assert_eq!(c.name, "user-logged");
            assert_eq!(c.value, "1234567890");
            assert_eq!(c.max_age_days, 1);
        }
        _ => panic!("expected a reply"),
    }
}

#[test]
fn known_user_logs_in_without_insert() {
    let (state, _) = token_login_start(&AccessToken { access_token: "tok".to_string() });
    let (state, _) = token_login_step(state, TokenLoginEvent::Validated(payload()));
    let known = vec![User { id: "1234567890".to_string(), email: String::new(), name: String::new() }];
    let (_, action) = token_login_step(state, TokenLoginEvent::Users(known));
    match action {
        TokenLoginAction::Respond(TokenLoginReply::LoggedIn { user_id }) => assert_eq!(user_id, "1234567890"),
        _ => panic!("expected login"),
    }
}

#[test]
fn sub_second_time_past_the_end_is_denied() {
    let state = to_reservations(at(NOW_UTC, 500_000_000));
    let rows = vec![reservation("R101", LOCAL - 60, LOCAL, false)];
    let (_, action) = card_login_step_at(state, CardLoginEvent::Reservations(rows), &at(0, 0));
    assert_eq!(reply(action).status(), Status::Forbidden);
}

#[test]
fn card_expiring_within_the_current_second_is_denied() {
    let state = to_reservations(at(NOW_UTC, 1));
    let rows = vec![reservation("R101", LOCAL - 60, LOCAL + 60, false)];
    let (state, _) = card_login_step_at(state, CardLoginEvent::Reservations(rows), &at(0, 0));
    let (_, action) = card_login_step_at(state, CardLoginEvent::Cards(vec![card("0123ABCD", Some(LOCAL))]), &at(0, 0));
    assert_eq!(reply(action).status(), Status::Forbidden);
}

#[test]
fn card_row_matched_by_the_database_opens_regardless_of_case() {
    let state = to_reservations(at(NOW_UTC, 0));
    let rows = vec![reservation("r101", LOCAL - 60, LOCAL + 60, false)];
    let (state, _) = card_login_step_at(state, CardLoginEvent::Reservations(rows), &at(0, 0));
    let (_, action) = card_login_step_at(state, CardLoginEvent::Cards(vec![card("0123ABCD", None)]), &at(0, 0));
    assert!(matches!(action, CardLoginAction::InsertRecord { .. }));
}

#[test]
fn token_login_database_failure_is_500_with_text() {
    let (state, _) = token_login_start(&AccessToken { access_token: "tok".to_string() });
    let (state, _) = token_login_step(state, TokenLoginEvent::Validated(payload()));
    let (_, action) = token_login_step(state, TokenLoginEvent::Failed("no db".to_string()));
    match action {
        TokenLoginAction::Respond(r) => {
            assert_eq!(r.status(), Status::InternalServerError);
            assert_eq!(r.body(), "no db");
        }
        _ => panic!("expected a reply"),
    }
}

#[test]
fn card_login_step_with_known_device_reads_the_clock() {
    let (state, _) = card_login_start(&info("0123abcd", "aa:bb:cc:dd:ee:ff"));
    let (_, action) = card_login_step(state, CardLoginEvent::Room(Some(room())));
    assert!(matches!(action, CardLoginAction::FindReservations { .. }));
}
