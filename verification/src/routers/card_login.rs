//! `/card_login`: a door device reports a card; the door opens (`200`) when
//! the device's room has an approved reservation covering the current time
//! and the card exists and has not expired.  Each opening is recorded.
use vstd::prelude::*;
use vstd::string::StringExecFns;
use crate::model::{Card, Moment, Record, Reservation, Room, Status, active_at, card_usable, find_active, find_usable_card, moment_nanos, second_nanos};
use crate::trusted::{utc_now, earliest_utc_second, latest_utc_second, ClockReading};
use crate::validate::{contains_mac, is_card_id, is_hex_char, is_valid_card_id, is_valid_device_mac};

verus! {

/// The query of a card login.
pub struct Info {
    pub card_id: String,
    pub device_mac: String,
}

/// The reply of a card login.
pub enum CardLoginReply {
    /// `400`: the card id or the MAC address is malformed.
    InvalidInput,
    /// `400`: no room has this device.
    UnknownDevice { device_mac: String },
    /// `403`: no approved reservation of the room covers the current time,
    /// or the card is unknown or expired.
    Denied,
    /// `200`: the door opens; the opening is recorded.
    Approved,
    /// `500` with the text of the database error.
    DatabaseError(String),
    /// `500` with an empty body: the local time is out of range, or an
    /// event did not fit the state.
    Failed,
}

/// The status of each card login reply.
pub open spec fn card_login_status(r: CardLoginReply) -> Status {
    match r {
        CardLoginReply::InvalidInput => Status::BadRequest,
        CardLoginReply::UnknownDevice { .. } => Status::BadRequest,
        CardLoginReply::Denied => Status::Forbidden,
        CardLoginReply::Approved => Status::Success,
        CardLoginReply::DatabaseError(_) => Status::InternalServerError,
        CardLoginReply::Failed => Status::InternalServerError,
    }
}

/// The body text of each card login reply.
pub open spec fn card_login_body(r: CardLoginReply) -> Seq<char> {
    match r {
        CardLoginReply::UnknownDevice { device_mac } => "No room found for device: "@ + device_mac@,
        CardLoginReply::DatabaseError(e) => e@,
        _ => Seq::empty(),
    }
}

impl CardLoginReply {
    /// The status of the reply.
    pub fn status(&self) -> (s: Status)
        ensures
            s == card_login_status(*self),
    {
        match self {
            CardLoginReply::InvalidInput => Status::BadRequest,
            CardLoginReply::UnknownDevice { .. } => Status::BadRequest,
            CardLoginReply::Denied => Status::Forbidden,
            CardLoginReply::Approved => Status::Success,
            CardLoginReply::DatabaseError(_) => Status::InternalServerError,
            CardLoginReply::Failed => Status::InternalServerError,
        }
    }

    /// The body of the reply.
    pub fn body(&self) -> (b: String)
        ensures
            b@ == card_login_body(*self),
    {
        match self {
            CardLoginReply::UnknownDevice { device_mac } => {
                let mut b = "No room found for device: ".to_string();
                b.append(device_mac.as_str());
                b
            },
            CardLoginReply::DatabaseError(e) => e.clone(),
            _ => String::new(),
        }
    }
}

/// Where a card login stands.
pub enum CardLoginState {
    /// The input is well formed; waiting for the device's room.
    AwaitRoom { card_id: String, device_mac: String },
    /// Waiting for the reservations of the room; `now` is the local time,
    /// and `reading` the clock reading it was taken from, when the step read
    /// the clock itself.
    AwaitReservations {
        card_id: String,
        device_mac: String,
        room_id: String,
        now: Moment,
        reading: Option<ClockReading>,
    },
    /// Waiting for the card's rows; `granted_by` is a reservation of the
    /// room that opens it at `now`.
    AwaitCards {
        card_id: String,
        device_mac: String,
        room_id: String,
        now: Moment,
        granted_by: Ghost<Reservation>,
    },
    /// Waiting for the record of the opening to be stored.
    AwaitRecord { record: Record, granted_by: Ghost<Reservation>, card: Ghost<Card> },
    /// The reply is given.
    Finished,
}

/// What a card login asks the database for next, or its reply.
pub enum CardLoginAction {
    /// `SELECT * FROM Rooms WHERE device_mac = ?`, the first row.
    FindRoom { device_mac: String },
    /// `SELECT * FROM Reservations WHERE room_id = ?`, all rows.
    FindReservations { room_id: String },
    /// `SELECT * FROM Cards WHERE id = ?`, all rows.
    FindCards { card_id: String },
    /// Insert the record into `Records`.
    InsertRecord { record: Record },
    /// Answer.
    Respond(CardLoginReply),
}

/// What the database gave for the last action of a card login.
pub enum CardLoginEvent {
    /// The device's room, if there is one.
    Room(Option<Room>),
    /// The rows that the reservations query gave for the room.
    Reservations(Vec<Reservation>),
    /// The rows that the cards query gave for the card id.
    Cards(Vec<Card>),
    /// The record is stored.
    Recorded,
    /// The database call failed with this error text.
    Failed(String),
}

/// The offset of the local time from UTC, in seconds (eight hours).
pub open spec fn local_offset() -> int {
    8int * 3600int
}

/// The local time for a UTC moment, or `None` when it does not fit.
pub open spec fn local_time_of(utc: Moment) -> Option<Moment> {
    if utc.secs + local_offset() <= i64::MAX {
        Some(Moment { secs: (utc.secs + local_offset()) as i64, nanos: utc.nanos })
    } else {
        None
    }
}

/// The local time (UTC+8) of a UTC moment.
pub fn local_time(utc: &Moment) -> (r: Option<Moment>)
    ensures
        r == local_time_of(*utc),
        utc.secs + 28800 <= i64::MAX ==> (r matches Some(m) && m.secs == utc.secs + 28800 && m.nanos == utc.nanos),
        utc.secs + 28800 > i64::MAX ==> r is None,
{
    match utc.secs.checked_add(8 * 3600) {
        Some(secs) => Some(Moment { secs, nanos: utc.nanos }),
        None => None,
    }
}

/// The first step of a card login: a malformed card id or MAC address
/// answers `400`; else the device's room is looked up.
pub open spec fn card_login_begin(info: Info) -> (CardLoginState, CardLoginAction) {
    if is_card_id(info.card_id@) && contains_mac(info.device_mac@) {
        (
            CardLoginState::AwaitRoom { card_id: info.card_id, device_mac: info.device_mac },
            CardLoginAction::FindRoom { device_mac: info.device_mac },
        )
    } else {
        (CardLoginState::Finished, CardLoginAction::Respond(CardLoginReply::InvalidInput))
    }
}

/// What each state of a card login has established: the card id and the
/// MAC address are well formed; from `AwaitCards` on, a reservation given
/// for the room that opens it at `now`; from `AwaitRecord` on, also a card
/// row usable at the recorded time.
pub open spec fn card_login_wf(state: CardLoginState) -> bool {
    match state {
        CardLoginState::AwaitRoom { card_id, device_mac } =>
            is_card_id(card_id@) && contains_mac(device_mac@),
        CardLoginState::AwaitReservations { card_id, device_mac, .. } =>
            is_card_id(card_id@) && contains_mac(device_mac@),
        CardLoginState::AwaitCards { card_id, device_mac, now, granted_by, .. } =>
            is_card_id(card_id@) && contains_mac(device_mac@) && active_at(granted_by@, now),
        CardLoginState::AwaitRecord { record, granted_by, card } => {
            &&& is_card_id(record.card_id@)
            &&& contains_mac(record.device_mac@)
            &&& active_at(granted_by@, record.at)
            &&& card_usable(card@, record.at)
        },
        CardLoginState::Finished => true,
    }
}

/// One step of a card login, with `clock` the UTC moment that the step
/// reads when it needs the current time:
/// - an unknown device answers `400` with the text `No room found for
///   device: <mac>`; a known one fixes `now` as the local time (UTC+8) and
///   fetches the room's reservations;
/// - when none of the rows given for the room is approved and covers `now`,
///   `403`; else the card's rows are fetched;
/// - when none of the rows given for the card is unexpired at `now`, `403`;
///   else the opening (room, MAC, card, `now`) is recorded, and once
///   stored, `200`;
/// - a failed database call answers `500` with the error's text; a local
///   time out of range, or an event that does not fit the state, a bare
///   `500`.
pub open spec fn card_login_transition(
    state: CardLoginState,
    event: CardLoginEvent,
    clock: Moment,
    next: CardLoginState,
    action: CardLoginAction,
) -> bool {
    match (state, event) {
        (CardLoginState::AwaitRoom { device_mac, .. }, CardLoginEvent::Room(None)) =>
            next == CardLoginState::Finished
                && action == CardLoginAction::Respond(CardLoginReply::UnknownDevice { device_mac }),
        (CardLoginState::AwaitRoom { card_id, device_mac }, CardLoginEvent::Room(Some(room))) =>
            match local_time_of(clock) {
                None => next == CardLoginState::Finished
                    && action == CardLoginAction::Respond(CardLoginReply::Failed),
                Some(now) => {
                    &&& next matches CardLoginState::AwaitReservations { card_id: c, device_mac: m, room_id: r, now: n, .. }
                    &&& c == card_id && m == device_mac && r == room.room_id && n == now
                    &&& action == (CardLoginAction::FindReservations { room_id: room.room_id })
                },
            },
        (CardLoginState::AwaitReservations { card_id, device_mac, room_id, now, .. }, CardLoginEvent::Reservations(rows)) =>
            if exists|i: int| 0 <= i < rows@.len() && #[trigger] active_at(rows@[i], now) {
                &&& next matches CardLoginState::AwaitCards { card_id: c, device_mac: m, room_id: r, now: n, granted_by }
                &&& c == card_id && m == device_mac && r == room_id && n == now
                &&& rows@.contains(granted_by@)
                &&& active_at(granted_by@, now)
                &&& action == (CardLoginAction::FindCards { card_id })
            } else {
                next == CardLoginState::Finished && action == CardLoginAction::Respond(CardLoginReply::Denied)
            },
        (CardLoginState::AwaitCards { card_id, device_mac, room_id, now, granted_by }, CardLoginEvent::Cards(cards)) =>
            if exists|i: int| 0 <= i < cards@.len() && #[trigger] card_usable(cards@[i], now) {
                let record = Record { room_id, device_mac, card_id, at: now };
                &&& next matches CardLoginState::AwaitRecord { record: rec, granted_by: g, card }
                &&& rec == record && g == granted_by
                &&& cards@.contains(card@)
                &&& card_usable(card@, now)
                &&& action == (CardLoginAction::InsertRecord { record })
            } else {
                next == CardLoginState::Finished && action == CardLoginAction::Respond(CardLoginReply::Denied)
            },
        (CardLoginState::AwaitRecord { .. }, CardLoginEvent::Recorded) =>
            next == CardLoginState::Finished && action == CardLoginAction::Respond(CardLoginReply::Approved),
        (CardLoginState::AwaitRoom { .. }, CardLoginEvent::Failed(e)) =>
            next == CardLoginState::Finished && action == CardLoginAction::Respond(CardLoginReply::DatabaseError(e)),
        (CardLoginState::AwaitReservations { .. }, CardLoginEvent::Failed(e)) =>
            next == CardLoginState::Finished && action == CardLoginAction::Respond(CardLoginReply::DatabaseError(e)),
        (CardLoginState::AwaitCards { .. }, CardLoginEvent::Failed(e)) =>
            next == CardLoginState::Finished && action == CardLoginAction::Respond(CardLoginReply::DatabaseError(e)),
        (CardLoginState::AwaitRecord { .. }, CardLoginEvent::Failed(e)) =>
            next == CardLoginState::Finished && action == CardLoginAction::Respond(CardLoginReply::DatabaseError(e)),
        _ => next == CardLoginState::Finished && action == CardLoginAction::Respond(CardLoginReply::Failed),
    }
}

/// Starts a card login (see `card_login_begin`).
pub fn card_login_start(info: &Info) -> (r: (CardLoginState, CardLoginAction))
    ensures
        r == card_login_begin(*info),
        card_login_wf(r.0),
{
    if is_valid_card_id(info.card_id.as_str()) && is_valid_device_mac(info.device_mac.as_str()) {
        (
            CardLoginState::AwaitRoom { card_id: info.card_id.clone(), device_mac: info.device_mac.clone() },
            CardLoginAction::FindRoom { device_mac: info.device_mac.clone() },
        )
    } else {
        (CardLoginState::Finished, CardLoginAction::Respond(CardLoginReply::InvalidInput))
    }
}

/// Whether a step of a card login needs the current time.
pub open spec fn reads_clock(state: CardLoginState, event: CardLoginEvent) -> bool {
    state is AwaitRoom && event matches CardLoginEvent::Room(Some(_))
}

/// Takes one step of a card login with `clock` as the UTC moment (see
/// `card_login_transition`).
pub fn card_login_step_at(state: CardLoginState, event: CardLoginEvent, clock: &Moment) -> (r: (CardLoginState, CardLoginAction))
    ensures
        card_login_transition(state, event, *clock, r.0, r.1),
        card_login_wf(state) ==> card_login_wf(r.0),
        r.0 matches CardLoginState::AwaitReservations { reading, .. } ==> reading is None,
{
    match (state, event) {
        (CardLoginState::AwaitRoom { device_mac, .. }, CardLoginEvent::Room(None)) =>
            (CardLoginState::Finished, CardLoginAction::Respond(CardLoginReply::UnknownDevice { device_mac })),
        (CardLoginState::AwaitRoom { card_id, device_mac }, CardLoginEvent::Room(Some(room))) => {
            match local_time(clock) {
                None => (CardLoginState::Finished, CardLoginAction::Respond(CardLoginReply::Failed)),
                Some(now) => {
                    let room_id = room.room_id.clone();
                    (
                        CardLoginState::AwaitReservations { card_id, device_mac, room_id: room.room_id, now, reading: None },
                        CardLoginAction::FindReservations { room_id },
                    )
                },
            }
        },
        (CardLoginState::AwaitReservations { card_id, device_mac, room_id, now, .. }, CardLoginEvent::Reservations(rows)) => {
            match find_active(&rows, &now) {
                Some(i) => {
                    let ghost granted = rows@[i as int];
                    assert(rows@.contains(granted));
                    let action = CardLoginAction::FindCards { card_id: card_id.clone() };
                    (
                        CardLoginState::AwaitCards { card_id, device_mac, room_id, now, granted_by: Ghost(granted) },
                        action,
                    )
                },
                None => (CardLoginState::Finished, CardLoginAction::Respond(CardLoginReply::Denied)),
            }
        },
        (CardLoginState::AwaitCards { card_id, device_mac, room_id, now, granted_by }, CardLoginEvent::Cards(cards)) => {
            match find_usable_card(&cards, &now) {
                Some(i) => {
                    let ghost card = cards@[i as int];
                    assert(cards@.contains(card));
                    let record = Record { room_id, device_mac, card_id, at: now };
                    let action = CardLoginAction::InsertRecord { record: record.copy() };
                    (CardLoginState::AwaitRecord { record, granted_by, card: Ghost(card) }, action)
                },
                None => (CardLoginState::Finished, CardLoginAction::Respond(CardLoginReply::Denied)),
            }
        },
        (CardLoginState::AwaitRecord { .. }, CardLoginEvent::Recorded) =>
            (CardLoginState::Finished, CardLoginAction::Respond(CardLoginReply::Approved)),
        (CardLoginState::AwaitRoom { .. }, CardLoginEvent::Failed(e)) =>
            (CardLoginState::Finished, CardLoginAction::Respond(CardLoginReply::DatabaseError(e))),
        (CardLoginState::AwaitReservations { .. }, CardLoginEvent::Failed(e)) =>
            (CardLoginState::Finished, CardLoginAction::Respond(CardLoginReply::DatabaseError(e))),
        (CardLoginState::AwaitCards { .. }, CardLoginEvent::Failed(e)) =>
            (CardLoginState::Finished, CardLoginAction::Respond(CardLoginReply::DatabaseError(e))),
        (CardLoginState::AwaitRecord { .. }, CardLoginEvent::Failed(e)) =>
            (CardLoginState::Finished, CardLoginAction::Respond(CardLoginReply::DatabaseError(e))),
        _ => (CardLoginState::Finished, CardLoginAction::Respond(CardLoginReply::Failed)),
    }
}

/// A UTC moment that a `chrono::DateTime<Utc>` can hold, with nanoseconds
/// below one second.
pub open spec fn valid_clock(clock: Moment) -> bool {
    &&& earliest_utc_second() <= clock.secs <= latest_utc_second()
    &&& clock.nanos < 1_000_000_000
}

/// Takes one step of a card login, reading the clock only when the step
/// needs the current time (see `card_login_transition`).  The step is the
/// one for some clock reading that a `DateTime<Utc>` can hold; for such a
/// reading the local time always exists, so a known device always leads to
/// the reservations lookup.
pub fn card_login_step(state: CardLoginState, event: CardLoginEvent) -> (r: (CardLoginState, CardLoginAction))
    ensures
        exists|clock: Moment| valid_clock(clock) && #[trigger] card_login_transition(state, event, clock, r.0, r.1),
        card_login_wf(state) ==> card_login_wf(r.0),
        reads_clock(state, event) ==> r.1 is FindReservations,
        reads_clock(state, event) ==> (r.0 matches CardLoginState::AwaitReservations { now, reading: Some(c), .. }
            && now.secs == c.moment().secs + 8 * 3600 && now.nanos == c.moment().nanos),
        !reads_clock(state, event) ==> (r.0 matches CardLoginState::AwaitReservations { reading, .. } ==> reading is None),
{
    match (state, event) {
        (CardLoginState::AwaitRoom { card_id, device_mac }, CardLoginEvent::Room(Some(room))) => {
            let reading = utc_now();
            let clock = reading.get();
            assert(valid_clock(clock));
            match local_time(&clock) {
                None => (CardLoginState::Finished, CardLoginAction::Respond(CardLoginReply::Failed)),
                Some(now) => {
                    let room_id = room.room_id.clone();
                    let r = (
                        CardLoginState::AwaitReservations {
                            card_id,
                            device_mac,
                            room_id: room.room_id,
                            now,
                            reading: Some(reading),
                        },
                        CardLoginAction::FindReservations { room_id },
                    );
                    assert(card_login_transition(state, event, clock, r.0, r.1));
                    r
                },
            }
        },
        (state, event) => {
            let clock = Moment { secs: 0, nanos: 0 };
            let r = card_login_step_at(state, event, &clock);
            assert(valid_clock(clock));
            assert(card_login_transition(state, event, clock, r.0, r.1));
            r
        },
    }
}

/// A card login opens the door only from a state that was reached through
/// its checks: the card id has eight hexadecimal digits, the device's MAC
/// address is well formed, a reservation given for the room is approved and
/// covers the recorded time, and a row given for the card has not expired
/// at that time.
pub proof fn approval_is_justified(
    state: CardLoginState,
    event: CardLoginEvent,
    clock: Moment,
    next: CardLoginState,
    action: CardLoginAction,
)
    requires
        card_login_wf(state),
        card_login_transition(state, event, clock, next, action),
        action == CardLoginAction::Respond(CardLoginReply::Approved),
    ensures
        state matches CardLoginState::AwaitRecord { record, granted_by, card } && {
            &&& is_card_id(record.card_id@)
            &&& contains_mac(record.device_mac@)
            &&& !granted_by@.approval_pending
            &&& granted_by@.begins * 1_000_000_000 <= record.at.secs * 1_000_000_000 + record.at.nanos
            &&& granted_by@.ends * 1_000_000_000 >= record.at.secs * 1_000_000_000 + record.at.nanos
            &&& (card@.expire matches Some(e) ==> e * 1_000_000_000 >= record.at.secs * 1_000_000_000 + record.at.nanos)
        },
{
}

/// How a card login starts: it looks up the device's room exactly when the
/// card id is eight characters, each `0-9`, `a-f` or `A-F`, and the MAC
/// text holds a MAC address somewhere; otherwise it answers `400`.
pub proof fn card_login_begin_law(info: Info)
    ensures
        ({
            let c = info.card_id@;
            let card_ok = c.len() == 8 && forall|i: int| 0 <= i < 8 ==> {
                let ch = #[trigger] c[i];
                ('0' <= ch && ch <= '9') || ('a' <= ch && ch <= 'f') || ('A' <= ch && ch <= 'F')
            };
            &&& (card_ok && contains_mac(info.device_mac@))
                ==> card_login_begin(info).1 == (CardLoginAction::FindRoom { device_mac: info.device_mac })
            &&& !(card_ok && contains_mac(info.device_mac@))
                ==> card_login_begin(info).1 == CardLoginAction::Respond(CardLoginReply::InvalidInput)
        }),
{
    let c = info.card_id@;
    let card_ok = c.len() == 8 && forall|i: int| 0 <= i < 8 ==> {
        let ch = #[trigger] c[i];
        ('0' <= ch && ch <= '9') || ('a' <= ch && ch <= 'f') || ('A' <= ch && ch <= 'F')
    };
    if card_ok {
        assert forall|i: int| 0 <= i < 8 implies #[trigger] is_hex_char(c[i]) by {
            let ch = c[i];
        }
    }
    if is_card_id(c) {
        assert forall|i: int| 0 <= i < 8 implies {
            let ch = #[trigger] c[i];
            ('0' <= ch && ch <= '9') || ('a' <= ch && ch <= 'f') || ('A' <= ch && ch <= 'F')
        } by {
            assert(is_hex_char(c[i]));
        }
    }
}

/// After the device's room is found, the local time is the clock reading
/// plus exactly eight hours (the same nanoseconds), and the room's
/// reservations are fetched; an unknown device answers `400` with its MAC.
pub proof fn card_login_room_law(
    card_id: String,
    device_mac: String,
    room: Room,
    clock: Moment,
    next: CardLoginState,
    action: CardLoginAction,
)
    requires
        clock.secs + 28800 <= i64::MAX,
    ensures
        card_login_transition(CardLoginState::AwaitRoom { card_id, device_mac }, CardLoginEvent::Room(Some(room)), clock, next, action)
            ==> (next matches CardLoginState::AwaitReservations { card_id: c, device_mac: m, room_id: r, now, .. }
                && c == card_id && m == device_mac && r == room.room_id
                && now.secs == clock.secs + 28800 && now.nanos == clock.nanos
                && action == CardLoginAction::FindReservations { room_id: room.room_id }),
        card_login_transition(CardLoginState::AwaitRoom { card_id, device_mac }, CardLoginEvent::Room(None), clock, next, action)
            ==> action == CardLoginAction::Respond(CardLoginReply::UnknownDevice { device_mac }),
{
}

/// With the room's reservations in hand, a card login goes on to look up
/// the card exactly when one of them is approved and its span (ends
/// included) holds the local time, to the nanosecond; otherwise it answers
/// `403`.
pub proof fn card_login_reservations_law(
    card_id: String,
    device_mac: String,
    room_id: String,
    now: Moment,
    reading: Option<ClockReading>,
    rows: Vec<Reservation>,
    clock: Moment,
    next: CardLoginState,
    action: CardLoginAction,
)
    requires
        card_login_transition(
            (CardLoginState::AwaitReservations { card_id, device_mac, room_id, now, reading }),
            CardLoginEvent::Reservations(rows),
            clock,
            next,
            action,
        ),
    ensures
        (exists|i: int| 0 <= i < rows@.len() && {
            let x = #[trigger] rows@[i];
            !x.approval_pending && x.begins * 1_000_000_000 <= now.secs * 1_000_000_000 + now.nanos
                && x.ends * 1_000_000_000 >= now.secs * 1_000_000_000 + now.nanos
        }) ==> action == (CardLoginAction::FindCards { card_id }),
        !(exists|i: int| 0 <= i < rows@.len() && {
            let x = #[trigger] rows@[i];
            !x.approval_pending && x.begins * 1_000_000_000 <= now.secs * 1_000_000_000 + now.nanos
                && x.ends * 1_000_000_000 >= now.secs * 1_000_000_000 + now.nanos
        }) ==> action == CardLoginAction::Respond(CardLoginReply::Denied),
{
    if (exists|i: int| 0 <= i < rows@.len() && {
        let x = #[trigger] rows@[i];
        !x.approval_pending && x.begins * 1_000_000_000 <= now.secs * 1_000_000_000 + now.nanos
            && x.ends * 1_000_000_000 >= now.secs * 1_000_000_000 + now.nanos
    }) {
        let i = choose|i: int| 0 <= i < rows@.len() && {
            let x = #[trigger] rows@[i];
            !x.approval_pending && x.begins * 1_000_000_000 <= now.secs * 1_000_000_000 + now.nanos
                && x.ends * 1_000_000_000 >= now.secs * 1_000_000_000 + now.nanos
        };
        assert(active_at(rows@[i], now));
        assert(exists|j: int| 0 <= j < rows@.len() && #[trigger] active_at(rows@[j], now));
        let st = CardLoginState::AwaitReservations { card_id, device_mac, room_id, now, reading };
        let ev = CardLoginEvent::Reservations(rows);
        assert(card_login_transition(st, ev, clock, next, action));
        assert(ev->Reservations_0@ == rows@);
        assert(st->AwaitReservations_now == now);
        assert(active_at(ev->Reservations_0@[i], st->AwaitReservations_now));
        assert(next is AwaitCards);
        assert(action == (CardLoginAction::FindCards { card_id }));
    } else {
        assert forall|i: int| 0 <= i < rows@.len() implies !#[trigger] active_at(rows@[i], now) by {
            let x = rows@[i];
        }
    }
}

/// With the card's rows in hand, a card login records the opening (the
/// room, the MAC, the card and the local time) exactly when one row has no
/// expiry or expires at or after the local time; otherwise it answers
/// `403`.  A stored record answers `200`.
pub proof fn card_login_cards_law(
    card_id: String,
    device_mac: String,
    room_id: String,
    now: Moment,
    granted_by: Ghost<Reservation>,
    cards: Vec<Card>,
    clock: Moment,
    next: CardLoginState,
    action: CardLoginAction,
)
    requires
        card_login_transition(
            (CardLoginState::AwaitCards { card_id, device_mac, room_id, now, granted_by }),
            CardLoginEvent::Cards(cards),
            clock,
            next,
            action,
        ),
    ensures
        (exists|i: int| 0 <= i < cards@.len() && match (#[trigger] cards@[i]).expire {
            None => true,
            Some(e) => e * 1_000_000_000 >= now.secs * 1_000_000_000 + now.nanos,
        }) ==> action == (CardLoginAction::InsertRecord { record: (Record { room_id, device_mac, card_id, at: now }) }),
        !(exists|i: int| 0 <= i < cards@.len() && match (#[trigger] cards@[i]).expire {
            None => true,
            Some(e) => e * 1_000_000_000 >= now.secs * 1_000_000_000 + now.nanos,
        }) ==> action == CardLoginAction::Respond(CardLoginReply::Denied),
{
    if (exists|i: int| 0 <= i < cards@.len() && match (#[trigger] cards@[i]).expire {
        None => true,
        Some(e) => e * 1_000_000_000 >= now.secs * 1_000_000_000 + now.nanos,
    }) {
        let i = choose|i: int| 0 <= i < cards@.len() && match (#[trigger] cards@[i]).expire {
            None => true,
            Some(e) => e * 1_000_000_000 >= now.secs * 1_000_000_000 + now.nanos,
        };
        assert(card_usable(cards@[i], now));
    } else {
        assert forall|i: int| 0 <= i < cards@.len() implies !#[trigger] card_usable(cards@[i], now) by {
            let x = cards@[i];
        }
    }
}

/// A stored record of an opening answers `200`.
pub proof fn card_login_recorded_law(
    record: Record,
    granted_by: Ghost<Reservation>,
    card: Ghost<Card>,
    clock: Moment,
    next: CardLoginState,
    action: CardLoginAction,
)
    requires
        card_login_transition(
            (CardLoginState::AwaitRecord { record, granted_by, card }),
            CardLoginEvent::Recorded,
            clock,
            next,
            action,
        ),
    ensures
        action == CardLoginAction::Respond(CardLoginReply::Approved),
{
}

} // verus!
