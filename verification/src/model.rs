//! The rows of the database tables, as plain values, and the rules that
//! decide between them: which reservations conflict, which reservation
//! opens a room at a given time, and which card may be used.
//!
//! All date-time fields are seconds since 1970-01-01 00:00:00 of a
//! date-time without time zone (the tables store UTC+0 values).
use vstd::prelude::*;

verus! {

/// HTTP status codes that the handlers answer with.
#[derive(Clone, Copy, Debug, PartialEq, Eq)]
pub enum Status {
    Success,
    Created,
    NoContent,
    Found,
    BadRequest,
    Forbidden,
    NotFound,
    Conflict,
    InternalServerError,
}

impl Status {
    /// The numeric HTTP code.
    pub fn code(&self) -> (c: u16)
        ensures
            c == status_code(*self),
    {
        match self {
            Status::Success => 200,
            Status::Created => 201,
            Status::NoContent => 204,
            Status::Found => 302,
            Status::BadRequest => 400,
            Status::Forbidden => 403,
            Status::NotFound => 404,
            Status::Conflict => 409,
            Status::InternalServerError => 500,
        }
    }
}

/// The numeric HTTP code of each status.
pub open spec fn status_code(s: Status) -> u16 {
    match s {
        Status::Success => 200,
        Status::Created => 201,
        Status::NoContent => 204,
        Status::Found => 302,
        Status::BadRequest => 400,
        Status::Forbidden => 403,
        Status::NotFound => 404,
        Status::Conflict => 409,
        Status::InternalServerError => 500,
    }
}

/// A row of the `Users` table.
pub struct User {
    pub id: String,
    pub email: String,
    pub name: String,
}

/// A row of the `Cards` table: a card, its owner, and when it expires
/// (`None`: never).
pub struct Card {
    pub expire: Option<i64>,
    pub id: String,
    pub owner: String,
}

/// A row of the `Reservations` table.
pub struct Reservation {
    pub reservation_id: i32,
    pub room_id: String,
    pub user_id: String,
    pub description: Option<String>,
    pub begins: i64,
    pub ends: i64,
    pub approval_pending: bool,
}

/// A row of the `Rooms` table: the room that a door device belongs to.
pub struct Room {
    pub room_id: String,
    pub device_mac: String,
}

/// A row of the `Records` table: a card that opened a room's door.
pub struct Record {
    pub room_id: String,
    pub device_mac: String,
    pub card_id: String,
    pub at: Moment,
}

/// A row of the `Admins` table, matched by the console login.
pub struct Admin {
    pub username: String,
    pub password: String,
}

/// An exact copy of an optional text.
pub fn copy_opt_string(s: &Option<String>) -> (r: Option<String>)
    ensures
        r == *s,
{
    match s {
        Some(v) => Some(v.clone()),
        None => None,
    }
}

impl Reservation {
    /// An exact copy of the row.
    pub fn copy(&self) -> (r: Reservation)
        ensures
            r == *self,
    {
        Reservation {
            reservation_id: self.reservation_id,
            room_id: self.room_id.clone(),
            user_id: self.user_id.clone(),
            description: copy_opt_string(&self.description),
            begins: self.begins,
            ends: self.ends,
            approval_pending: self.approval_pending,
        }
    }
}

impl Card {
    /// An exact copy of the row.
    pub fn copy(&self) -> (r: Card)
        ensures
            r == *self,
    {
        Card { expire: self.expire, id: self.id.clone(), owner: self.owner.clone() }
    }
}

impl Record {
    /// An exact copy of the row.
    pub fn copy(&self) -> (r: Record)
        ensures
            r == *self,
    {
        Record {
            room_id: self.room_id.clone(),
            device_mac: self.device_mac.clone(),
            card_id: self.card_id.clone(),
            at: self.at.copy(),
        }
    }
}

impl Admin {
    /// An exact copy of the row.
    pub fn copy(&self) -> (r: Admin)
        ensures
            r == *self,
    {
        Admin { username: self.username.clone(), password: self.password.clone() }
    }
}

/// `other` stands in the way of the reservation `updated`.  `other` is a
/// row that the database gave for the room of `updated` (it matched the room
/// id under the table's collation); it conflicts when it is another
/// reservation (a different id), already approved, whose time span meets
/// the span of `updated` (it begins no later than `updated` ends and ends no
/// earlier than `updated` begins).
pub open spec fn conflicts_with(updated: Reservation, other: Reservation) -> bool {
    &&& other.reservation_id != updated.reservation_id
    &&& !other.approval_pending
    &&& other.begins <= updated.ends
    &&& other.ends >= updated.begins
}

/// Some row of `others` conflicts with `updated`.
pub open spec fn any_conflict(updated: Reservation, others: Seq<Reservation>) -> bool {
    exists|i: int| 0 <= i < others.len() && #[trigger] conflicts_with(updated, others[i])
}

/// Whether any of `others` conflicts with `updated`.
pub fn has_conflict(updated: &Reservation, others: &Vec<Reservation>) -> (b: bool)
    ensures
        b == any_conflict(*updated, others@),
        b == exists|i: int| 0 <= i < others@.len() && {
            let o = #[trigger] others@[i];
            &&& o.reservation_id != updated.reservation_id
            &&& !o.approval_pending
            &&& o.begins <= updated.ends
            &&& o.ends >= updated.begins
        },
{
    let n = others.len();
    for i in 0..n
        invariant
            n == others@.len(),
            forall|j: int| 0 <= j < i ==> !#[trigger] conflicts_with(*updated, others@[j]),
    {
        let o = &others[i];
        if o.reservation_id != updated.reservation_id && !o.approval_pending && o.begins <= updated.ends
            && o.ends >= updated.begins
        {
            assert(conflicts_with(*updated, others@[i as int]));
            return true;
        }
    }
    assert forall|j: int| 0 <= j < others@.len() implies !({
        let o = #[trigger] others@[j];
        &&& o.reservation_id != updated.reservation_id
        &&& !o.approval_pending
        &&& o.begins <= updated.ends
        &&& o.ends >= updated.begins
    }) by {
        assert(!conflicts_with(*updated, others@[j]));
    }
    false
}

/// A point in time with sub-second precision: seconds since 1970-01-01
/// 00:00:00 and nanoseconds past that second.
pub struct Moment {
    pub secs: i64,
    pub nanos: u32,
}

impl Moment {
    /// An exact copy.
    pub fn copy(&self) -> (r: Moment)
        ensures
            r == *self,
    {
        Moment { secs: self.secs, nanos: self.nanos }
    }
}

/// A moment in nanoseconds since the epoch.
pub open spec fn moment_nanos(m: Moment) -> int {
    m.secs * 1_000_000_000 + m.nanos
}

/// A whole-second time (as the tables store them) in nanoseconds.
pub open spec fn second_nanos(t: i64) -> int {
    t * 1_000_000_000
}

/// `t` (whole seconds) is at or before the moment `m`.
pub fn seconds_at_or_before(t: i64, m: &Moment) -> (b: bool)
    ensures
        b == (second_nanos(t) <= moment_nanos(*m)),
{
    (t as i128) * 1_000_000_000 <= (m.secs as i128) * 1_000_000_000 + (m.nanos as i128)
}

/// `t` (whole seconds) is at or after the moment `m`.
pub fn seconds_at_or_after(t: i64, m: &Moment) -> (b: bool)
    ensures
        b == (second_nanos(t) >= moment_nanos(*m)),
{
    (t as i128) * 1_000_000_000 >= (m.secs as i128) * 1_000_000_000 + (m.nanos as i128)
}

/// The reservation `r` opens its room at the moment `now`.  `r` is a row
/// that the database gave for the room (it matched the room id under the
/// table's collation); it opens the room when it is approved and `now` lies
/// within its span, both ends included.
pub open spec fn active_at(r: Reservation, now: Moment) -> bool {
    &&& !r.approval_pending
    &&& second_nanos(r.begins) <= moment_nanos(now)
    &&& second_nanos(r.ends) >= moment_nanos(now)
}

/// The index of the first row of `rows` that opens its room at `now`, or
/// `None` when no row does.
pub fn find_active(rows: &Vec<Reservation>, now: &Moment) -> (r: Option<usize>)
    ensures
        (r is Some) == exists|j: int| 0 <= j < rows@.len() && {
            let x = #[trigger] rows@[j];
            !x.approval_pending && x.begins * 1_000_000_000 <= now.secs * 1_000_000_000 + now.nanos
                && x.ends * 1_000_000_000 >= now.secs * 1_000_000_000 + now.nanos
        },
        match r {
            Some(i) => i < rows@.len() && active_at(rows@[i as int], *now)
                && forall|j: int| 0 <= j < i ==> !#[trigger] active_at(rows@[j], *now),
            None => forall|j: int| 0 <= j < rows@.len() ==> !#[trigger] active_at(rows@[j], *now),
        },
{
    let n = rows.len();
    for i in 0..n
        invariant
            n == rows@.len(),
            forall|j: int| 0 <= j < i ==> !#[trigger] active_at(rows@[j], *now),
    {
        let r = &rows[i];
        if !r.approval_pending && seconds_at_or_before(r.begins, now) && seconds_at_or_after(r.ends, now) {
            assert(active_at(rows@[i as int], *now));
            return Some(i);
        }
    }
    assert forall|j: int| 0 <= j < rows@.len() implies !({
        let x = #[trigger] rows@[j];
        !x.approval_pending && x.begins * 1_000_000_000 <= now.secs * 1_000_000_000 + now.nanos
            && x.ends * 1_000_000_000 >= now.secs * 1_000_000_000 + now.nanos
    }) by {
        assert(!active_at(rows@[j], *now));
    }
    None
}

/// The card `c` has not expired at `now`: it has no expiry, or expires at
/// `now` or later.  `c` is a row that the database gave for the card id (it
/// matched the id under the table's collation).
pub open spec fn card_usable(c: Card, now: Moment) -> bool {
    match c.expire {
        None => true,
        Some(e) => second_nanos(e) >= moment_nanos(now),
    }
}

/// The index of the first row of `cards` usable at `now`, or `None` when no
/// row is.
pub fn find_usable_card(cards: &Vec<Card>, now: &Moment) -> (r: Option<usize>)
    ensures
        (r is Some) == exists|j: int| 0 <= j < cards@.len() && match (#[trigger] cards@[j]).expire {
            None => true,
            Some(e) => e * 1_000_000_000 >= now.secs * 1_000_000_000 + now.nanos,
        },
        match r {
            Some(i) => i < cards@.len() && card_usable(cards@[i as int], *now)
                && forall|j: int| 0 <= j < i ==> !#[trigger] card_usable(cards@[j], *now),
            None => forall|j: int| 0 <= j < cards@.len() ==> !#[trigger] card_usable(cards@[j], *now),
        },
{
    let n = cards.len();
    for i in 0..n
        invariant
            n == cards@.len(),
            forall|j: int| 0 <= j < i ==> !#[trigger] card_usable(cards@[j], *now),
    {
        let unexpired = match cards[i].expire {
            None => true,
            Some(e) => seconds_at_or_after(e, now),
        };
        if unexpired {
            assert(card_usable(cards@[i as int], *now));
            return Some(i);
        }
    }
    assert forall|j: int| 0 <= j < cards@.len() implies !(match (#[trigger] cards@[j]).expire {
        None => true,
        Some(e) => e * 1_000_000_000 >= now.secs * 1_000_000_000 + now.nanos,
    }) by {
        assert(!card_usable(cards@[j], *now));
    }
    None
}

} // verus!
