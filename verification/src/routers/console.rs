//! `/console_login`: an administrator logs in to the console with a user
//! name and a password; the answer is the first matching `Admins` row.
use vstd::prelude::*;
use crate::model::{Admin, Status};
use crate::routers::RowEvent;
use crate::text::{is_single_select, lemma_count_absent};

verus! {

/// The body of a console login.
pub struct Request {
    pub password: String,
    pub username: String,
}

/// The reply of a console login.
pub enum ConsoleReply {
    /// `200` with the administrator's row as JSON.
    LoggedIn(Admin),
    /// `400`: no administrator has these credentials.
    Rejected,
}

impl ConsoleReply {
    /// The status of the reply.
    pub fn status(&self) -> (s: Status)
        ensures
            s == (match self {
                ConsoleReply::LoggedIn(_) => Status::Success,
                ConsoleReply::Rejected => Status::BadRequest,
            }),
    {
        match self {
            ConsoleReply::LoggedIn(_) => Status::Success,
            ConsoleReply::Rejected => Status::BadRequest,
        }
    }
}

/// What to do after reading one row of
/// `SELECT * FROM Admins WHERE password = ? AND username = ?`.
pub enum ConsoleStep {
    /// Read the next row.
    Continue,
    /// Answer.
    Respond(ConsoleReply),
}

/// One step of a console login over the rows of its query: the first row
/// that reads well logs in; a row that fails to read is skipped; the end
/// of the rows answers `400`.
pub open spec fn console_transition(event: RowEvent<Admin>) -> ConsoleStep {
    match event {
        RowEvent::Row(a) => ConsoleStep::Respond(ConsoleReply::LoggedIn(a)),
        RowEvent::Failed(_) => ConsoleStep::Continue,
        RowEvent::End => ConsoleStep::Respond(ConsoleReply::Rejected),
    }
}

/// Takes one step of a console login (see `console_transition`).
pub fn console_step(event: RowEvent<Admin>) -> (r: ConsoleStep)
    ensures
        r == console_transition(event),
{
    match event {
        RowEvent::Row(a) => ConsoleStep::Respond(ConsoleReply::LoggedIn(a)),
        RowEvent::Failed(_) => ConsoleStep::Continue,
        RowEvent::End => ConsoleStep::Respond(ConsoleReply::Rejected),
    }
}

/// Where a run of `console_step` over `events` ends: `None` while rows are
/// still to come, else the reply.
pub open spec fn console_run(events: Seq<RowEvent<Admin>>) -> Option<ConsoleReply>
    decreases events.len(),
{
    if events.len() == 0 {
        None
    } else {
        match console_transition(events[0]) {
            ConsoleStep::Continue => console_run(events.drop_first()),
            ConsoleStep::Respond(reply) => Some(reply),
        }
    }
}

/// A console login answers with the first row that reads well, whatever
/// failed reads came before it and whatever rows follow; when the rows end
/// before any reads well, it answers `400`.
pub proof fn console_login_takes_first_good_row(
    failures: Seq<RowEvent<Admin>>,
    last: RowEvent<Admin>,
    rest: Seq<RowEvent<Admin>>,
)
    requires
        forall|i: int| 0 <= i < failures.len() ==> (#[trigger] failures[i]) is Failed,
        !(last is Failed),
    ensures
        console_run(failures.push(last) + rest) == Some(match last {
            RowEvent::Row(a) => ConsoleReply::LoggedIn(a),
            _ => ConsoleReply::Rejected,
        }),
    decreases failures.len(),
{
    let events = failures.push(last) + rest;
    if failures.len() == 0 {
        assert(events[0] == last);
    } else {
        assert(events[0] == failures[0]);
        let tail = failures.drop_first();
        assert(events.drop_first() =~= tail.push(last) + rest);
        assert forall|i: int| 0 <= i < tail.len() implies (#[trigger] tail[i]) is Failed by {
            assert(tail[i] == failures[i + 1]);
        }
        console_login_takes_first_good_row(tail, last, rest);
    }
}

/// The text of the query that a console login runs.
pub open spec fn admin_query_text() -> Seq<char> {
    "SELECT * FROM Admins WHERE password = ? AND username = ?"@
}

/// The query that a console login runs, with the password and then the
/// user name bound to its placeholders; it only reads.
pub fn admin_query() -> (q: &'static str)
    ensures
        q@ == admin_query_text(),
{
    "SELECT * FROM Admins WHERE password = ? AND username = ?"
}

/// A console login only reads: its query is a single `SELECT` statement.
pub proof fn admin_query_is_read_only()
    ensures
        is_single_select(admin_query_text()),
{
    reveal_strlit("SELECT * FROM Admins WHERE password = ? AND username = ?");
    reveal_strlit("SELECT ");
    lemma_count_absent(admin_query_text(), ';');
    assert(admin_query_text().subrange(0, 7) =~= "SELECT "@);
}

/// Each step of a console login: a row read well logs that administrator
/// in, a failed read goes on to the next row, and the end of the rows
/// answers `400`.
pub proof fn console_step_law(a: Admin, error: String)
    ensures
        console_transition(RowEvent::Row(a)) == ConsoleStep::Respond(ConsoleReply::LoggedIn(a)),
        console_transition(RowEvent::Failed(error)) == ConsoleStep::Continue,
        console_transition(RowEvent::End) == ConsoleStep::Respond(ConsoleReply::Rejected),
{
}

} // verus!
