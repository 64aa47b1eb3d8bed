//! `/reserve`: create (PUT), list (GET), update (PATCH) and delete (DELETE)
//! room reservations.
use vstd::prelude::*;
use crate::model::{Reservation, Status, any_conflict, conflicts_with, has_conflict, copy_opt_string};
use crate::trusted::{parse_timestamp, parsed_timestamp};
use crate::text::{contains_text, occurs_in, count_char, lemma_count_concat, lemma_count_absent, is_single_select};
use crate::routers::RowEvent;
use vstd::string::StringExecFns;

verus! {

/// The body of a PUT: a reservation to create.  `begins` and `ends` are
/// written `YYYY-mm-DD HH:MM`.
pub struct PutRequest {
    pub room_id: String,
    pub user_id: String,
    pub description: String,
    pub begins: String,
    pub ends: String,
}

/// The query of a GET: the filters, each optional.
pub struct GetRequest {
    pub room_id: Option<String>,
    pub user_id: Option<String>,
    pub begin: Option<String>,
    pub ends: Option<String>,
    pub approval_pending: Option<bool>,
    pub description: Option<String>,
}

/// The body of a PATCH: the reservation to change and the fields to set.
pub struct PatchRequest {
    pub reservation_id: i32,
    pub room_id: Option<String>,
    pub user_id: Option<String>,
    pub begin: Option<String>,
    pub ends: Option<String>,
    pub approval_pending: Option<bool>,
    pub description: Option<String>,
}

/// The body of a DELETE: the id of the reservation to remove.
pub struct DeleteRequest {
    pub reservation_id: String,
}

/// A reservation to insert; the table gives it its id and marks it pending.
pub struct NewReservation {
    pub room_id: String,
    pub user_id: String,
    pub description: String,
    pub begins: i64,
    pub ends: i64,
}

/// The format in which clients write date-times: `YYYY-mm-DD HH:MM`.
pub open spec fn datetime_format() -> Seq<char> {
    "%Y-%m-%d %H:%M"@
}

// ---------------------------------------------------------------- PUT

/// What a PUT asks to insert, given its two date-times as parsed (`None`:
/// the text did not parse): the reservation, or `BadRequest` when either
/// date-time did not parse.
pub open spec fn put_outcome(req: PutRequest, begins: Option<i64>, ends: Option<i64>) -> Result<NewReservation, Status> {
    match (begins, ends) {
        (Some(b), Some(e)) => Ok(NewReservation {
            room_id: req.room_id,
            user_id: req.user_id,
            description: req.description,
            begins: b,
            ends: e,
        }),
        _ => Err(Status::BadRequest),
    }
}

/// Builds the row that a PUT inserts from its parsed date-times.
pub fn put_with_times(req: &PutRequest, begins: Option<i64>, ends: Option<i64>) -> (r: Result<NewReservation, Status>)
    ensures
        r == put_outcome(*req, begins, ends),
        r is Ok <==> (begins is Some && ends is Some),
        r matches Err(s) ==> s == Status::BadRequest,
        r matches Ok(n) ==> n.room_id == req.room_id && n.user_id == req.user_id && n.description == req.description
            && Some(n.begins) == begins && Some(n.ends) == ends,
{
    let b = match begins {
        Some(v) => v,
        None => return Err(Status::BadRequest),
    };
    let e = match ends {
        Some(v) => v,
        None => return Err(Status::BadRequest),
    };
    Ok(NewReservation {
        room_id: req.room_id.clone(),
        user_id: req.user_id.clone(),
        description: req.description.clone(),
        begins: b,
        ends: e,
    })
}

/// Parses the two date-times of a PUT and builds the row to insert, or
/// answers `BadRequest` when one of them does not parse.  Once the row is
/// inserted the reply is `Created`.
pub fn prepare_put(req: &PutRequest) -> (r: Result<NewReservation, Status>)
    ensures
        r == put_outcome(
            *req,
            parsed_timestamp(req.begins@, datetime_format()),
            parsed_timestamp(req.ends@, datetime_format()),
        ),
{
    let begins = parse_timestamp(req.begins.as_str(), "%Y-%m-%d %H:%M");
    if begins.is_none() {
        return Err(Status::BadRequest);
    }
    let ends = parse_timestamp(req.ends.as_str(), "%Y-%m-%d %H:%M");
    put_with_times(req, begins, ends)
}

// ---------------------------------------------------------------- GET

/// A value bound to a `?` placeholder of a query.
#[derive(Debug, PartialEq, Eq)]
pub enum Param {
    /// A text, bound as a string.
    Text(String),
    /// A flag, bound as a boolean.
    Flag(bool),
}

/// The filter that an optional text field adds: its column and the value
/// bound to its placeholder, or nothing when the field is absent.
pub open spec fn optional_filter(value: Option<String>, column: Seq<char>) -> Seq<(Seq<char>, Param)> {
    match value {
        Some(v) => seq![(column, Param::Text(v))],
        None => seq![],
    }
}

/// The filters of a GET, in the order room, user, begin, end, approval
/// (the description is matched on the rows afterwards, not in SQL).
pub open spec fn get_filters(req: GetRequest) -> Seq<(Seq<char>, Param)> {
    optional_filter(req.room_id, "room_id"@)
        + optional_filter(req.user_id, "user_id"@)
        + optional_filter(req.begin, "begins"@)
        + optional_filter(req.ends, "ends"@)
        + match req.approval_pending {
            Some(b) => seq![("approval_pending"@, Param::Flag(b))],
            None => seq![],
        }
}

/// The columns of a list of filters.
pub open spec fn filter_columns(filters: Seq<(Seq<char>, Param)>) -> Seq<Seq<char>> {
    filters.map_values(|f: (Seq<char>, Param)| f.0)
}

/// The bound values of a list of filters.
pub open spec fn filter_values(filters: Seq<(Seq<char>, Param)>) -> Seq<Param> {
    filters.map_values(|f: (Seq<char>, Param)| f.1)
}

/// The conditions `col=? ` of the given columns, joined by `AND `.
pub open spec fn conditions(columns: Seq<Seq<char>>) -> Seq<char>
    decreases columns.len(),
{
    if columns.len() == 0 {
        seq![]
    } else if columns.len() == 1 {
        columns[0] + "=? "@
    } else {
        conditions(columns.drop_last()) + "AND "@ + columns.last() + "=? "@
    }
}

/// The SQL text that a GET runs: all reservations when no filter is given,
/// else those that meet every filter.
pub open spec fn get_query_text(req: GetRequest) -> Seq<char> {
    let columns = filter_columns(get_filters(req));
    if columns.len() == 0 {
        "SELECT * FROM Reservations "@
    } else {
        "SELECT * FROM Reservations WHERE "@ + conditions(columns)
    }
}

/// A parameterized SQL query: its text, and the values bound to its `?`
/// placeholders, in order.
pub struct Query {
    pub text: String,
    pub params: Vec<Param>,
}

/// Adds one filter to the conditions under construction.
fn add_filter(
    text: &mut String,
    params: &mut Vec<Param>,
    column: &str,
    value: Param,
    Ghost(filters): Ghost<Seq<(Seq<char>, Param)>>,
)
    requires
        old(text)@ == conditions(filter_columns(filters)),
        old(params)@ == filter_values(filters),
    ensures
        final(text)@ == conditions(filter_columns(filters.push((column@, value)))),
        final(params)@ == filter_values(filters.push((column@, value))),
{
    let ghost new_filters = filters.push((column@, value));
    assert(filter_columns(new_filters) =~= filter_columns(filters).push(column@));
    assert(filter_columns(new_filters).drop_last() =~= filter_columns(filters));
    assert(filter_values(new_filters) =~= filter_values(filters).push(value));
    if params.len() == 0 {
        assert(filters.len() == 0);
        text.append(column);
        text.append("=? ");
    } else {
        text.append("AND ");
        text.append(column);
        text.append("=? ");
    }
    params.push(value);
}

/// Builds the SQL query of a GET from its filters.
pub fn get_query(req: &GetRequest) -> (q: Query)
    ensures
        q.text@ == get_query_text(*req),
        q.params@ == filter_values(get_filters(*req)),
{
    let mut text = String::new();
    let mut params: Vec<Param> = Vec::new();
    let ghost mut filters: Seq<(Seq<char>, Param)> = seq![];
    assert(filter_columns(filters) =~= seq![]);
    assert(params@ =~= filter_values(filters));
    match &req.room_id {
        Some(v) => {
            add_filter(&mut text, &mut params, "room_id", Param::Text(v.clone()), Ghost(filters));
            proof { filters = filters.push(("room_id"@, Param::Text(*v))); }
        },
        None => {},
    }
    assert(filters =~= optional_filter(req.room_id, "room_id"@));
    match &req.user_id {
        Some(v) => {
            add_filter(&mut text, &mut params, "user_id", Param::Text(v.clone()), Ghost(filters));
            proof { filters = filters.push(("user_id"@, Param::Text(*v))); }
        },
        None => {},
    }
    assert(filters =~= optional_filter(req.room_id, "room_id"@) + optional_filter(req.user_id, "user_id"@));
    match &req.begin {
        Some(v) => {
            add_filter(&mut text, &mut params, "begins", Param::Text(v.clone()), Ghost(filters));
            proof { filters = filters.push(("begins"@, Param::Text(*v))); }
        },
        None => {},
    }
    assert(filters =~= optional_filter(req.room_id, "room_id"@) + optional_filter(req.user_id, "user_id"@)
        + optional_filter(req.begin, "begins"@));
    match &req.ends {
        Some(v) => {
            add_filter(&mut text, &mut params, "ends", Param::Text(v.clone()), Ghost(filters));
            proof { filters = filters.push(("ends"@, Param::Text(*v))); }
        },
        None => {},
    }
    assert(filters =~= optional_filter(req.room_id, "room_id"@) + optional_filter(req.user_id, "user_id"@)
        + optional_filter(req.begin, "begins"@) + optional_filter(req.ends, "ends"@));
    match req.approval_pending {
        Some(b) => {
            add_filter(&mut text, &mut params, "approval_pending", Param::Flag(b), Ghost(filters));
            proof { filters = filters.push(("approval_pending"@, Param::Flag(b))); }
        },
        None => {},
    }
    assert(filters =~= get_filters(*req));
    let query = if params.len() == 0 {
        assert(filter_values(filters).len() == filters.len());
        assert(filter_columns(filters).len() == 0);
        "SELECT * FROM Reservations ".to_string()
    } else {
        let mut q = "SELECT * FROM Reservations WHERE ".to_string();
        q.append(text.as_str());
        q
    };
    Query { text: query, params }
}

/// A row stays in the answer of a GET when no description filter is given,
/// or when the row has a description that contains the filter text.
pub open spec fn keep_row(req: GetRequest, r: Reservation) -> bool {
    match req.description {
        None => true,
        Some(d) => match r.description {
            Some(v) => occurs_in(v@, d@),
            None => false,
        },
    }
}

/// Whether a fetched row stays in the answer of a GET.
pub fn keep_reservation(req: &GetRequest, r: &Reservation) -> (b: bool)
    ensures
        b == keep_row(*req, *r),
        req.description is None ==> b,
        req.description matches Some(d) ==> (b <==> (r.description matches Some(v)
            && exists|i: int| 0 <= i && i + d@.len() <= v@.len() && #[trigger] v@.subrange(i, i + d@.len()) == d@)),
{
    match &req.description {
        None => true,
        Some(d) => match &r.description {
            Some(v) => contains_text(v.as_str(), d.as_str()),
            None => false,
        },
    }
}

/// The reply of a GET.
pub enum GetReply {
    /// `200 OK` with these reservations as a JSON array.
    Rows(Vec<Reservation>),
    /// `500 Internal Server Error`: reading a row failed.
    Failed,
}

impl GetReply {
    /// The status of the reply.
    pub fn status(&self) -> (s: Status)
        ensures
            s == (match self {
                GetReply::Rows(_) => Status::Success,
                GetReply::Failed => Status::InternalServerError,
            }),
    {
        match self {
            GetReply::Rows(_) => Status::Success,
            GetReply::Failed => Status::InternalServerError,
        }
    }
}

/// What to do after one row event of a GET.
pub enum GetStep {
    /// Read the next row, with the rows kept so far.
    Continue(Vec<Reservation>),
    /// Answer.
    Respond(GetReply),
}

/// One step of a GET over the rows of its query: a row is kept when its
/// description matches, a failed read answers `500`, and the end of the
/// rows answers `200` with the rows kept.
pub fn get_step(req: &GetRequest, kept: Vec<Reservation>, event: RowEvent<Reservation>) -> (r: GetStep)
    ensures
        match event {
            RowEvent::Row(row) => r matches GetStep::Continue(v)
                && v@ == (if keep_row(*req, row) { kept@.push(row) } else { kept@ }),
            RowEvent::Failed(_) => r matches GetStep::Respond(GetReply::Failed),
            RowEvent::End => r matches GetStep::Respond(GetReply::Rows(v)) && v@ == kept@,
        },
{
    let mut kept = kept;
    match event {
        RowEvent::Row(row) => {
            if keep_reservation(req, &row) {
                kept.push(row);
            }
            GetStep::Continue(kept)
        },
        RowEvent::Failed(_) => GetStep::Respond(GetReply::Failed),
        RowEvent::End => GetStep::Respond(GetReply::Rows(kept)),
    }
}

/// Where a run of `get_step` over `events` ends, starting with the rows
/// `kept`: `None` while rows are still to come, `Some(None)` for the `500`
/// reply, `Some(Some(rows))` for the `200` reply with `rows`.
pub open spec fn get_run(req: GetRequest, kept: Seq<Reservation>, events: Seq<RowEvent<Reservation>>) -> Option<Option<Seq<Reservation>>>
    decreases events.len(),
{
    if events.len() == 0 {
        None
    } else {
        match events[0] {
            RowEvent::Row(row) => get_run(
                req,
                if keep_row(req, row) { kept.push(row) } else { kept },
                events.drop_first(),
            ),
            RowEvent::Failed(_) => Some(None),
            RowEvent::End => Some(Some(kept)),
        }
    }
}

/// The events of a query that reads `rows` and then stops.
pub open spec fn rows_then(rows: Seq<Reservation>, last: RowEvent<Reservation>) -> Seq<RowEvent<Reservation>> {
    rows.map_values(|r: Reservation| RowEvent::Row(r)).push(last)
}

/// A GET whose rows all read well answers `200` with exactly the rows whose
/// description matches the filter, in the order the query gave them.
pub proof fn get_answers_matching_rows(req: GetRequest, kept: Seq<Reservation>, rows: Seq<Reservation>)
    ensures
        get_run(req, kept, rows_then(rows, RowEvent::End))
            == Some(Some(kept + rows.filter(|r: Reservation| keep_row(req, r)))),
    decreases rows.len(),
{
    let p = |r: Reservation| keep_row(req, r);
    let events = rows_then(rows, RowEvent::End);
    if rows.len() == 0 {
        assert(events =~= seq![RowEvent::End]);
        assert(rows.filter(p) =~= Seq::<Reservation>::empty()) by {
            reveal(Seq::filter);
        }
        assert(kept + rows.filter(p) =~= kept);
    } else {
        let rest = rows.drop_first();
        assert(events.drop_first() =~= rows_then(rest, RowEvent::End));
        assert(events[0] == RowEvent::Row(rows[0]));
        let next = if keep_row(req, rows[0]) { kept.push(rows[0]) } else { kept };
        get_answers_matching_rows(req, next, rest);
        assert(rows =~= seq![rows[0]] + rest);
        rest.lemma_filter_prepend(rows[0], p);
        assert(next + rest.filter(p) =~= kept + rows.filter(p));
    }
}

/// A GET in which reading a row fails answers `500`, whatever rows it kept
/// before and whatever would have come after.
pub proof fn get_fails_on_read_error(
    req: GetRequest,
    kept: Seq<Reservation>,
    rows: Seq<Reservation>,
    error: String,
    after: Seq<RowEvent<Reservation>>,
)
    ensures
        get_run(req, kept, rows_then(rows, RowEvent::Failed(error)) + after) == Some(None::<Seq<Reservation>>),
    decreases rows.len(),
{
    let events = rows_then(rows, RowEvent::Failed(error)) + after;
    if rows.len() == 0 {
        assert(events[0] == RowEvent::<Reservation>::Failed(error));
    } else {
        let rest = rows.drop_first();
        assert(events.drop_first() =~= rows_then(rest, RowEvent::Failed(error)) + after);
        assert(events[0] == RowEvent::Row(rows[0]));
        let next = if keep_row(req, rows[0]) { kept.push(rows[0]) } else { kept };
        get_fails_on_read_error(req, next, rest, error, after);
    }
}

proof fn lemma_placeholder_literals()
    ensures
        count_char("=? "@, '?') == 1,
        count_char("AND "@, '?') == 0,
        count_char("SELECT * FROM Reservations WHERE "@, '?') == 0,
        count_char("room_id"@, '?') == 0,
        count_char("user_id"@, '?') == 0,
        count_char("begins"@, '?') == 0,
        count_char("ends"@, '?') == 0,
        count_char("approval_pending"@, '?') == 0,
{
    reveal_strlit("=? ");
    reveal_strlit("AND ");
    reveal_strlit("SELECT * FROM Reservations WHERE ");
    reveal_strlit("room_id");
    reveal_strlit("user_id");
    reveal_strlit("begins");
    reveal_strlit("ends");
    reveal_strlit("approval_pending");
    reveal_strlit("=?");
    reveal_strlit("=");
    assert("=? "@.drop_last() =~= "=?"@);
    assert("=?"@.drop_last() =~= "="@);
    lemma_count_absent("AND "@, '?');
    lemma_count_absent("SELECT * FROM Reservations WHERE "@, '?');
    lemma_count_absent("room_id"@, '?');
    lemma_count_absent("user_id"@, '?');
    lemma_count_absent("begins"@, '?');
    lemma_count_absent("ends"@, '?');
    lemma_count_absent("approval_pending"@, '?');
    lemma_count_absent("="@, '?');
    assert(count_char("=?"@, '?') == count_char("="@, '?') + 1);
    assert(count_char("=? "@, '?') == count_char("=?"@, '?'));
}

proof fn lemma_conditions_count(columns: Seq<Seq<char>>)
    requires
        forall|i: int| 0 <= i < columns.len() ==> count_char(#[trigger] columns[i], '?') == 0,
    ensures
        count_char(conditions(columns), '?') == columns.len(),
    decreases columns.len(),
{
    lemma_placeholder_literals();
    if columns.len() == 1 {
        lemma_count_concat(columns[0], "=? "@, '?');
    } else if columns.len() > 1 {
        let init = columns.drop_last();
        assert forall|i: int| 0 <= i < init.len() implies count_char(#[trigger] init[i], '?') == 0 by {
            assert(init[i] == columns[i]);
        }
        lemma_conditions_count(init);
        let last = columns.last();
        assert(count_char(last, '?') == 0) by {
            assert(last == columns[columns.len() - 1]);
        }
        lemma_count_concat(conditions(init), "AND "@, '?');
        lemma_count_concat(conditions(init) + "AND "@, last, '?');
        lemma_count_concat(conditions(init) + "AND "@ + last, "=? "@, '?');
    }
}

/// The columns that a GET can filter on.
pub open spec fn known_column(c: Seq<char>) -> bool {
    ||| c == "room_id"@
    ||| c == "user_id"@
    ||| c == "begins"@
    ||| c == "ends"@
    ||| c == "approval_pending"@
}

/// The query of a GET has exactly one `?` placeholder for each value it
/// binds.
pub proof fn get_query_placeholders_match_params(req: GetRequest)
    ensures
        count_char(get_query_text(req), '?') == filter_values(get_filters(req)).len(),
{
    lemma_placeholder_literals();
    let filters = get_filters(req);
    let columns = filter_columns(filters);
    lemma_filters_known(req);
    assert forall|i: int| 0 <= i < columns.len() implies count_char(#[trigger] columns[i], '?') == 0 by {
        assert(columns[i] == filters[i].0);
        assert(known_column(filters[i].0));
    }
    lemma_conditions_count(columns);
    if columns.len() > 0 {
        lemma_count_concat("SELECT * FROM Reservations WHERE "@, conditions(columns), '?');
    } else {
        reveal_strlit("SELECT * FROM Reservations ");
        lemma_count_absent("SELECT * FROM Reservations "@, '?');
    }
}

proof fn lemma_conditions_without(columns: Seq<Seq<char>>, c: char)
    requires
        forall|i: int| 0 <= i < columns.len() ==> count_char(#[trigger] columns[i], c) == 0,
        count_char("=? "@, c) == 0,
        count_char("AND "@, c) == 0,
    ensures
        count_char(conditions(columns), c) == 0,
    decreases columns.len(),
{
    if columns.len() == 1 {
        lemma_count_concat(columns[0], "=? "@, c);
    } else if columns.len() > 1 {
        let init = columns.drop_last();
        assert forall|i: int| 0 <= i < init.len() implies count_char(#[trigger] init[i], c) == 0 by {
            assert(init[i] == columns[i]);
        }
        lemma_conditions_without(init, c);
        let last = columns.last();
        assert(count_char(last, c) == 0) by {
            assert(last == columns[columns.len() - 1]);
        }
        lemma_count_concat(conditions(init), "AND "@, c);
        lemma_count_concat(conditions(init) + "AND "@, last, c);
        lemma_count_concat(conditions(init) + "AND "@ + last, "=? "@, c);
    }
}

proof fn lemma_filters_known(req: GetRequest)
    ensures
        forall|i: int| 0 <= i < get_filters(req).len() ==> known_column(#[trigger] get_filters(req)[i].0),
{
    let filters = get_filters(req);
    assert forall|i: int| 0 <= i < filters.len() implies known_column(#[trigger] filters[i].0) by {
        let a = optional_filter(req.room_id, "room_id"@);
        let b = optional_filter(req.user_id, "user_id"@);
        let c = optional_filter(req.begin, "begins"@);
        let d = optional_filter(req.ends, "ends"@);
        let e: Seq<(Seq<char>, Param)> = match req.approval_pending {
            Some(v) => seq![("approval_pending"@, Param::Flag(v))],
            None => seq![],
        };
        assert(filters == a + b + c + d + e);
        if i < a.len() {
            assert(filters[i] == a[i]);
        } else if i < a.len() + b.len() {
            assert(filters[i] == b[i - a.len()]);
        } else if i < a.len() + b.len() + c.len() {
            assert(filters[i] == c[i - a.len() - b.len()]);
        } else if i < a.len() + b.len() + c.len() + d.len() {
            assert(filters[i] == d[i - a.len() - b.len() - c.len()]);
        } else {
            assert(filters[i] == e[i - a.len() - b.len() - c.len() - d.len()]);
        }
    }
}

/// The query of a GET only reads: it is a single `SELECT` statement.
pub proof fn get_query_is_read_only(req: GetRequest)
    ensures
        is_single_select(get_query_text(req)),
{
    reveal_strlit("SELECT * FROM Reservations ");
    reveal_strlit("SELECT * FROM Reservations WHERE ");
    reveal_strlit("SELECT ");
    reveal_strlit("=? ");
    reveal_strlit("AND ");
    reveal_strlit("room_id");
    reveal_strlit("user_id");
    reveal_strlit("begins");
    reveal_strlit("ends");
    reveal_strlit("approval_pending");
    lemma_count_absent("=? "@, ';');
    lemma_count_absent("AND "@, ';');
    lemma_count_absent("room_id"@, ';');
    lemma_count_absent("user_id"@, ';');
    lemma_count_absent("begins"@, ';');
    lemma_count_absent("ends"@, ';');
    lemma_count_absent("approval_pending"@, ';');
    lemma_count_absent("SELECT * FROM Reservations "@, ';');
    lemma_count_absent("SELECT * FROM Reservations WHERE "@, ';');
    lemma_filters_known(req);
    let filters = get_filters(req);
    let columns = filter_columns(filters);
    assert forall|i: int| 0 <= i < columns.len() implies count_char(#[trigger] columns[i], ';') == 0 by {
        assert(columns[i] == filters[i].0);
        assert(known_column(filters[i].0));
    }
    lemma_conditions_without(columns, ';');
    let text = get_query_text(req);
    if columns.len() > 0 {
        let prefix = "SELECT * FROM Reservations WHERE "@;
        lemma_count_concat(prefix, conditions(columns), ';');
        assert(text.subrange(0, 7) =~= prefix.subrange(0, 7));
        assert(prefix.subrange(0, 7) =~= "SELECT "@);
    } else {
        assert(text.subrange(0, 7) =~= "SELECT "@);
    }
}

/// `narrow` asks at least what `wide` asks: every filter that `wide` sets,
/// `narrow` sets to the same value.
pub open spec fn extends_filters(narrow: GetRequest, wide: GetRequest) -> bool {
    &&& (wide.room_id is Some ==> narrow.room_id == wide.room_id)
    &&& (wide.user_id is Some ==> narrow.user_id == wide.user_id)
    &&& (wide.begin is Some ==> narrow.begin == wide.begin)
    &&& (wide.ends is Some ==> narrow.ends == wide.ends)
    &&& (wide.approval_pending is Some ==> narrow.approval_pending == wide.approval_pending)
    &&& (wide.description is Some ==> narrow.description == wide.description)
}

proof fn lemma_filter_narrows(rows: Seq<Reservation>, p: spec_fn(Reservation) -> bool, q: spec_fn(Reservation) -> bool)
    requires
        forall|r: Reservation| #[trigger] q(r) ==> p(r),
    ensures
        rows.filter(q) == rows.filter(p).filter(q),
    decreases rows.len(),
{
    reveal(Seq::filter);
    if rows.len() > 0 {
        lemma_filter_narrows(rows.drop_last(), p, q);
        let last = rows.last();
        if p(last) {
            assert(rows.filter(p) == rows.drop_last().filter(p).push(last));
            assert(rows.filter(p).drop_last() =~= rows.drop_last().filter(p));
        } else {
            assert(!q(last));
        }
    } else {
        assert(rows.filter(p) =~= Seq::<Reservation>::empty());
        assert(rows.filter(q) =~= Seq::<Reservation>::empty());
        assert(rows.filter(p).filter(q) =~= Seq::<Reservation>::empty());
    }
}

/// Adding filters never adds rows: every SQL condition of the GET with
/// fewer filters is also a condition of the one with more, and of any rows
/// the database gives, the description filter of the narrower GET keeps
/// only rows that the wider one keeps, in the same order.
pub proof fn more_filters_keep_fewer_rows(wide: GetRequest, narrow: GetRequest, rows: Seq<Reservation>)
    requires
        extends_filters(narrow, wide),
    ensures
        forall|i: int| 0 <= i < get_filters(wide).len() ==> get_filters(narrow).contains(#[trigger] get_filters(wide)[i]),
        rows.filter(|r: Reservation| keep_row(narrow, r))
            == rows.filter(|r: Reservation| keep_row(wide, r)).filter(|r: Reservation| keep_row(narrow, r)),
{
    let p = |r: Reservation| keep_row(wide, r);
    let q = |r: Reservation| keep_row(narrow, r);
    lemma_filter_narrows(rows, p, q);
    let fw = get_filters(wide);
    let fnarrow = get_filters(narrow);
    let a = optional_filter(narrow.room_id, "room_id"@);
    let b = optional_filter(narrow.user_id, "user_id"@);
    let c = optional_filter(narrow.begin, "begins"@);
    let d = optional_filter(narrow.ends, "ends"@);
    let e: Seq<(Seq<char>, Param)> = match narrow.approval_pending {
        Some(v) => seq![("approval_pending"@, Param::Flag(v))],
        None => seq![],
    };
    let wa = optional_filter(wide.room_id, "room_id"@);
    let wb = optional_filter(wide.user_id, "user_id"@);
    let wc = optional_filter(wide.begin, "begins"@);
    let wd = optional_filter(wide.ends, "ends"@);
    let we: Seq<(Seq<char>, Param)> = match wide.approval_pending {
        Some(v) => seq![("approval_pending"@, Param::Flag(v))],
        None => seq![],
    };
    assert(fnarrow == a + b + c + d + e);
    assert(fw == wa + wb + wc + wd + we);
    assert forall|i: int| 0 <= i < fw.len() implies fnarrow.contains(#[trigger] fw[i]) by {
        if i < wa.len() {
            assert(fw[i] == wa[i]);
            assert(fnarrow[0] == a[0]);
        } else if i < wa.len() + wb.len() {
            assert(fw[i] == wb[i - wa.len()]);
            assert(fnarrow[a.len() as int] == b[0]);
        } else if i < wa.len() + wb.len() + wc.len() {
            assert(fw[i] == wc[i - wa.len() - wb.len()]);
            assert(fnarrow[(a.len() + b.len()) as int] == c[0]);
        } else if i < wa.len() + wb.len() + wc.len() + wd.len() {
            assert(fw[i] == wd[i - wa.len() - wb.len() - wc.len()]);
            assert(fnarrow[(a.len() + b.len() + c.len()) as int] == d[0]);
        } else {
            assert(fw[i] == we[i - wa.len() - wb.len() - wc.len() - wd.len()]);
            assert(fnarrow[(a.len() + b.len() + c.len() + d.len()) as int] == e[0]);
        }
    }
}

// ---------------------------------------------------------------- PATCH


/// The PATCH sets no field at all.
pub open spec fn sets_no_field(req: PatchRequest) -> bool {
    &&& req.room_id is None
    &&& req.user_id is None
    &&& req.begin is None
    &&& req.ends is None
    &&& req.approval_pending is None
    &&& req.description is None
}

/// The reservation `old` as the PATCH `req` changes it, given the parsed
/// values of its `begin` and `ends` texts (looked at only when the field is
/// given; `None`: the text did not parse).  `BadRequest` when the PATCH sets
/// no field, or a date-time it sets does not parse.  A field the PATCH does
/// not set keeps its old value.
pub open spec fn patched(req: PatchRequest, old: Reservation, begins: Option<i64>, ends: Option<i64>) -> Result<Reservation, Status> {
    if sets_no_field(req) {
        Err(Status::BadRequest)
    } else if req.begin is Some && begins is None {
        Err(Status::BadRequest)
    } else if req.ends is Some && ends is None {
        Err(Status::BadRequest)
    } else {
        Ok(Reservation {
            reservation_id: req.reservation_id,
            room_id: match req.room_id {
                Some(v) => v,
                None => old.room_id,
            },
            user_id: match req.user_id {
                Some(v) => v,
                None => old.user_id,
            },
            description: match req.description {
                Some(v) => Some(v),
                None => old.description,
            },
            begins: match req.begin {
                Some(_) => begins->0,
                None => old.begins,
            },
            ends: match req.ends {
                Some(_) => ends->0,
                None => old.ends,
            },
            approval_pending: match req.approval_pending {
                Some(b) => b,
                None => old.approval_pending,
            },
        })
    }
}

/// An optional date-time text as parsed (`None` also when it is absent).
pub open spec fn parsed_field(field: Option<String>) -> Option<i64> {
    match field {
        Some(t) => parsed_timestamp(t@, datetime_format()),
        None => None,
    }
}

/// Applies a PATCH to the stored reservation, given its parsed date-times.
pub fn patch_with_times(req: &PatchRequest, old: &Reservation, begins: Option<i64>, ends: Option<i64>) -> (r: Result<Reservation, Status>)
    ensures
        r == patched(*req, *old, begins, ends),
        r is Ok <==> ((req.room_id is Some || req.user_id is Some || req.begin is Some || req.ends is Some
            || req.approval_pending is Some || req.description is Some)
            && (req.begin is Some ==> begins is Some) && (req.ends is Some ==> ends is Some)),
        r matches Err(s) ==> s == Status::BadRequest,
        r matches Ok(u) ==> {
            &&& u.reservation_id == req.reservation_id
            &&& (req.room_id matches Some(v) ==> u.room_id == v) && (req.room_id is None ==> u.room_id == old.room_id)
            &&& (req.user_id matches Some(v) ==> u.user_id == v) && (req.user_id is None ==> u.user_id == old.user_id)
            &&& (req.description is Some ==> u.description == req.description)
            &&& (req.description is None ==> u.description == old.description)
            &&& (req.begin is Some ==> begins == Some(u.begins)) && (req.begin is None ==> u.begins == old.begins)
            &&& (req.ends is Some ==> ends == Some(u.ends)) && (req.ends is None ==> u.ends == old.ends)
            &&& (req.approval_pending matches Some(p) ==> u.approval_pending == p)
            &&& (req.approval_pending is None ==> u.approval_pending == old.approval_pending)
        },
{
    if req.room_id.is_none() && req.user_id.is_none() && req.begin.is_none() && req.ends.is_none()
        && req.approval_pending.is_none() && req.description.is_none()
    {
        return Err(Status::BadRequest);
    }
    let new_begins = match &req.begin {
        Some(_) => match begins {
            Some(v) => v,
            None => return Err(Status::BadRequest),
        },
        None => old.begins,
    };
    let new_ends = match &req.ends {
        Some(_) => match ends {
            Some(v) => v,
            None => return Err(Status::BadRequest),
        },
        None => old.ends,
    };
    Ok(Reservation {
        reservation_id: req.reservation_id,
        room_id: match &req.room_id {
            Some(v) => v.clone(),
            None => old.room_id.clone(),
        },
        user_id: match &req.user_id {
            Some(v) => v.clone(),
            None => old.user_id.clone(),
        },
        description: match &req.description {
            Some(v) => Some(v.clone()),
            None => copy_opt_string(&old.description),
        },
        begins: new_begins,
        ends: new_ends,
        approval_pending: match req.approval_pending {
            Some(b) => b,
            None => old.approval_pending,
        },
    })
}

/// Where a PATCH stands.
pub enum PatchState {
    /// Waiting for the stored reservation.
    AwaitReservation,
    /// Waiting for the reservations of the room that `updated` would take.
    AwaitRoomReservations { updated: Reservation },
    /// Waiting for the table to store `updated`.
    AwaitUpdate { updated: Reservation },
    /// The reply is given.
    Finished,
}

/// The reply of a PATCH.
pub enum PatchReply {
    /// This status, with an empty body.
    Plain(Status),
    /// `500` with the text of the database error.
    DatabaseError(String),
}

impl PatchReply {
    /// The status of the reply.
    pub fn status(&self) -> (s: Status)
        ensures
            s == (match self {
                PatchReply::Plain(st) => *st,
                PatchReply::DatabaseError(_) => Status::InternalServerError,
            }),
    {
        match self {
            PatchReply::Plain(st) => *st,
            PatchReply::DatabaseError(_) => Status::InternalServerError,
        }
    }

    /// The body of the reply: the error's text, or nothing.
    pub fn body(&self) -> (b: String)
        ensures
            match self {
                PatchReply::Plain(_) => b@ == Seq::<char>::empty(),
                PatchReply::DatabaseError(e) => b@ == e@,
            },
    {
        match self {
            PatchReply::Plain(_) => String::new(),
            PatchReply::DatabaseError(e) => e.clone(),
        }
    }
}

/// What a PATCH asks the database for next, or its reply.
pub enum PatchAction {
    /// `SELECT * FROM Reservations WHERE reservation_id=?`, the first row.
    FetchReservation { reservation_id: i32 },
    /// `SELECT * FROM Reservations WHERE room_id = ?`, all rows.
    FetchRoomReservations { room_id: String },
    /// Store every field of `updated` in the row with its id.
    Update { updated: Reservation },
    /// Answer.
    Respond(PatchReply),
}

/// What the database gave for the last action of a PATCH.
pub enum PatchEvent {
    /// The stored reservation, if there is one.
    Fetched(Option<Reservation>),
    /// The reservations of the room.
    RoomReservations(Vec<Reservation>),
    /// The update is stored.
    Updated,
    /// The database call failed with this error text.
    Failed(String),
}

/// The first step of a PATCH: one that sets no field answers `400` at once;
/// else the reservation it changes is looked up.
pub open spec fn patch_begin(req: PatchRequest) -> (PatchState, PatchAction) {
    if sets_no_field(req) {
        (PatchState::Finished, PatchAction::Respond(PatchReply::Plain(Status::BadRequest)))
    } else {
        (PatchState::AwaitReservation, PatchAction::FetchReservation { reservation_id: req.reservation_id })
    }
}

/// Starts a PATCH (see `patch_begin`).
pub fn patch_start(req: &PatchRequest) -> (r: (PatchState, PatchAction))
    ensures
        r == patch_begin(*req),
        (req.room_id is Some || req.user_id is Some || req.begin is Some || req.ends is Some
            || req.approval_pending is Some || req.description is Some)
            ==> r == (PatchState::AwaitReservation, PatchAction::FetchReservation { reservation_id: req.reservation_id }),
        (req.room_id is None && req.user_id is None && req.begin is None && req.ends is None
            && req.approval_pending is None && req.description is None)
            ==> r == (PatchState::Finished, PatchAction::Respond(PatchReply::Plain(Status::BadRequest))),
{
    if req.room_id.is_none() && req.user_id.is_none() && req.begin.is_none() && req.ends.is_none()
        && req.approval_pending.is_none() && req.description.is_none()
    {
        (PatchState::Finished, PatchAction::Respond(PatchReply::Plain(Status::BadRequest)))
    } else {
        (PatchState::AwaitReservation, PatchAction::FetchReservation { reservation_id: req.reservation_id })
    }
}

/// One step of a PATCH.  An unknown reservation answers `404`; a date-time
/// that does not parse answers `400`; the changed reservation is checked
/// against every reservation of its room, and `409` answers when one
/// conflicts; else the change is stored and `200` answers.  A failed lookup
/// of the reservation answers a bare `500`; a failed room query or update
/// answers `500` with the database error's text; an event that does not fit
/// the state answers a bare `500`.
pub open spec fn patch_transition(req: PatchRequest, state: PatchState, event: PatchEvent) -> (PatchState, PatchAction) {
    match (state, event) {
        (PatchState::AwaitReservation, PatchEvent::Fetched(None)) =>
            (PatchState::Finished, PatchAction::Respond(PatchReply::Plain(Status::NotFound))),
        (PatchState::AwaitReservation, PatchEvent::Fetched(Some(old))) =>
            match patched(req, old, parsed_field(req.begin), parsed_field(req.ends)) {
                Err(s) => (PatchState::Finished, PatchAction::Respond(PatchReply::Plain(s))),
                Ok(u) => (
                    PatchState::AwaitRoomReservations { updated: u },
                    PatchAction::FetchRoomReservations { room_id: u.room_id },
                ),
            },
        (PatchState::AwaitRoomReservations { updated }, PatchEvent::RoomReservations(rows)) =>
            if any_conflict(updated, rows@) {
                (PatchState::Finished, PatchAction::Respond(PatchReply::Plain(Status::Conflict)))
            } else {
                (PatchState::AwaitUpdate { updated }, PatchAction::Update { updated })
            },
        (PatchState::AwaitRoomReservations { .. }, PatchEvent::Failed(e)) =>
            (PatchState::Finished, PatchAction::Respond(PatchReply::DatabaseError(e))),
        (PatchState::AwaitUpdate { .. }, PatchEvent::Updated) =>
            (PatchState::Finished, PatchAction::Respond(PatchReply::Plain(Status::Success))),
        (PatchState::AwaitUpdate { .. }, PatchEvent::Failed(e)) =>
            (PatchState::Finished, PatchAction::Respond(PatchReply::DatabaseError(e))),
        _ => (PatchState::Finished, PatchAction::Respond(PatchReply::Plain(Status::InternalServerError))),
    }
}

/// Parses an optional date-time text of a PATCH.
fn parse_field(field: &Option<String>) -> (r: Option<i64>)
    ensures
        r == parsed_field(*field),
{
    match field {
        Some(t) => parse_timestamp(t.as_str(), "%Y-%m-%d %H:%M"),
        None => None,
    }
}

/// Takes one step of a PATCH (see `patch_transition`).
pub fn patch_step(req: &PatchRequest, state: PatchState, event: PatchEvent) -> (r: (PatchState, PatchAction))
    ensures
        r == patch_transition(*req, state, event),
{
    match (state, event) {
        (PatchState::AwaitReservation, PatchEvent::Fetched(None)) =>
            (PatchState::Finished, PatchAction::Respond(PatchReply::Plain(Status::NotFound))),
        (PatchState::AwaitReservation, PatchEvent::Fetched(Some(old))) => {
            let begins = parse_field(&req.begin);
            let ends = parse_field(&req.ends);
            match patch_with_times(req, &old, begins, ends) {
                Err(s) => (PatchState::Finished, PatchAction::Respond(PatchReply::Plain(s))),
                Ok(u) => {
                    let room_id = u.room_id.clone();
                    (PatchState::AwaitRoomReservations { updated: u }, PatchAction::FetchRoomReservations { room_id })
                },
            }
        },
        (PatchState::AwaitRoomReservations { updated }, PatchEvent::RoomReservations(rows)) => {
            if has_conflict(&updated, &rows) {
                (PatchState::Finished, PatchAction::Respond(PatchReply::Plain(Status::Conflict)))
            } else {
                let copy = updated.copy();
                (PatchState::AwaitUpdate { updated }, PatchAction::Update { updated: copy })
            }
        },
        (PatchState::AwaitRoomReservations { .. }, PatchEvent::Failed(e)) =>
            (PatchState::Finished, PatchAction::Respond(PatchReply::DatabaseError(e))),
        (PatchState::AwaitUpdate { .. }, PatchEvent::Updated) =>
            (PatchState::Finished, PatchAction::Respond(PatchReply::Plain(Status::Success))),
        (PatchState::AwaitUpdate { .. }, PatchEvent::Failed(e)) =>
            (PatchState::Finished, PatchAction::Respond(PatchReply::DatabaseError(e))),
        _ => (PatchState::Finished, PatchAction::Respond(PatchReply::Plain(Status::InternalServerError))),
    }
}

/// A PATCH that sets no field answers `400` before anything is looked up,
/// whether or not the reservation exists.
pub proof fn patch_without_fields_is_bad_request(req: PatchRequest)
    requires
        sets_no_field(req),
    ensures
        patch_begin(req) == (PatchState::Finished, PatchAction::Respond(PatchReply::Plain(Status::BadRequest))),
{
}

/// A PATCH stores a change only when no approved reservation of the
/// changed room, other than the changed one, meets its time span.
pub proof fn patch_updates_only_without_conflict(req: PatchRequest, state: PatchState, event: PatchEvent)
    requires
        patch_transition(req, state, event).1 is Update,
    ensures
        state == (PatchState::AwaitRoomReservations { updated: patch_transition(req, state, event).1->updated }),
        event matches PatchEvent::RoomReservations(rows)
            && forall|i: int| 0 <= i < rows@.len()
                ==> !#[trigger] conflicts_with(patch_transition(req, state, event).1->updated, rows@[i]),
{
}

/// A PATCH answers `409` exactly when some reservation of the room
/// conflicts with the changed reservation.
pub proof fn patch_conflict_answer(req: PatchRequest, updated: Reservation, rows: Vec<Reservation>)
    ensures
        (patch_transition(req, PatchState::AwaitRoomReservations { updated }, PatchEvent::RoomReservations(rows)).1
            == PatchAction::Respond(PatchReply::Plain(Status::Conflict))) == any_conflict(updated, rows@),
{
}

/// The fields that a PATCH sets take the given values, and every other
/// field keeps the value stored before.
pub proof fn patch_sets_given_fields_only(req: PatchRequest, old: Reservation, begins: Option<i64>, ends: Option<i64>)
    requires
        patched(req, old, begins, ends) is Ok,
    ensures
        ({
            let u = patched(req, old, begins, ends)->Ok_0;
            &&& u.reservation_id == req.reservation_id
            &&& u.room_id == (if req.room_id is Some { req.room_id->0 } else { old.room_id })
            &&& u.user_id == (if req.user_id is Some { req.user_id->0 } else { old.user_id })
            &&& u.description == (if req.description is Some { req.description } else { old.description })
            &&& u.begins == (if req.begin is Some { begins->0 } else { old.begins })
            &&& u.ends == (if req.ends is Some { ends->0 } else { old.ends })
            &&& u.approval_pending == (if req.approval_pending is Some { req.approval_pending->0 } else { old.approval_pending })
        }),
{
}

/// The stored row of the reservation being changed never conflicts with
/// the change: only other reservations can.
pub proof fn no_conflict_with_itself(updated: Reservation, stored: Reservation)
    requires
        stored.reservation_id == updated.reservation_id,
    ensures
        !conflicts_with(updated, stored),
{
}

/// Repeating a PATCH that was stored, with nothing else changed in between,
/// stores the same row again: applied to the row it produced, the PATCH
/// gives that row back; and the room's reservations, which now differ from
/// before only in rows with the changed reservation's id, still hold no
/// conflict.
pub proof fn repeated_patch_stores_same_row(
    req: PatchRequest,
    old: Reservation,
    begins: Option<i64>,
    ends: Option<i64>,
    rows: Seq<Reservation>,
    rows_after: Seq<Reservation>,
)
    requires
        patched(req, old, begins, ends) is Ok,
        !any_conflict(patched(req, old, begins, ends)->Ok_0, rows),
        forall|i: int| 0 <= i < rows_after.len() ==> rows.contains(#[trigger] rows_after[i])
            || rows_after[i].reservation_id == req.reservation_id,
    ensures
        patched(req, patched(req, old, begins, ends)->Ok_0, begins, ends)
            == patched(req, old, begins, ends),
        !any_conflict(patched(req, old, begins, ends)->Ok_0, rows_after),
{
    let u = patched(req, old, begins, ends)->Ok_0;
    if any_conflict(u, rows_after) {
        let i = choose|i: int| 0 <= i < rows_after.len() && #[trigger] conflicts_with(u, rows_after[i]);
        if rows.contains(rows_after[i]) {
            let j = choose|j: int| 0 <= j < rows.len() && rows[j] == rows_after[i];
            assert(conflicts_with(u, rows[j]));
        }
    }
}

/// A reservation conflicts with the change exactly when it is another
/// reservation (a different id, whichever is larger), already approved, and
/// its span meets the changed span.
pub proof fn conflict_law(updated: Reservation, rows: Seq<Reservation>)
    ensures
        any_conflict(updated, rows) == exists|i: int| 0 <= i < rows.len() && {
            let o = #[trigger] rows[i];
            &&& o.reservation_id != updated.reservation_id
            &&& !o.approval_pending
            &&& o.begins <= updated.ends
            &&& o.ends >= updated.begins
        },
{
    if any_conflict(updated, rows) {
        let i = choose|i: int| 0 <= i < rows.len() && #[trigger] conflicts_with(updated, rows[i]);
        let o = rows[i];
        assert(o.reservation_id != updated.reservation_id && !o.approval_pending && o.begins <= updated.ends
            && o.ends >= updated.begins);
    }
    if exists|i: int| 0 <= i < rows.len() && {
        let o = #[trigger] rows[i];
        &&& o.reservation_id != updated.reservation_id
        &&& !o.approval_pending
        &&& o.begins <= updated.ends
        &&& o.ends >= updated.begins
    } {
        let i = choose|i: int| 0 <= i < rows.len() && {
            let o = #[trigger] rows[i];
            &&& o.reservation_id != updated.reservation_id
            &&& !o.approval_pending
            &&& o.begins <= updated.ends
            &&& o.ends >= updated.begins
        };
        assert(conflicts_with(updated, rows[i]));
    }
}

/// With the room's reservations in hand, a PATCH answers `409` when another
/// approved reservation of the room meets the changed span, and otherwise
/// stores the changed reservation.
pub proof fn patch_conflict_law(req: PatchRequest, updated: Reservation, rows: Vec<Reservation>)
    ensures
        (exists|i: int| 0 <= i < rows@.len() && {
            let o = #[trigger] rows@[i];
            &&& o.reservation_id != updated.reservation_id
            &&& !o.approval_pending
            &&& o.begins <= updated.ends
            &&& o.ends >= updated.begins
        }) ==> patch_transition(req, PatchState::AwaitRoomReservations { updated }, PatchEvent::RoomReservations(rows))
            == (PatchState::Finished, PatchAction::Respond(PatchReply::Plain(Status::Conflict))),
        !(exists|i: int| 0 <= i < rows@.len() && {
            let o = #[trigger] rows@[i];
            &&& o.reservation_id != updated.reservation_id
            &&& !o.approval_pending
            &&& o.begins <= updated.ends
            &&& o.ends >= updated.begins
        }) ==> patch_transition(req, PatchState::AwaitRoomReservations { updated }, PatchEvent::RoomReservations(rows))
            == (PatchState::AwaitUpdate { updated }, PatchAction::Update { updated }),
{
    conflict_law(updated, rows@);
}

/// What applying a PATCH to the stored reservation gives: `400` when it
/// sets no field, or when a date-time it sets does not parse; otherwise the
/// reservation with every field the PATCH sets replaced (a new end alone,
/// or a new begin alone, is enough) and every other field kept.
pub proof fn patched_law(req: PatchRequest, old: Reservation, begins: Option<i64>, ends: Option<i64>)
    ensures
        patched(req, old, begins, ends) is Ok <==> ((req.room_id is Some || req.user_id is Some || req.begin is Some
            || req.ends is Some || req.approval_pending is Some || req.description is Some)
            && (req.begin is Some ==> begins is Some) && (req.ends is Some ==> ends is Some)),
        patched(req, old, begins, ends) matches Err(s) ==> s == Status::BadRequest,
        patched(req, old, begins, ends) matches Ok(u) ==> {
            &&& u.reservation_id == req.reservation_id
            &&& (req.room_id matches Some(v) ==> u.room_id == v) && (req.room_id is None ==> u.room_id == old.room_id)
            &&& (req.user_id matches Some(v) ==> u.user_id == v) && (req.user_id is None ==> u.user_id == old.user_id)
            &&& (req.description is Some ==> u.description == req.description)
            &&& (req.description is None ==> u.description == old.description)
            &&& (req.begin is Some ==> begins == Some(u.begins)) && (req.begin is None ==> u.begins == old.begins)
            &&& (req.ends is Some ==> ends == Some(u.ends)) && (req.ends is None ==> u.ends == old.ends)
            &&& (req.approval_pending matches Some(p) ==> u.approval_pending == p)
            &&& (req.approval_pending is None ==> u.approval_pending == old.approval_pending)
        },
{
}

/// Once the stored reservation is found, a PATCH that sets some field and
/// whose date-times parse goes on to fetch the reservations of the room the
/// changed reservation takes (the new room if given, else the old one); one
/// whose given date-time does not parse answers `400`.  An unknown
/// reservation answers `404`, and a stored update answers `200`.
pub proof fn patch_steps_law(req: PatchRequest, old: Reservation, updated: Reservation)
    ensures
        ({
            let b = match req.begin { Some(t) => parsed_timestamp(t@, "%Y-%m-%d %H:%M"@), None => None };
            let e = match req.ends { Some(t) => parsed_timestamp(t@, "%Y-%m-%d %H:%M"@), None => None };
            let step = patch_transition(req, PatchState::AwaitReservation, PatchEvent::Fetched(Some(old)));
            &&& ((req.begin is Some && b is None) || (req.ends is Some && e is None))
                ==> step == (PatchState::Finished, PatchAction::Respond(PatchReply::Plain(Status::BadRequest)))
            &&& ((req.room_id is Some || req.user_id is Some || req.begin is Some || req.ends is Some
                || req.approval_pending is Some || req.description is Some)
                && (req.begin is Some ==> b is Some) && (req.ends is Some ==> e is Some))
                ==> (step.0 matches PatchState::AwaitRoomReservations { updated: u } && step.1
                    == PatchAction::FetchRoomReservations {
                        room_id: if req.room_id is Some { req.room_id->0 } else { old.room_id },
                    } && u.reservation_id == req.reservation_id
                    && u.begins == (if req.begin is Some { b->0 } else { old.begins })
                    && u.ends == (if req.ends is Some { e->0 } else { old.ends }))
        }),
        patch_transition(req, PatchState::AwaitReservation, PatchEvent::Fetched(None))
            == (PatchState::Finished, PatchAction::Respond(PatchReply::Plain(Status::NotFound))),
        patch_transition(req, PatchState::AwaitUpdate { updated }, PatchEvent::Updated)
            == (PatchState::Finished, PatchAction::Respond(PatchReply::Plain(Status::Success))),
{
    patched_law(req, old, parsed_field(req.begin), parsed_field(req.ends));
}

/// A PATCH answers `400` without any lookup exactly when all six optional
/// fields are absent; when any one is given, it looks up the reservation
/// it names.
pub proof fn patch_begin_law(req: PatchRequest)
    ensures
        (req.room_id is Some || req.user_id is Some || req.begin is Some || req.ends is Some
            || req.approval_pending is Some || req.description is Some)
            ==> patch_begin(req) == (PatchState::AwaitReservation, PatchAction::FetchReservation {
                reservation_id: req.reservation_id,
            }),
        (req.room_id is None && req.user_id is None && req.begin is None && req.ends is None
            && req.approval_pending is None && req.description is None)
            ==> patch_begin(req) == (PatchState::Finished, PatchAction::Respond(PatchReply::Plain(Status::BadRequest))),
{
}

/// A GET keeps every row when no description is given; with a description
/// `d` it keeps exactly the rows that have a description in which `d`
/// occurs as a contiguous run of characters.
pub proof fn description_filter_law(req: GetRequest, r: Reservation)
    ensures
        req.description is None ==> keep_row(req, r),
        req.description matches Some(d) ==> (keep_row(req, r) <==> (r.description matches Some(v)
            && exists|i: int| 0 <= i && i + d@.len() <= v@.len() && #[trigger] v@.subrange(i, i + d@.len()) == d@)),
{
}

/// The filters of a GET: one for each of room, user, begin, end and
/// approval state that is given, binding the given value (the approval
/// state as a boolean), and no other.
pub proof fn get_filters_law(req: GetRequest)
    ensures
        req.room_id matches Some(v) ==> get_filters(req).contains(("room_id"@, Param::Text(v))),
        req.user_id matches Some(v) ==> get_filters(req).contains(("user_id"@, Param::Text(v))),
        req.begin matches Some(v) ==> get_filters(req).contains(("begins"@, Param::Text(v))),
        req.ends matches Some(v) ==> get_filters(req).contains(("ends"@, Param::Text(v))),
        req.approval_pending matches Some(b) ==> get_filters(req).contains(("approval_pending"@, Param::Flag(b))),
        get_filters(req).len() == (if req.room_id is Some { 1int } else { 0 }) + (if req.user_id is Some { 1int } else { 0 })
            + (if req.begin is Some { 1int } else { 0 }) + (if req.ends is Some { 1int } else { 0 })
            + (if req.approval_pending is Some { 1int } else { 0 }),
{
    let a = optional_filter(req.room_id, "room_id"@);
    let b = optional_filter(req.user_id, "user_id"@);
    let c = optional_filter(req.begin, "begins"@);
    let d = optional_filter(req.ends, "ends"@);
    let e: Seq<(Seq<char>, Param)> = match req.approval_pending {
        Some(v) => seq![("approval_pending"@, Param::Flag(v))],
        None => seq![],
    };
    let f = get_filters(req);
    assert(f == a + b + c + d + e);
    if req.room_id is Some {
        assert(f[0] == a[0]);
    }
    if req.user_id is Some {
        assert(f[a.len() as int] == b[0]);
    }
    if req.begin is Some {
        assert(f[(a.len() + b.len()) as int] == c[0]);
    }
    if req.ends is Some {
        assert(f[(a.len() + b.len() + c.len()) as int] == d[0]);
    }
    if req.approval_pending is Some {
        assert(f[(a.len() + b.len() + c.len() + d.len()) as int] == e[0]);
    }
}

/// A PUT inserts a row exactly when both date-times parse, with the given
/// room, user and description and the parsed times; otherwise `400`.
pub proof fn put_law(req: PutRequest, begins: Option<i64>, ends: Option<i64>)
    ensures
        put_outcome(req, begins, ends) is Ok <==> (begins is Some && ends is Some),
        put_outcome(req, begins, ends) matches Err(s) ==> s == Status::BadRequest,
        put_outcome(req, begins, ends) matches Ok(n) ==> n.room_id == req.room_id && n.user_id == req.user_id
            && n.description == req.description && Some(n.begins) == begins && Some(n.ends) == ends,
{
}

/// The conditions of a GET are joined by `AND`: one column gives
/// `col=? `, and each further column adds `AND col=? ` after the others; a
/// GET with filters selects `WHERE` those conditions hold, one without
/// selects every reservation.
pub proof fn get_conditions_law(columns: Seq<Seq<char>>, column: Seq<char>, req: GetRequest)
    ensures
        conditions(seq![column]) == column + "=? "@,
        columns.len() > 0 ==> conditions(columns.push(column)) == conditions(columns) + "AND "@ + column + "=? "@,
        get_filters(req).len() == 0 ==> get_query_text(req) == "SELECT * FROM Reservations "@,
        get_filters(req).len() > 0 ==> get_query_text(req)
            == "SELECT * FROM Reservations WHERE "@ + conditions(filter_columns(get_filters(req))),
{
    assert(columns.push(column).drop_last() =~= columns);
}

} // verus!
