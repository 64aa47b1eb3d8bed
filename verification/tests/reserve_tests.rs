use watchcat_server::routers::reserve::{
    get_query, get_step, keep_reservation, patch_start, patch_step, patch_with_times, prepare_put,
    put_with_times, GetReply, GetRequest, GetStep, Param, PatchAction, PatchEvent, PatchReply, PatchRequest,
    PatchState, PutRequest,
};
use watchcat_server::model::has_conflict;
use watchcat_server::routers::RowEvent;
use watchcat_server::{Reservation, Status};

fn put(begins: &str, ends: &str) -> PutRequest {
    PutRequest {
        room_id: "R101".to_string(),
        user_id: "42".to_string(),
        description: "meeting".to_string(),
        begins: begins.to_string(),
        ends: ends.to_string(),
    }
}

fn get_all() -> GetRequest {
    GetRequest { room_id: None, user_id: None, begin: None, ends: None, approval_pending: None, description: None }
}

fn reservation(id: i32, room: &str, begins: i64, ends: i64, pending: bool) -> Reservation {
    Reservation {
        reservation_id: id,
        room_id: room.to_string(),
        user_id: "42".to_string(),
        description: Some("weekly meeting".to_string()),
        begins,
        ends,
        approval_pending: pending,
    }
}

fn patch(id: i32) -> PatchRequest {
    PatchRequest {
        reservation_id: id,
        room_id: None,
        user_id: None,
        begin: None,
        ends: None,
        approval_pending: None,
        description: None,
    }
}

#[test]
fn put_parses_both_datetimes() {
    let new = prepare_put(&put("2024-01-02 03:04", "2024-01-02 05:00")).ok().unwrap();
    assert_eq!(new.begins, 1704164640);
    assert_eq!(new.ends, 1704171600);
    assert_eq!(new.room_id, "R101");
    assert_eq!(new.user_id, "42");
    assert_eq!(new.description, "meeting");
}

#[test]
fn put_with_unparsable_datetime_is_bad_request() {
    assert_eq!(prepare_put(&put("2024-01-02", "2024-01-02 05:00")).err(), Some(Status::BadRequest));
    assert_eq!(prepare_put(&put("2024-01-02 03:04", "tomorrow")).err(), Some(Status::BadRequest));
    assert_eq!(prepare_put(&put("2024-13-02 03:04", "2024-01-02 05:00")).err(), Some(Status::BadRequest));
}

#[test]
fn put_with_times_uses_given_values() {
    let req = put("x", "y");
    assert_eq!(put_with_times(&req, Some(10), None).err(), Some(Status::BadRequest));
    assert_eq!(put_with_times(&req, None, Some(10)).err(), Some(Status::BadRequest));
    let new = put_with_times(&req, Some(10), Some(20)).ok().unwrap();
    assert_eq!((new.begins, new.ends), (10, 20));
}

#[test]
fn get_query_without_filters() {
    let q = get_query(&get_all());
    assert_eq!(q.text, "SELECT * FROM Reservations ");
    assert!(q.params.is_empty());
}

#[test]
fn get_query_with_all_filters() {
    let req = GetRequest {
        room_id: Some("R101".to_string()),
        user_id: Some("42".to_string()),
        begin: Some("2024-01-02 03:04".to_string()),
        ends: Some("2024-01-02 05:00".to_string()),
        approval_pending: Some(false),
        description: Some("meet".to_string()),
    };
    let q = get_query(&req);
    assert_eq!(
        q.text,
        "SELECT * FROM Reservations WHERE room_id=? AND user_id=? AND begins=? AND ends=? AND approval_pending=? "
    );
    assert_eq!(
        q.params,
        vec![
            Param::Text("R101".to_string()),
            Param::Text("42".to_string()),
            Param::Text("2024-01-02 03:04".to_string()),
            Param::Text("2024-01-02 05:00".to_string()),
            Param::Flag(false),
        ]
    );
    assert_eq!(q.text.matches('?').count(), q.params.len());
}

#[test]
fn get_query_with_some_filters() {
    let mut req = get_all();
    req.user_id = Some("7".to_string());
    req.approval_pending = Some(true);
    let q = get_query(&req);
    assert_eq!(q.text, "SELECT * FROM Reservations WHERE user_id=? AND approval_pending=? ");
    assert_eq!(q.params, vec![Param::Text("7".to_string()), Param::Flag(true)]);
}

#[test]
fn description_filter_matches_substrings() {
    let mut req = get_all();
    let r = reservation(1, "R101", 0, 10, false);
    assert!(keep_reservation(&req, &r));
    req.description = Some("weekly".to_string());
    assert!(keep_reservation(&req, &r));
    req.description = Some("daily".to_string());
    assert!(!keep_reservation(&req, &r));
    let mut no_desc = reservation(2, "R101", 0, 10, false);
    no_desc.description = None;
    req.description = Some(String::new());
    assert!(!keep_reservation(&req, &no_desc));
    assert!(keep_reservation(&req, &r));
}

#[test]
fn get_steps_keep_matching_rows_in_order() {
    let mut req = get_all();
    req.description = Some("meeting".to_string());
    let mut other = reservation(2, "R101", 0, 10, false);
    other.description = Some("party".to_string());
    let events = vec![
        RowEvent::Row(reservation(1, "R101", 0, 10, false)),
        RowEvent::Row(other),
        RowEvent::Row(reservation(3, "R102", 0, 10, true)),
        RowEvent::End,
    ];
    let mut kept = Vec::new();
    let mut reply = None;
    for e in events {
        match get_step(&req, kept, e) {
            GetStep::Continue(v) => kept = v,
            GetStep::Respond(r) => {
                reply = Some(r);
                kept = Vec::new();
            }
        }
    }
    match reply {
        Some(GetReply::Rows(rows)) => {
            let ids: Vec<i32> = rows.iter().map(|r| r.reservation_id).collect();
            assert_eq!(ids, vec![1, 3]);
        }
        _ => panic!("expected rows"),
    }
}

#[test]
fn get_step_read_error_is_internal_error() {
    match get_step(&get_all(), vec![reservation(1, "R101", 0, 10, false)], RowEvent::Failed("lost".to_string())) {
        GetStep::Respond(r) => assert_eq!(r.status(), Status::InternalServerError),
        _ => panic!("expected a reply"),
    }
}

#[test]
fn conflict_needs_other_approved_overlapping_reservation() {
    let updated = reservation(1, "R101", 100, 200, true);
    assert!(!has_conflict(&updated, &vec![reservation(1, "R101", 100, 200, false)]));
    assert!(!has_conflict(&updated, &vec![reservation(2, "R101", 100, 200, true)]));
    assert!(has_conflict(&updated, &vec![reservation(2, "r101", 100, 200, false)]));
    assert!(!has_conflict(&updated, &vec![reservation(2, "R101", 201, 300, false)]));
    assert!(!has_conflict(&updated, &vec![reservation(2, "R101", 0, 99, false)]));
    assert!(has_conflict(&updated, &vec![reservation(2, "R101", 200, 300, false)]));
    assert!(has_conflict(&updated, &vec![reservation(2, "R101", 0, 100, false)]));
    assert!(has_conflict(&updated, &vec![reservation(2, "R101", 120, 150, false)]));
    assert!(has_conflict(&updated, &vec![reservation(2, "R101", 0, 300, false)]));
}

#[test]
fn patch_with_times_without_fields_is_bad_request() {
    let old = reservation(5, "R101", 100, 200, true);
    assert_eq!(patch_with_times(&patch(5), &old, None, None).err(), Some(Status::BadRequest));
}

#[test]
fn patch_keeps_unset_fields() {
    let old = reservation(5, "R101", 100, 200, true);
    let mut req = patch(5);
    req.approval_pending = Some(false);
    let u = patch_with_times(&req, &old, None, None).ok().unwrap();
    assert_eq!(u.reservation_id, 5);
    assert_eq!(u.room_id, "R101");
    assert_eq!(u.user_id, "42");
    assert_eq!(u.description.as_deref(), Some("weekly meeting"));
    assert_eq!((u.begins, u.ends), (100, 200));
    assert!(!u.approval_pending);
}

#[test]
fn patch_with_unparsable_time_is_bad_request() {
    let old = reservation(5, "R101", 100, 200, true);
    let mut req = patch(5);
    req.begin = Some("soon".to_string());
    assert_eq!(patch_with_times(&req, &old, None, None).err(), Some(Status::BadRequest));
    let u = patch_with_times(&req, &old, Some(150), None).ok().unwrap();
    assert_eq!((u.begins, u.ends), (150, 200));
}

fn respond_status(action: PatchAction) -> Status {
    match action {
        PatchAction::Respond(r) => r.status(),
        _ => panic!("expected a reply"),
    }
}

#[test]
fn patch_unknown_reservation_is_not_found() {
    let mut req = patch(9);
    req.user_id = Some("7".to_string());
    let (state, action) = patch_start(&req);
    match action {
        PatchAction::FetchReservation { reservation_id } => assert_eq!(reservation_id, 9),
        _ => panic!("expected fetch"),
    }
    let (_, action) = patch_step(&req, state, PatchEvent::Fetched(None));
    assert_eq!(respond_status(action), Status::NotFound);
}

#[test]
fn patch_full_run_updates_when_free() {
    let mut req = patch(5);
    req.room_id = Some("R102".to_string());
    req.begin = Some("2024-01-02 03:04".to_string());
    let (state, _) = patch_start(&req);
    let old = reservation(5, "R101", 100, 1704171600, true);
    let (state, action) = patch_step(&req, state, PatchEvent::Fetched(Some(old)));
    match &action {
        PatchAction::FetchRoomReservations { room_id } => assert_eq!(room_id, "R102"),
        _ => panic!("expected room fetch"),
    }
    let rows = vec![reservation(5, "R102", 0, i64::MAX, false), reservation(6, "R102", 0, 10, false)];
    let (state, action) = patch_step(&req, state, PatchEvent::RoomReservations(rows));
    match &action {
        PatchAction::Update { updated } => {
            assert_eq!(updated.room_id, "R102");
            assert_eq!(updated.begins, 1704164640);
            assert_eq!(updated.ends, 1704171600);
        }
        _ => panic!("expected update"),
    }
    let (state, action) = patch_step(&req, state, PatchEvent::Updated);
    assert_eq!(respond_status(action), Status::Success);
    assert!(matches!(state, PatchState::Finished));
}

#[test]
fn patch_conflict_is_409() {
    let mut req = patch(5);
    req.approval_pending = Some(false);
    let (state, _) = patch_start(&req);
    let (state, _) = patch_step(&req, state, PatchEvent::Fetched(Some(reservation(5, "R101", 100, 200, true))));
    let rows = vec![reservation(7, "R101", 150, 250, false)];
    let (_, action) = patch_step(&req, state, PatchEvent::RoomReservations(rows));
    assert_eq!(respond_status(action), Status::Conflict);
}

#[test]
fn patch_without_fields_answers_400_before_lookup() {
    let (state, action) = patch_start(&patch(404));
    assert_eq!(respond_status(action), Status::BadRequest);
    assert!(matches!(state, PatchState::Finished));
}

#[test]
fn patch_lookup_failure_is_bare_500() {
    let mut req = patch(5);
    req.approval_pending = Some(false);
    let (state, _) = patch_start(&req);
    let (_, action) = patch_step(&req, state, PatchEvent::Failed("timeout".to_string()));
    match action {
        PatchAction::Respond(r) => {
            assert_eq!(r.status(), Status::InternalServerError);
            assert_eq!(r.body(), "");
        }
        _ => panic!("expected a reply"),
    }
}

#[test]
fn patch_conflict_query_failure_is_500_with_text() {
    let mut req = patch(5);
    req.approval_pending = Some(false);
    let (state, _) = patch_start(&req);
    let (state, _) = patch_step(&req, state, PatchEvent::Fetched(Some(reservation(5, "R101", 100, 200, true))));
    let (_, action) = patch_step(&req, state, PatchEvent::Failed("deadlock".to_string()));
    match action {
        PatchAction::Respond(PatchReply::DatabaseError(e)) => assert_eq!(e, "deadlock"),
        _ => panic!("expected a database error"),
    }
}

#[test]
fn patch_update_failure_is_500_with_text() {
    let mut req = patch(5);
    req.approval_pending = Some(false);
    let (state, _) = patch_start(&req);
    let (state, _) = patch_step(&req, state, PatchEvent::Fetched(Some(reservation(5, "R101", 100, 200, true))));
    let (state, _) = patch_step(&req, state, PatchEvent::RoomReservations(Vec::new()));
    let (_, action) = patch_step(&req, state, PatchEvent::Failed("disk full".to_string()));
    match action {
        PatchAction::Respond(r) => {
            assert_eq!(r.status(), Status::InternalServerError);
            assert_eq!(r.body(), "disk full");
        }
        _ => panic!("expected a reply"),
    }
}

#[test]
fn repeating_a_patch_stores_the_same_row() {
    let mut req = patch(5);
    req.approval_pending = Some(false);
    req.begin = Some("x".to_string());
    let old = reservation(5, "R101", 100, 200, true);
    let u = patch_with_times(&req, &old, Some(150), None).ok().unwrap();
    let again = patch_with_times(&req, &u, Some(150), None).ok().unwrap();
    assert_eq!(
        (again.reservation_id, again.room_id.clone(), again.begins, again.ends, again.approval_pending),
        (u.reservation_id, u.room_id.clone(), u.begins, u.ends, u.approval_pending)
    );
    assert!(!has_conflict(&again, &vec![u]));
}
