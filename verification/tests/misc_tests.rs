use watchcat_server::env_check::{missing_env_vars, required_env_fields};
use watchcat_server::{echo, hello};
use watchcat_server::text::contains_text;
use watchcat_server::routers::console::{console_step, ConsoleReply, ConsoleStep};
use watchcat_server::routers::query_cards::{query_cards_start, query_cards_step, CardsReply, CardsStep, Fields};
use watchcat_server::routers::user_auth::{get_user_id, user_auth, user_auth_reply, UserAuthReply};
use watchcat_server::routers::RowEvent;
use watchcat_server::{Admin, Card, Status};

#[test]
fn hello_greets() {
    assert_eq!(hello(), "Hello, World!");
}

#[test]
fn status_codes() {
    assert_eq!(Status::Success.code(), 200);
    assert_eq!(Status::Created.code(), 201);
    assert_eq!(Status::NoContent.code(), 204);
    assert_eq!(Status::Found.code(), 302);
    assert_eq!(Status::BadRequest.code(), 400);
    assert_eq!(Status::Forbidden.code(), 403);
    assert_eq!(Status::NotFound.code(), 404);
    assert_eq!(Status::Conflict.code(), 409);
    assert_eq!(Status::InternalServerError.code(), 500);
}

#[test]
fn required_env_fields_are_the_four_settings() {
    assert_eq!(
        required_env_fields(),
        vec!["BIND_IP", "BIND_PORT", "GOOGLE_OAUTH_KEY", "GOOGLE_OAUTH_ID", "DATABASE_URL"]
    );
}

#[test]
fn missing_env_vars_lists_unset_names_in_order() {
    let env = vec![
        ("BIND_IP".to_string(), None),
        ("BIND_PORT".to_string(), Some("8080".to_string())),
        ("GOOGLE_OAUTH_KEY".to_string(), Some("key".to_string())),
        ("GOOGLE_OAUTH_ID".to_string(), None),
        ("DATABASE_URL".to_string(), Some("mysql://x".to_string())),
    ];
    assert_eq!(missing_env_vars(&env), vec!["BIND_IP", "GOOGLE_OAUTH_ID"]);
}

#[test]
fn nothing_missing_when_all_set() {
    let env = vec![
        ("BIND_IP".to_string(), Some("0.0.0.0".to_string())),
        ("BIND_PORT".to_string(), Some("8080".to_string())),
    ];
    assert!(missing_env_vars(&env).is_empty());
}

fn admin(name: &str) -> Admin {
    Admin { username: name.to_string(), password: "pw".to_string() }
}

#[test]
fn console_login_takes_first_good_row() {
    match console_step(RowEvent::Failed("broken row".to_string())) {
        ConsoleStep::Continue => {}
        _ => panic!("a failed read is skipped"),
    }
    match console_step(RowEvent::Row(admin("root"))) {
        ConsoleStep::Respond(reply) => {
            assert_eq!(reply.status(), Status::Success);
            match reply {
                ConsoleReply::LoggedIn(a) => assert_eq!(a.username, "root"),
                _ => panic!("expected login"),
            }
        }
        _ => panic!("expected a reply"),
    }
}

#[test]
fn console_login_without_rows_is_bad_request() {
    match console_step(RowEvent::End) {
        ConsoleStep::Respond(reply) => assert_eq!(reply.status(), Status::BadRequest),
        _ => panic!("expected a reply"),
    }
}

#[test]
fn query_cards_rejects_non_digit_user_id() {
    let r = query_cards_start(&Fields { user_id: "12x".to_string() });
    match r {
        Err(reply) => assert_eq!(reply.status(), Status::BadRequest),
        Ok(_) => panic!("expected rejection"),
    }
    let ok = query_cards_start(&Fields { user_id: "123".to_string() });
    assert_eq!(ok.ok(), Some("123".to_string()));
}

#[test]
fn query_cards_collects_rows_and_fails_on_error() {
    let card = Card { expire: None, id: "0123abcd".to_string(), owner: "7".to_string() };
    let kept = match query_cards_step(Vec::new(), RowEvent::Row(card)) {
        CardsStep::Continue(v) => v,
        _ => panic!("expected continue"),
    };
    assert_eq!(kept.len(), 1);
    match query_cards_step(kept, RowEvent::End) {
        CardsStep::Respond(CardsReply::Cards(v)) => assert_eq!(v[0].id, "0123abcd"),
        _ => panic!("expected cards"),
    }
    match query_cards_step(Vec::new(), RowEvent::Failed("connection reset".to_string())) {
        CardsStep::Respond(r) => {
            assert_eq!(r.status(), Status::InternalServerError);
            assert_eq!(r.error_text(), "connection reset");
        }
        _ => panic!("expected failure"),
    }
}

#[test]
fn user_auth_answers_card_id() {
    assert_eq!(get_user_id(&"0123abcd".to_string()).unwrap(), "0123abcd");
    let reply = user_auth(&"0123abcd".to_string());
    assert_eq!(reply.status(), Status::Success);
    assert_eq!(reply.body(), "0123abcd");
}

#[test]
fn user_auth_failure_is_internal_error_with_text() {
    let reply = user_auth_reply(Err(anyhow::Error::msg("lookup failed")));
    assert!(matches!(reply, UserAuthReply::Failed));
    assert_eq!(reply.status(), Status::InternalServerError);
    assert_eq!(
        reply.body(),
        "Something went wrong! The error has been log. Please contact with server administrator."
    );
}

#[test]
fn echo_returns_message() {
    assert_eq!(echo(&"ping".to_string()), "ping");
}

#[test]
fn documented_settings_are_complete() {
    let env: Vec<(String, Option<String>)> = required_env_fields()
        .into_iter()
        .map(|f| (f, Some("x".to_string())))
        .collect();
    assert!(missing_env_vars(&env).is_empty());
}

#[test]
fn contains_text_finds_substrings() {
    assert!(contains_text("weekly meeting", "meet"));
    assert!(contains_text("weekly meeting", ""));
    assert!(contains_text("", ""));
    assert!(contains_text("會議室", "議"));
    assert!(!contains_text("weekly meeting", "Meet"));
    assert!(!contains_text("ab", "abc"));
    assert!(contains_text("abc", "abc"));
    assert!(contains_text("aab", "ab"));
}

#[test]
fn chrono_utc_range_in_seconds() {
    assert_eq!(chrono::DateTime::<chrono::Utc>::MIN_UTC.timestamp(), -8_334_601_228_800);
    assert_eq!(chrono::DateTime::<chrono::Utc>::MAX_UTC.timestamp(), 8_210_266_876_799);
}
