//! `/token_login`: the Google login callback.  A valid access token logs
//! its user in (`302` to `/after_login` with the `user-logged` cookie),
//! registering the user first when it is new.
use vstd::prelude::*;
use crate::model::{Status, User};

verus! {

/// The body of the callback.
pub struct AccessToken {
    pub access_token: String,
}

/// What Google says of a valid access token: the user's id (`sub`), and
/// the e-mail address and name when it gives them.
pub struct TokenPayload {
    pub sub: String,
    pub email: Option<String>,
    pub name: Option<String>,
}

/// The reply of the callback.
pub enum TokenLoginReply {
    /// `400` with the text `Failed to validate access token.`.
    InvalidToken,
    /// `302` to `/after_login`, setting the cookie `user-logged` to
    /// `user_id` for one day.
    LoggedIn { user_id: String },
    /// `500` with the text of the database error.
    DatabaseError(String),
    /// `500` with an empty body: an event did not fit the state.
    Failed,
}

/// The status of each reply.
pub open spec fn token_login_status(r: TokenLoginReply) -> Status {
    match r {
        TokenLoginReply::InvalidToken => Status::BadRequest,
        TokenLoginReply::LoggedIn { .. } => Status::Found,
        TokenLoginReply::DatabaseError(_) => Status::InternalServerError,
        TokenLoginReply::Failed => Status::InternalServerError,
    }
}

/// The body text of each reply.
pub open spec fn token_login_body(r: TokenLoginReply) -> Seq<char> {
    match r {
        TokenLoginReply::InvalidToken => "Failed to validate access token."@,
        TokenLoginReply::DatabaseError(e) => e@,
        _ => Seq::empty(),
    }
}

/// A cookie to set: name, value, and lifetime in days.
pub struct LoginCookie {
    pub name: String,
    pub value: String,
    pub max_age_days: i64,
}

impl TokenLoginReply {
    /// The status of the reply.
    pub fn status(&self) -> (s: Status)
        ensures
            s == token_login_status(*self),
    {
        match self {
            TokenLoginReply::InvalidToken => Status::BadRequest,
            TokenLoginReply::LoggedIn { .. } => Status::Found,
            TokenLoginReply::DatabaseError(_) => Status::InternalServerError,
            TokenLoginReply::Failed => Status::InternalServerError,
        }
    }

    /// The body of the reply.
    pub fn body(&self) -> (b: String)
        ensures
            b@ == token_login_body(*self),
    {
        match self {
            TokenLoginReply::InvalidToken => "Failed to validate access token.".to_string(),
            TokenLoginReply::DatabaseError(e) => e.clone(),
            _ => String::new(),
        }
    }

    /// Where a login redirects to.
    pub fn location(&self) -> (l: Option<String>)
        ensures
            match self {
                TokenLoginReply::LoggedIn { .. } => l matches Some(t) && t@ == "/after_login"@,
                _ => l is None,
            },
    {
        match self {
            TokenLoginReply::LoggedIn { .. } => Some("/after_login".to_string()),
            _ => None,
        }
    }

    /// The cookie that a login sets.
    pub fn cookie(&self) -> (c: Option<LoginCookie>)
        ensures
            match self {
                TokenLoginReply::LoggedIn { user_id } => c matches Some(k)
                    && k.name@ == "user-logged"@ && k.value@ == user_id@ && k.max_age_days == 1,
                _ => c is None,
            },
    {
        match self {
            TokenLoginReply::LoggedIn { user_id } => Some(LoginCookie {
                name: "user-logged".to_string(),
                value: user_id.clone(),
                max_age_days: 1,
            }),
            _ => None,
        }
    }
}

/// Where a callback stands.
pub enum TokenLoginState {
    /// Waiting for Google's answer on the token.
    AwaitPayload,
    /// Waiting for the rows of the user.
    AwaitUser { payload: TokenPayload },
    /// Waiting for the new user to be stored.
    AwaitInsert { user_id: String },
    /// The reply is given.
    Finished,
}

/// What a callback asks for next, or its reply.
pub enum TokenLoginAction {
    /// Ask Google to validate the access token.
    ValidateToken { access_token: String },
    /// `SELECT * from Users WHERE id=?`, all rows.
    FindUser { id: String },
    /// `INSERT INTO Users (id, email, name) VALUES (?, ?, ?)`.
    InsertUser { id: String, email: Option<String>, name: Option<String> },
    /// Answer.
    Respond(TokenLoginReply),
}

/// What the last action of a callback gave.
pub enum TokenLoginEvent {
    /// Google accepted the token.
    Validated(TokenPayload),
    /// Google rejected the token, or could not be asked.
    Rejected,
    /// The rows that the users query gave for the user's id.
    Users(Vec<User>),
    /// The new user is stored.
    Inserted,
    /// The database call failed with this error text.
    Failed(String),
}

/// The first step: ask Google about the token.
pub fn token_login_start(req: &AccessToken) -> (r: (TokenLoginState, TokenLoginAction))
    ensures
        r == (TokenLoginState::AwaitPayload, TokenLoginAction::ValidateToken { access_token: req.access_token }),
{
    (TokenLoginState::AwaitPayload, TokenLoginAction::ValidateToken { access_token: req.access_token.clone() })
}

/// The user is registered: the users query, which matched the id under
/// the table's collation, gave some row.
pub open spec fn user_known(users: Seq<User>) -> bool {
    users.len() > 0
}

/// One step of the callback: a rejected token answers `400`; an accepted
/// one looks up its user, registers the user (id, e-mail, name) when no row
/// has its id, and then answers `302` with the login cookie.  A failed
/// database call answers `500` with the error's text; an event that does
/// not fit the state answers a bare `500`.
pub open spec fn token_login_transition(state: TokenLoginState, event: TokenLoginEvent) -> (TokenLoginState, TokenLoginAction) {
    match (state, event) {
        (TokenLoginState::AwaitPayload, TokenLoginEvent::Rejected) =>
            (TokenLoginState::Finished, TokenLoginAction::Respond(TokenLoginReply::InvalidToken)),
        (TokenLoginState::AwaitPayload, TokenLoginEvent::Validated(payload)) =>
            (TokenLoginState::AwaitUser { payload }, TokenLoginAction::FindUser { id: payload.sub }),
        (TokenLoginState::AwaitUser { payload }, TokenLoginEvent::Users(users)) =>
            if user_known(users@) {
                (
                    TokenLoginState::Finished,
                    TokenLoginAction::Respond(TokenLoginReply::LoggedIn { user_id: payload.sub }),
                )
            } else {
                (
                    TokenLoginState::AwaitInsert { user_id: payload.sub },
                    TokenLoginAction::InsertUser { id: payload.sub, email: payload.email, name: payload.name },
                )
            },
        (TokenLoginState::AwaitInsert { user_id }, TokenLoginEvent::Inserted) =>
            (TokenLoginState::Finished, TokenLoginAction::Respond(TokenLoginReply::LoggedIn { user_id })),
        (TokenLoginState::AwaitUser { .. }, TokenLoginEvent::Failed(e)) =>
            (TokenLoginState::Finished, TokenLoginAction::Respond(TokenLoginReply::DatabaseError(e))),
        (TokenLoginState::AwaitInsert { .. }, TokenLoginEvent::Failed(e)) =>
            (TokenLoginState::Finished, TokenLoginAction::Respond(TokenLoginReply::DatabaseError(e))),
        _ => (TokenLoginState::Finished, TokenLoginAction::Respond(TokenLoginReply::Failed)),
    }
}

/// Takes one step of the callback (see `token_login_transition`).
pub fn token_login_step(state: TokenLoginState, event: TokenLoginEvent) -> (r: (TokenLoginState, TokenLoginAction))
    ensures
        r == token_login_transition(state, event),
{
    match (state, event) {
        (TokenLoginState::AwaitPayload, TokenLoginEvent::Rejected) =>
            (TokenLoginState::Finished, TokenLoginAction::Respond(TokenLoginReply::InvalidToken)),
        (TokenLoginState::AwaitPayload, TokenLoginEvent::Validated(payload)) => {
            let id = payload.sub.clone();
            (TokenLoginState::AwaitUser { payload }, TokenLoginAction::FindUser { id })
        },
        (TokenLoginState::AwaitUser { payload }, TokenLoginEvent::Users(users)) => {
            if users.len() > 0 {
                (
                    TokenLoginState::Finished,
                    TokenLoginAction::Respond(TokenLoginReply::LoggedIn { user_id: payload.sub }),
                )
            } else {
                let user_id = payload.sub.clone();
                (
                    TokenLoginState::AwaitInsert { user_id },
                    TokenLoginAction::InsertUser { id: payload.sub, email: payload.email, name: payload.name },
                )
            }
        },
        (TokenLoginState::AwaitInsert { user_id }, TokenLoginEvent::Inserted) =>
            (TokenLoginState::Finished, TokenLoginAction::Respond(TokenLoginReply::LoggedIn { user_id })),
        (TokenLoginState::AwaitUser { .. }, TokenLoginEvent::Failed(e)) =>
            (TokenLoginState::Finished, TokenLoginAction::Respond(TokenLoginReply::DatabaseError(e))),
        (TokenLoginState::AwaitInsert { .. }, TokenLoginEvent::Failed(e)) =>
            (TokenLoginState::Finished, TokenLoginAction::Respond(TokenLoginReply::DatabaseError(e))),
        _ => (TokenLoginState::Finished, TokenLoginAction::Respond(TokenLoginReply::Failed)),
    }
}

/// A callback registers a user exactly when Google accepted the token and
/// no stored row has the user's id; the login that follows sets the cookie
/// to that same id.
pub proof fn token_login_registers_only_new_users(payload: TokenPayload, users: Vec<User>)
    ensures
        (token_login_transition(TokenLoginState::AwaitUser { payload }, TokenLoginEvent::Users(users)).1
            is InsertUser) == !user_known(users@),
        token_login_transition(
            token_login_transition(TokenLoginState::AwaitUser { payload }, TokenLoginEvent::Users(users)).0,
            TokenLoginEvent::Inserted,
        ).1 == TokenLoginAction::Respond(TokenLoginReply::LoggedIn { user_id: payload.sub })
            || user_known(users@),
{
}

/// The steps of the callback: a rejected token answers `400`; an accepted
/// one looks up the user by the token's subject; when the lookup gives no
/// row the user is inserted with the token's id, e-mail and name, and when
/// it gives a row the user is logged in with the subject as cookie value;
/// a stored insert logs in the inserted user.
pub proof fn token_login_law(payload: TokenPayload, users: Vec<User>, user_id: String)
    ensures
        token_login_transition(TokenLoginState::AwaitPayload, TokenLoginEvent::Rejected).1
            == TokenLoginAction::Respond(TokenLoginReply::InvalidToken),
        token_login_transition(TokenLoginState::AwaitPayload, TokenLoginEvent::Validated(payload)).1
            == (TokenLoginAction::FindUser { id: payload.sub }),
        users@.len() == 0 ==> token_login_transition(
            (TokenLoginState::AwaitUser { payload }),
            TokenLoginEvent::Users(users),
        ).1 == (TokenLoginAction::InsertUser { id: payload.sub, email: payload.email, name: payload.name }),
        users@.len() > 0 ==> token_login_transition(
            (TokenLoginState::AwaitUser { payload }),
            TokenLoginEvent::Users(users),
        ).1 == TokenLoginAction::Respond(TokenLoginReply::LoggedIn { user_id: payload.sub }),
        token_login_transition((TokenLoginState::AwaitInsert { user_id }), TokenLoginEvent::Inserted).1
            == TokenLoginAction::Respond(TokenLoginReply::LoggedIn { user_id }),
{
}

} // verus!
