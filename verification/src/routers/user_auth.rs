//! `/user_auth`: tells which user a card belongs to.
use vstd::prelude::*;
use crate::model::Status;

verus! {

/// The user id of a card: for now, the card id itself.
pub fn get_user_id(card_id: &String) -> (r: anyhow::Result<String>)
    ensures
        r matches Ok(id) && id@ == card_id@,
{
    Ok(card_id.clone())
}

/// The reply of `/user_auth`.
pub enum UserAuthReply {
    /// `200` with the user id as the body.
    UserId(String),
    /// `500` with a text that asks to contact the administrator.
    Failed,
}

/// The text of the `500` reply.
pub open spec fn user_auth_failure_text() -> Seq<char> {
    "Something went wrong! The error has been log. Please contact with server administrator."@
}

impl UserAuthReply {
    /// The status of the reply.
    pub fn status(&self) -> (s: Status)
        ensures
            s == (match self {
                UserAuthReply::UserId(_) => Status::Success,
                UserAuthReply::Failed => Status::InternalServerError,
            }),
    {
        match self {
            UserAuthReply::UserId(_) => Status::Success,
            UserAuthReply::Failed => Status::InternalServerError,
        }
    }

    /// The body of the reply.
    pub fn body(&self) -> (b: String)
        ensures
            match self {
                UserAuthReply::UserId(id) => b@ == id@,
                UserAuthReply::Failed => b@ == user_auth_failure_text(),
            },
    {
        match self {
            UserAuthReply::UserId(id) => id.clone(),
            UserAuthReply::Failed => "Something went wrong! The error has been log. Please contact with server administrator.".to_string(),
        }
    }
}

/// The reply for the outcome of the user id lookup: the id, or `500`.
pub fn user_auth_reply(lookup: anyhow::Result<String>) -> (r: UserAuthReply)
    ensures
        match lookup {
            Ok(v) => r == UserAuthReply::UserId(v),
            Err(_) => r is Failed,
        },
{
    match lookup {
        Ok(v) => UserAuthReply::UserId(v),
        Err(_) => UserAuthReply::Failed,
    }
}

/// Answers `/user_auth` for a card: its user id, with `200`.
pub fn user_auth(card_id: &String) -> (r: UserAuthReply)
    ensures
        r matches UserAuthReply::UserId(id) && id@ == card_id@,
{
    user_auth_reply(get_user_id(card_id))
}

} // verus!
