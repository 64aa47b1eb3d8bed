//! `/fetch_cards`: lists the cards of a user.
use vstd::prelude::*;
use crate::model::{Card, Status};
use crate::routers::RowEvent;
use crate::validate::{is_user_id, is_valid_user_id};

verus! {

/// The body of the request.
pub struct Fields {
    pub user_id: String,
}

/// The reply.
pub enum CardsReply {
    /// `200` with `{ "cards": [...] }`.
    Cards(Vec<Card>),
    /// `400`: the user id is not made of digits.
    InvalidUserId,
    /// `500` with the text of the error that reading a row gave.
    Failed(String),
}

impl CardsReply {
    /// The body of a failure reply: the error's text; empty otherwise.
    pub fn error_text(&self) -> (t: String)
        ensures
            match self {
                CardsReply::Failed(e) => t@ == e@,
                _ => t@ == Seq::<char>::empty(),
            },
    {
        match self {
            CardsReply::Failed(e) => e.clone(),
            _ => String::new(),
        }
    }

    /// The status of the reply.
    pub fn status(&self) -> (s: Status)
        ensures
            s == (match self {
                CardsReply::Cards(_) => Status::Success,
                CardsReply::InvalidUserId => Status::BadRequest,
                CardsReply::Failed(_) => Status::InternalServerError,
            }),
    {
        match self {
            CardsReply::Cards(_) => Status::Success,
            CardsReply::InvalidUserId => Status::BadRequest,
            CardsReply::Failed(_) => Status::InternalServerError,
        }
    }
}

/// How the request starts: a user id that is not made of digits answers
/// `400`; else the cards are fetched for it.
pub fn query_cards_start(fields: &Fields) -> (r: Result<String, CardsReply>)
    ensures
        is_user_id(fields.user_id@) ==> r == Ok::<String, CardsReply>(fields.user_id),
        !is_user_id(fields.user_id@) ==> r matches Err(CardsReply::InvalidUserId),
{
    if is_valid_user_id(fields.user_id.as_str()) {
        Ok(fields.user_id.clone())
    } else {
        Err(CardsReply::InvalidUserId)
    }
}

/// What to do after one row of the cards query.
pub enum CardsStep {
    /// Read the next row, with the cards read so far.
    Continue(Vec<Card>),
    /// Answer.
    Respond(CardsReply),
}

/// One step over the rows of the cards query: every card is kept, a failed
/// read answers `500`, and the end answers `200` with all the cards, in
/// the order read.
pub fn query_cards_step(cards: Vec<Card>, event: RowEvent<Card>) -> (r: CardsStep)
    ensures
        match event {
            RowEvent::Row(c) => r matches CardsStep::Continue(v) && v@ == cards@.push(c),
            RowEvent::Failed(e) => r == CardsStep::Respond(CardsReply::Failed(e)),
            RowEvent::End => r matches CardsStep::Respond(CardsReply::Cards(v)) && v@ == cards@,
        },
{
    let mut cards = cards;
    match event {
        RowEvent::Row(c) => {
            cards.push(c);
            CardsStep::Continue(cards)
        },
        RowEvent::Failed(e) => CardsStep::Respond(CardsReply::Failed(e)),
        RowEvent::End => CardsStep::Respond(CardsReply::Cards(cards)),
    }
}

} // verus!
