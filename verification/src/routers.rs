//! The endpoints, one module each.  Every handler that talks to the
//! database is a state machine here: a step takes the handler's state and
//! what the last database call gave, and returns the next state and the next
//! call to make, or the reply.
use vstd::prelude::*;

pub mod card_login;
pub mod console;
pub mod query_cards;
pub mod reserve;
pub mod room_status;
pub mod token_login;
pub mod user_auth;

verus! {

/// What reading one more row of a query's result gives.
pub enum RowEvent<T> {
    /// The next row.
    Row(T),
    /// Reading the next row failed, with the error's text.
    Failed(String),
    /// No row is left.
    End,
}

} // verus!
