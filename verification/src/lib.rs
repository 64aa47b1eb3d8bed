//! Verified core of the watchcat room-access server.
//!
//! The HTTP and database plumbing lives outside this crate; what stands here
//! is the logic the handlers decide with: input validation, reservation
//! conflict and access rules, SQL filter building, and the request/response
//! state machines of each endpoint.
use vstd::prelude::*;

pub mod trusted;
pub mod validate;
pub mod model;
pub mod env_check;
pub mod text;
pub mod routers;

pub use model::{Admin, Card, Moment, Record, Reservation, Room, Status, User};

verus! {

/// The greeting served at `/`.
pub fn hello() -> (s: String)
    ensures
        s@ == "Hello, World!"@,
{
    "Hello, World!".to_string()
}

/// The reply of `/echo`: the message it was given.
pub fn echo(msg: &String) -> (s: String)
    ensures
        s@ == msg@,
{
    msg.clone()
}

} // verus!
