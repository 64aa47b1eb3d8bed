//! `/room_status`: the query of the room status request.  The endpoint
//! has no behaviour yet.
use vstd::prelude::*;

verus! {

/// The query of a room status request: the filters, each optional.
pub struct GetRequest {
    pub room_id: Option<String>,
    pub user_id: Option<String>,
    pub begins: Option<String>,
    pub ends: Option<String>,
}

} // verus!
