//! The server around the GraphQL API: its settings, and what it replies
//! where a request does not reach the API.

use vstd::prelude::*;
use vstd::string::*;

pub mod settings;

verus! {

/// The status of a reply to a request that is no GraphQL request.
pub const BAD_REQUEST: u16 = 400;

/// The status of a reply to a request that failed for any other reason.
pub const INTERNAL_SERVER_ERROR: u16 = 500;

/// The reply to a rejected request: its body and its status.
#[derive(Debug, PartialEq, Eq)]
pub struct Rejected {
    pub body: String,
    pub status: u16,
}

/// The reply to a rejected request. `bad_request` is the text of the
/// GraphQL layer's objection, where the request was rejected as no GraphQL
/// request: that text is the body, and the status is 400. Every other
/// rejection is an internal error, with status 500.
pub fn recover(bad_request: Option<String>) -> (reply: Rejected)
    ensures
        match bad_request {
            Some(objection) => reply.body == objection && reply.status == BAD_REQUEST,
            None => reply.body@ == "INTERNAL_SERVER_ERROR"@ && reply.status
                == INTERNAL_SERVER_ERROR,
        },
{
    match bad_request {
        Some(objection) => Rejected { body: objection, status: BAD_REQUEST },
        None => Rejected {
            body: String::from_str("INTERNAL_SERVER_ERROR"),
            status: INTERNAL_SERVER_ERROR,
        },
    }
}

} // verus!
