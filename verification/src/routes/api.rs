//! What the REST endpoints answer.

use std::collections::HashMap;

use vstd::prelude::*;

use crate::errors::Error;
use crate::models::responses::ApiResponse;
use crate::websockets::actor::DiggingData;

verus! {

/// The reason given when the session registry could not be asked.
pub open spec fn fetch_failure_reason() -> Seq<char> {
    "Failed to fetch client data"@
}

/// The error for a registry that could not be asked.
fn fetch_failure() -> (e: Error)
    ensures
        e matches Error::ActorCommunication { reason } && reason@ == fetch_failure_reason(),
{
    Error::ActorCommunication { reason: String::from_str("Failed to fetch client data") }
}

/// The answer to `GET /api/clients`, given the registry's reply (`None`
/// when the registry could not be asked): the snapshots of all turtles, or
/// an actor-communication error.
pub fn all_clients_response(reply: Option<HashMap<u128, DiggingData>>) -> (r: Result<
    ApiResponse<'static, HashMap<u128, DiggingData>>,
    Error,
>)
    ensures
        (r is Ok) <==> (reply is Some),
        r matches Ok(resp) ==> resp.data == reply && resp.meta is None && resp.error is None
            && resp.message is None,
        r matches Err(e) ==> e matches Error::ActorCommunication { reason } && reason@
            == fetch_failure_reason(),
{
    match reply {
        Some(clients) => Ok(ApiResponse::success(clients)),
        None => Err(fetch_failure()),
    }
}

/// The answer to `GET /api/clients/{session_id}`, given the registry's reply
/// (`None` when the registry could not be asked, `Some(None)` when it has no
/// snapshot of that session): the turtle's snapshot, an actor-communication
/// error, or a session-not-found error.
pub fn client_response(session_id: u128, reply: Option<Option<DiggingData>>) -> (r: Result<
    ApiResponse<'static, DiggingData>,
    Error,
>)
    ensures
        (r is Ok) <==> (reply matches Some(Some(_))),
        r matches Ok(resp) ==> reply == Some(resp.data) && resp.data is Some && resp.meta is None
            && resp.error is None && resp.message is None,
        reply is None ==> (r matches Err(e) && e matches Error::ActorCommunication { reason }
            && reason@ == fetch_failure_reason()),
        reply == Some(None::<DiggingData>) ==> r == Err::<
            ApiResponse<'static, DiggingData>,
            Error,
        >(Error::SessionNotFound { session_id }),
{
    match reply {
        None => Err(fetch_failure()),
        Some(None) => Err(Error::SessionNotFound { session_id }),
        Some(Some(data)) => Ok(ApiResponse::success(data)),
    }
}

} // verus!
