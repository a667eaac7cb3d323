//! The answer to a WebSocket upgrade request.

use vstd::prelude::*;

verus! {

/// Largest payload accepted on a turtle connection, in bytes.
pub const MAX_PAYLOAD_LENGTH: usize = 16 * 1024;

/// Seconds without traffic after which a turtle connection is closed.
pub const IDLE_TIMEOUT_SECS: u32 = 60;

/// The `Sec-WebSocket-Accept` value for a client key, as sockudo-ws computes
/// it (base64 of the SHA-1 of the key followed by the WebSocket GUID).
pub uninterp spec fn websocket_accept_key(key: Seq<char>) -> Seq<char>;

/// `sockudo_ws::handshake::generate_accept_key`. Claimed: the result is a
/// function of the key alone, named `websocket_accept_key`.
#[verifier::external_body]
fn accept_key(key: &str) -> (k: String)
    ensures
        k@ == websocket_accept_key(key@),
{
    sockudo_ws::handshake::generate_accept_key(key)
}

/// How an upgrade request is answered.
#[derive(Debug, Clone, PartialEq, Eq)]
pub enum HandshakeReply {
    /// 400: the request has no `Sec-WebSocket-Key` header.
    BadRequest,
    /// 101: switch to the WebSocket protocol, with this accept key.
    SwitchingProtocols { accept_key: String },
}

impl HandshakeReply {
    /// The HTTP status of the answer.
    pub fn status(&self) -> (s: u16)
        ensures
            s == (if self is BadRequest {
                400u16
            } else {
                101u16
            }),
    {
        match self {
            HandshakeReply::BadRequest => 400,
            HandshakeReply::SwitchingProtocols { .. } => 101,
        }
    }
}

/// Answers an upgrade request given its `Sec-WebSocket-Key` header as text
/// (`None` when the header is missing; a header that is not visible ASCII
/// is read as the empty text).
pub fn handshake_reply(key: Option<&str>) -> (r: HandshakeReply)
    ensures
        key is None ==> r is BadRequest,
        key matches Some(k) ==> r matches HandshakeReply::SwitchingProtocols { accept_key }
            && accept_key@ == websocket_accept_key(k@),
{
    match key {
        None => HandshakeReply::BadRequest,
        Some(k) => HandshakeReply::SwitchingProtocols { accept_key: accept_key(k) },
    }
}

} // verus!
