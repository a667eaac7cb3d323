//! The application's error type and the HTTP response each error becomes.

use vstd::prelude::*;

use crate::session_id::{uuid_string, uuid_text};

verus! {

/// Main error type for the application. Where an error wraps a lower-level
/// error, the variant holds that error's text.
#[derive(Debug, Clone, PartialEq, Eq)]
pub enum Error {
    /// WebSocket connection errors (the text of an I/O error)
    WebSocketConnection { source: String },
    /// WebSocket upgrade errors (the text of an HTTP upgrade error)
    WebSocketUpgrade { source: String },
    /// WebSocket send errors
    WebSocketSend { reason: String },
    /// WebSocket receive errors
    WebSocketReceive { reason: String },
    /// Actor communication errors
    ActorCommunication { reason: String },
    /// Actor mailbox error (the text of a mailbox send error)
    ActorMailbox { source: String },
    /// Session not found
    SessionNotFound { session_id: u128 },
    /// Serialization errors (the text of a JSON error)
    Serialization { source: String },
    /// Deserialization errors (the text of a JSON error)
    Deserialization { source: String },
    /// Invalid message format
    InvalidMessageFormat { reason: String },
    /// Invalid packet type
    InvalidPacketType { packet_type: String },
    /// TCP listener bind error (the text of an I/O error)
    TcpBind { source: String },
    /// Server startup error
    ServerStartup { reason: String },
    /// Internal server error
    InternalServer { reason: String },
    /// Bad request error
    BadRequest { reason: String },
    /// Not found error
    NotFound { resource: String },
    /// Timeout error
    Timeout { operation: String },
    /// Configuration error
    Configuration { reason: String },
}

/// The HTTP status an error is answered with.
pub open spec fn status_of(e: Error) -> u16 {
    match e {
        Error::WebSocketConnection { .. } => 503,
        Error::WebSocketUpgrade { .. } => 400,
        Error::WebSocketSend { .. } => 500,
        Error::WebSocketReceive { .. } => 500,
        Error::ActorCommunication { .. } => 500,
        Error::ActorMailbox { .. } => 500,
        Error::SessionNotFound { .. } => 404,
        Error::Serialization { .. } => 500,
        Error::Deserialization { .. } => 400,
        Error::InvalidMessageFormat { .. } => 400,
        Error::InvalidPacketType { .. } => 400,
        Error::TcpBind { .. } => 500,
        Error::ServerStartup { .. } => 500,
        Error::InternalServer { .. } => 500,
        Error::BadRequest { .. } => 400,
        Error::NotFound { .. } => 404,
        Error::Timeout { .. } => 408,
        Error::Configuration { .. } => 500,
    }
}

/// The machine-readable code an error is answered with.
pub open spec fn code_of(e: Error) -> Seq<char> {
    match e {
        Error::WebSocketConnection { .. } => "WEBSOCKET_CONNECTION_ERROR"@,
        Error::WebSocketUpgrade { .. } => "WEBSOCKET_UPGRADE_ERROR"@,
        Error::WebSocketSend { .. } => "WEBSOCKET_SEND_ERROR"@,
        Error::WebSocketReceive { .. } => "WEBSOCKET_RECEIVE_ERROR"@,
        Error::ActorCommunication { .. } => "ACTOR_COMMUNICATION_ERROR"@,
        Error::ActorMailbox { .. } => "ACTOR_MAILBOX_ERROR"@,
        Error::SessionNotFound { .. } => "SESSION_NOT_FOUND"@,
        Error::Serialization { .. } => "SERIALIZATION_ERROR"@,
        Error::Deserialization { .. } => "DESERIALIZATION_ERROR"@,
        Error::InvalidMessageFormat { .. } => "INVALID_MESSAGE_FORMAT"@,
        Error::InvalidPacketType { .. } => "INVALID_PACKET_TYPE"@,
        Error::TcpBind { .. } => "TCP_BIND_ERROR"@,
        Error::ServerStartup { .. } => "SERVER_STARTUP_ERROR"@,
        Error::InternalServer { .. } => "INTERNAL_SERVER_ERROR"@,
        Error::BadRequest { .. } => "BAD_REQUEST"@,
        Error::NotFound { .. } => "NOT_FOUND"@,
        Error::Timeout { .. } => "TIMEOUT"@,
        Error::Configuration { .. } => "CONFIGURATION_ERROR"@,
    }
}

/// The text before the detail in an error's message.
pub open spec fn prefix_of(e: Error) -> Seq<char> {
    match e {
        Error::WebSocketConnection { .. } => "WebSocket connection failed: "@,
        Error::WebSocketUpgrade { .. } => "WebSocket upgrade failed: "@,
        Error::WebSocketSend { .. } => "Failed to send WebSocket message: "@,
        Error::WebSocketReceive { .. } => "Failed to receive WebSocket message: "@,
        Error::ActorCommunication { .. } => "Actor communication failed: "@,
        Error::ActorMailbox { .. } => "Actor mailbox error: "@,
        Error::SessionNotFound { .. } => "Session not found: "@,
        Error::Serialization { .. } => "Serialization failed: "@,
        Error::Deserialization { .. } => "Deserialization failed: "@,
        Error::InvalidMessageFormat { .. } => "Invalid message format: "@,
        Error::InvalidPacketType { .. } => "Invalid packet type: "@,
        Error::TcpBind { .. } => "Failed to bind TCP listener: "@,
        Error::ServerStartup { .. } => "Server failed to start: "@,
        Error::InternalServer { .. } => "Internal server error: "@,
        Error::BadRequest { .. } => "Bad request: "@,
        Error::NotFound { .. } => "Resource not found: "@,
        Error::Timeout { .. } => "Operation timed out: "@,
        Error::Configuration { .. } => "Configuration error: "@,
    }
}

/// The detail of an error's message: the session id as UUID text, or the
/// text the variant holds.
pub open spec fn detail_of(e: Error) -> Seq<char> {
    match e {
        Error::WebSocketConnection { source } => source@,
        Error::WebSocketUpgrade { source } => source@,
        Error::WebSocketSend { reason } => reason@,
        Error::WebSocketReceive { reason } => reason@,
        Error::ActorCommunication { reason } => reason@,
        Error::ActorMailbox { source } => source@,
        Error::SessionNotFound { session_id } => uuid_text(session_id),
        Error::Serialization { source } => source@,
        Error::Deserialization { source } => source@,
        Error::InvalidMessageFormat { reason } => reason@,
        Error::InvalidPacketType { packet_type } => packet_type@,
        Error::TcpBind { source } => source@,
        Error::ServerStartup { reason } => reason@,
        Error::InternalServer { reason } => reason@,
        Error::BadRequest { reason } => reason@,
        Error::NotFound { resource } => resource@,
        Error::Timeout { operation } => operation@,
        Error::Configuration { reason } => reason@,
    }
}

/// An error's message: its prefix followed by its detail.
pub open spec fn message_of(e: Error) -> Seq<char> {
    prefix_of(e) + detail_of(e)
}

/// Every error is answered with a client-error or server-error status, and
/// an unknown session with 404.
pub proof fn lemma_error_status_is_an_error_status(e: Error)
    ensures
        400 <= status_of(e) <= 599,
        e is SessionNotFound ==> status_of(e) == 404,
{
}

/// The parts of the HTTP answer to an error: the status, and the code and
/// message of the JSON body `{"error": {"code": .., "message": ..}}`.
#[derive(Debug, Clone, PartialEq, Eq)]
pub struct ErrorResponse {
    pub status: u16,
    pub code: &'static str,
    pub message: String,
}

impl Error {
    /// The HTTP status this error is answered with.
    pub fn status_code(&self) -> (s: u16)
        ensures
            s == status_of(*self),
    {
        match self {
            Error::WebSocketConnection { .. } => 503,
            Error::WebSocketUpgrade { .. } => 400,
            Error::WebSocketSend { .. } => 500,
            Error::WebSocketReceive { .. } => 500,
            Error::ActorCommunication { .. } => 500,
            Error::ActorMailbox { .. } => 500,
            Error::SessionNotFound { .. } => 404,
            Error::Serialization { .. } => 500,
            Error::Deserialization { .. } => 400,
            Error::InvalidMessageFormat { .. } => 400,
            Error::InvalidPacketType { .. } => 400,
            Error::TcpBind { .. } => 500,
            Error::ServerStartup { .. } => 500,
            Error::InternalServer { .. } => 500,
            Error::BadRequest { .. } => 400,
            Error::NotFound { .. } => 404,
            Error::Timeout { .. } => 408,
            Error::Configuration { .. } => 500,
        }
    }

    /// The machine-readable code of this error.
    pub fn error_code(&self) -> (c: &'static str)
        ensures
            c@ == code_of(*self),
    {
        match self {
            Error::WebSocketConnection { .. } => "WEBSOCKET_CONNECTION_ERROR",
            Error::WebSocketUpgrade { .. } => "WEBSOCKET_UPGRADE_ERROR",
            Error::WebSocketSend { .. } => "WEBSOCKET_SEND_ERROR",
            Error::WebSocketReceive { .. } => "WEBSOCKET_RECEIVE_ERROR",
            Error::ActorCommunication { .. } => "ACTOR_COMMUNICATION_ERROR",
            Error::ActorMailbox { .. } => "ACTOR_MAILBOX_ERROR",
            Error::SessionNotFound { .. } => "SESSION_NOT_FOUND",
            Error::Serialization { .. } => "SERIALIZATION_ERROR",
            Error::Deserialization { .. } => "DESERIALIZATION_ERROR",
            Error::InvalidMessageFormat { .. } => "INVALID_MESSAGE_FORMAT",
            Error::InvalidPacketType { .. } => "INVALID_PACKET_TYPE",
            Error::TcpBind { .. } => "TCP_BIND_ERROR",
            Error::ServerStartup { .. } => "SERVER_STARTUP_ERROR",
            Error::InternalServer { .. } => "INTERNAL_SERVER_ERROR",
            Error::BadRequest { .. } => "BAD_REQUEST",
            Error::NotFound { .. } => "NOT_FOUND",
            Error::Timeout { .. } => "TIMEOUT",
            Error::Configuration { .. } => "CONFIGURATION_ERROR",
        }
    }

    /// The text before the detail in this error's message.
    fn message_prefix(&self) -> (p: &'static str)
        ensures
            p@ == prefix_of(*self),
    {
        match self {
            Error::WebSocketConnection { .. } => "WebSocket connection failed: ",
            Error::WebSocketUpgrade { .. } => "WebSocket upgrade failed: ",
            Error::WebSocketSend { .. } => "Failed to send WebSocket message: ",
            Error::WebSocketReceive { .. } => "Failed to receive WebSocket message: ",
            Error::ActorCommunication { .. } => "Actor communication failed: ",
            Error::ActorMailbox { .. } => "Actor mailbox error: ",
            Error::SessionNotFound { .. } => "Session not found: ",
            Error::Serialization { .. } => "Serialization failed: ",
            Error::Deserialization { .. } => "Deserialization failed: ",
            Error::InvalidMessageFormat { .. } => "Invalid message format: ",
            Error::InvalidPacketType { .. } => "Invalid packet type: ",
            Error::TcpBind { .. } => "Failed to bind TCP listener: ",
            Error::ServerStartup { .. } => "Server failed to start: ",
            Error::InternalServer { .. } => "Internal server error: ",
            Error::BadRequest { .. } => "Bad request: ",
            Error::NotFound { .. } => "Resource not found: ",
            Error::Timeout { .. } => "Operation timed out: ",
            Error::Configuration { .. } => "Configuration error: ",
        }
    }

    /// The human-readable message of this error.
    pub fn to_string(&self) -> (m: String)
        ensures
            m@ == message_of(*self),
    {
        let mut text = String::from_str(self.message_prefix());
        match self {
            Error::SessionNotFound { session_id } => {
                let id = uuid_string(*session_id);
                text.append(id.as_str());
            },
            Error::WebSocketConnection { source } => {
                text.append(source.as_str());
            },
            Error::WebSocketUpgrade { source } => {
                text.append(source.as_str());
            },
            Error::WebSocketSend { reason } => {
                text.append(reason.as_str());
            },
            Error::WebSocketReceive { reason } => {
                text.append(reason.as_str());
            },
            Error::ActorCommunication { reason } => {
                text.append(reason.as_str());
            },
            Error::ActorMailbox { source } => {
                text.append(source.as_str());
            },
            Error::Serialization { source } => {
                text.append(source.as_str());
            },
            Error::Deserialization { source } => {
                text.append(source.as_str());
            },
            Error::InvalidMessageFormat { reason } => {
                text.append(reason.as_str());
            },
            Error::InvalidPacketType { packet_type } => {
                text.append(packet_type.as_str());
            },
            Error::TcpBind { source } => {
                text.append(source.as_str());
            },
            Error::ServerStartup { reason } => {
                text.append(reason.as_str());
            },
            Error::InternalServer { reason } => {
                text.append(reason.as_str());
            },
            Error::BadRequest { reason } => {
                text.append(reason.as_str());
            },
            Error::NotFound { resource } => {
                text.append(resource.as_str());
            },
            Error::Timeout { operation } => {
                text.append(operation.as_str());
            },
            Error::Configuration { reason } => {
                text.append(reason.as_str());
            },
        }
        text
    }

    /// The HTTP answer to this error.
    pub fn into_response(self) -> (r: ErrorResponse)
        ensures
            r.status == status_of(self),
            r.code@ == code_of(self),
            r.message@ == message_of(self),
    {
        ErrorResponse {
            status: self.status_code(),
            code: self.error_code(),
            message: self.to_string(),
        }
    }
}

} // verus!
