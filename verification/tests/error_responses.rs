use digging::errors::Error;

#[test]
fn session_not_found_answer() {
    let e = Error::SessionNotFound { session_id: 0xa1a2a3a4b1b2c1c2d1d2d3d4d5d6d7d8 };
    assert_eq!(e.status_code(), 404);
    assert_eq!(e.error_code(), "SESSION_NOT_FOUND");
    assert_eq!(e.to_string(), "Session not found: a1a2a3a4-b1b2-c1c2-d1d2-d3d4d5d6d7d8");
    let zero = Error::SessionNotFound { session_id: 0 };
    assert_eq!(zero.to_string(), "Session not found: 00000000-0000-0000-0000-000000000000");
    let r = e.into_response();
    assert_eq!(r.status, 404);
    assert_eq!(r.code, "SESSION_NOT_FOUND");
    assert_eq!(r.message, "Session not found: a1a2a3a4-b1b2-c1c2-d1d2-d3d4d5d6d7d8");
}

fn s(x: &str) -> String {
    x.to_string()
}

#[test]
fn every_variant_status_code_and_message() {
    let cases: Vec<(Error, u16, &str, &str)> = vec![
        (Error::WebSocketConnection { source: s("reset") }, 503, "WEBSOCKET_CONNECTION_ERROR", "WebSocket connection failed: reset"),
        (Error::WebSocketUpgrade { source: s("no upgrade") }, 400, "WEBSOCKET_UPGRADE_ERROR", "WebSocket upgrade failed: no upgrade"),
        (Error::WebSocketSend { reason: s("closed") }, 500, "WEBSOCKET_SEND_ERROR", "Failed to send WebSocket message: closed"),
        (Error::WebSocketReceive { reason: s("eof") }, 500, "WEBSOCKET_RECEIVE_ERROR", "Failed to receive WebSocket message: eof"),
        (Error::ActorCommunication { reason: s("gone") }, 500, "ACTOR_COMMUNICATION_ERROR", "Actor communication failed: gone"),
        (Error::ActorMailbox { source: s("full") }, 500, "ACTOR_MAILBOX_ERROR", "Actor mailbox error: full"),
        (Error::Serialization { source: s("bad") }, 500, "SERIALIZATION_ERROR", "Serialization failed: bad"),
        (Error::Deserialization { source: s("eof") }, 400, "DESERIALIZATION_ERROR", "Deserialization failed: eof"),
        (Error::InvalidMessageFormat { reason: s("x") }, 400, "INVALID_MESSAGE_FORMAT", "Invalid message format: x"),
        (Error::InvalidPacketType { packet_type: s("dance") }, 400, "INVALID_PACKET_TYPE", "Invalid packet type: dance"),
        (Error::TcpBind { source: s("in use") }, 500, "TCP_BIND_ERROR", "Failed to bind TCP listener: in use"),
        (Error::ServerStartup { reason: s("why") }, 500, "SERVER_STARTUP_ERROR", "Server failed to start: why"),
        (Error::InternalServer { reason: s("bug") }, 500, "INTERNAL_SERVER_ERROR", "Internal server error: bug"),
        (Error::BadRequest { reason: s("nope") }, 400, "BAD_REQUEST", "Bad request: nope"),
        (Error::NotFound { resource: s("/x") }, 404, "NOT_FOUND", "Resource not found: /x"),
        (Error::Timeout { operation: s("ask") }, 408, "TIMEOUT", "Operation timed out: ask"),
        (Error::Configuration { reason: s("port") }, 500, "CONFIGURATION_ERROR", "Configuration error: port"),
    ];
    for (e, status, code, message) in cases {
        assert_eq!(e.status_code(), status);
        assert_eq!(e.error_code(), code);
        assert_eq!(e.to_string(), message);
        let r = e.into_response();
        assert_eq!((r.status, r.code, r.message.as_str()), (status, code, message));
    }
}
