use digging::models::simplify_digging::{Facing, Fuel, Position, SimplifyPacket, States};
use digging::websockets::actor::{DiggingData, SessionAction, SessionEvent, WebSocketSessionActor};
use digging::websockets::clock::{elapsed_exceeds, Timestamp};

fn at(secs: i64) -> Timestamp {
    Timestamp { secs, nanos: 0 }
}

#[test]
fn default_snapshot() {
    let d = DiggingData::default();
    assert_eq!(d.turtle_id, 0);
    assert_eq!(d.pos, Position { x: 0, y: 0, z: 0 });
    assert_eq!(d.facing, Facing::North);
    assert_eq!(d.fuel, Fuel::Limited(0));
    assert_eq!(d.state, States::Init);
    assert_eq!(d.completion_percent_bits, 0);
    assert_eq!(d.program_arguments, "null");
}

#[test]
fn new_session_reads_the_clock() {
    let s = WebSocketSessionActor::new(7);
    assert_eq!(s.uuid, 7);
    assert!(s.last_keepalive.nanos < 1_000_000_000);
    assert!(s.last_keepalive.secs > 1_600_000_000);
    assert_eq!(s.data, DiggingData::default());
}

#[test]
fn packets_update_the_snapshot() {
    let mut s = WebSocketSessionActor::new_at(1, at(100));
    s.handle_packet_at(
        SimplifyPacket::Init { program_arguments: "{\"depth\":5}".to_string(), turtle_id: 42 },
        at(101),
    );
    assert_eq!(s.data.turtle_id, 42);
    assert_eq!(s.data.program_arguments, "{\"depth\":5}");
    s.handle_packet_at(SimplifyPacket::State { state: States::Digging }, at(102));
    assert_eq!(s.data.state, States::Digging);
    s.handle_packet_at(
        SimplifyPacket::Status {
            pos: Position { x: 10, y: 64, z: -3 },
            facing: Facing::East,
            fuel: Fuel::Limited(500),
        },
        at(103),
    );
    assert_eq!(s.data.pos, Position { x: 10, y: 64, z: -3 });
    assert_eq!(s.data.facing, Facing::East);
    assert_eq!(s.data.fuel, Fuel::Limited(500));
    s.handle_packet_at(
        SimplifyPacket::Completion { completion_percent_bits: 42.5f32.to_bits() },
        at(104),
    );
    assert_eq!(f32::from_bits(s.data.completion_percent_bits), 42.5);
    assert_eq!(s.last_keepalive, at(100));
    s.handle_packet_at(SimplifyPacket::Keepalive, at(105));
    assert_eq!(s.last_keepalive, at(105));
    assert_eq!(s.uuid, 1);
}

#[test]
fn reports_without_data_change_nothing() {
    let mut s = WebSocketSessionActor::new_at(1, at(100));
    let before = s.data.clone();
    s.handle_packet_at(SimplifyPacket::Complete, at(200));
    s.handle_packet_at(
        SimplifyPacket::Panic {
            reason: "stuck".to_string(),
            pos: Position { x: 1, y: 1, z: 1 },
            facing: Facing::South,
            fuel: Fuel::Unlimited,
        },
        at(201),
    );
    s.handle_packet_at(
        SimplifyPacket::Error {
            message: "oops".to_string(),
            pos: Position { x: 1, y: 1, z: 1 },
            facing: Facing::South,
            fuel: Fuel::Unlimited,
        },
        at(202),
    );
    assert_eq!(s.data, before);
    assert_eq!(s.last_keepalive, at(100));
}

#[test]
fn repeated_packet_is_idempotent() {
    let mut s = WebSocketSessionActor::new_at(1, at(0));
    let p = SimplifyPacket::State { state: States::ReturnHome };
    s.handle_packet_at(p.clone(), at(1));
    let once = s.data.clone();
    s.handle_packet_at(p, at(2));
    assert_eq!(s.data, once);
}

#[test]
fn stream_events_stop_or_continue() {
    let mut s = WebSocketSessionActor::new_at(9, at(0));
    assert_eq!(s.handle_stream_event_at(SessionEvent::Started, at(1)), SessionAction::Continue);
    assert_eq!(s.handle_stream_event_at(SessionEvent::Ping, at(1)), SessionAction::Continue);
    assert_eq!(s.handle_stream_event_at(SessionEvent::Pong, at(1)), SessionAction::Continue);
    assert_eq!(s.handle_stream_event_at(SessionEvent::Binary, at(1)), SessionAction::Continue);
    assert_eq!(
        s.handle_stream_event_at(SessionEvent::UnreadableText, at(1)),
        SessionAction::Continue
    );
    assert_eq!(
        s.handle_stream_event_at(SessionEvent::Packet(SimplifyPacket::Keepalive), at(5)),
        SessionAction::Continue
    );
    assert_eq!(s.last_keepalive, at(5));
    assert_eq!(s.handle_stream_event_at(SessionEvent::Close, at(6)), SessionAction::Stop);
    assert_eq!(s.handle_stream_event_at(SessionEvent::StreamError, at(6)), SessionAction::Stop);
    assert_eq!(s.handle_stream_event_at(SessionEvent::Finished, at(6)), SessionAction::Stop);
    assert_eq!(s.last_keepalive, at(5));
}

#[test]
fn keepalive_as_it_arrives_reads_the_clock() {
    let mut s = WebSocketSessionActor::new_at(3, at(0));
    s.handle_packet(SimplifyPacket::Keepalive);
    assert!(s.last_keepalive.secs > 1_600_000_000);
    let mut t = WebSocketSessionActor::new_at(3, at(0));
    t.handle_packet(SimplifyPacket::State { state: States::Stuck });
    assert_eq!(t.last_keepalive, at(0));
    assert_eq!(t.handle_stream_event(SessionEvent::Close), SessionAction::Stop);
    assert_eq!(*t.digging_data(), t.data);
    assert_eq!(t.last_keepalive(), at(0));
}

#[test]
fn elapsed_time_comparison() {
    let last = Timestamp { secs: 1000, nanos: 500 };
    assert!(!elapsed_exceeds(Timestamp { secs: 1120, nanos: 500 }, last, 120));
    assert!(elapsed_exceeds(Timestamp { secs: 1120, nanos: 501 }, last, 120));
    assert!(!elapsed_exceeds(last, last, 0));
    assert!(elapsed_exceeds(Timestamp { secs: 1000, nanos: 501 }, last, 0));
    assert!(!elapsed_exceeds(Timestamp { secs: 900, nanos: 0 }, last, 0));
}

#[test]
fn packets_of_different_kinds_commute() {
    let p = SimplifyPacket::State { state: States::Done };
    let q = SimplifyPacket::Status {
        pos: Position { x: 4, y: 5, z: 6 },
        facing: Facing::West,
        fuel: Fuel::Limited(7),
    };
    let mut a = WebSocketSessionActor::new_at(1, at(0));
    a.handle_packet_at(p.clone(), at(1));
    a.handle_packet_at(q.clone(), at(2));
    let mut b = WebSocketSessionActor::new_at(1, at(0));
    b.handle_packet_at(q, at(1));
    b.handle_packet_at(p, at(2));
    assert_eq!(a.data, b.data);
}
