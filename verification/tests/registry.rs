use std::collections::HashMap;

use digging::websockets::actor::DiggingData;
use digging::websockets::clock::Timestamp;
use digging::websockets::{SessionConfig, WebSocketSessionManager};

fn at(secs: i64) -> Timestamp {
    Timestamp { secs, nanos: 0 }
}

#[test]
fn default_configuration() {
    let c = SessionConfig::default();
    assert_eq!(c.keepalive_timeout_secs, 120);
    assert_eq!(c.check_interval_secs, 30);
    assert_eq!(c.timeout_threshold_secs(), 120);
    let huge = SessionConfig { keepalive_timeout_secs: u64::MAX, check_interval_secs: 1 };
    assert_eq!(huge.timeout_threshold_secs(), 120);
    let small = SessionConfig { keepalive_timeout_secs: 5, check_interval_secs: 1 };
    assert_eq!(small.timeout_threshold_secs(), 5);
    let m: WebSocketSessionManager<&str> = WebSocketSessionManager::new();
    assert_eq!(m.config, c);
    assert_eq!(m.len(), 0);
    let d: WebSocketSessionManager<&str> = WebSocketSessionManager::default();
    assert_eq!(d.config, c);
}

#[test]
fn register_lookup_disconnect() {
    let mut m = WebSocketSessionManager::with_config(SessionConfig {
        keepalive_timeout_secs: 60,
        check_interval_secs: 10,
    });
    m.register(1, "one");
    m.register(2, "two");
    assert_eq!(m.session(1), Some(&"one"));
    assert_eq!(m.session(2), Some(&"two"));
    assert_eq!(m.session(3), None);
    m.register(1, "uno");
    assert_eq!(m.session(1), Some(&"uno"));
    assert_eq!(m.len(), 2);
    assert_eq!(m.disconnect(1), Some("uno"));
    assert_eq!(m.session(1), None);
    assert_eq!(m.disconnect(1), None);
    assert_eq!(m.len(), 1);
}

#[test]
fn session_ids_lists_each_session_once() {
    let mut m = WebSocketSessionManager::new();
    for id in [5u128, 9, 1, 5] {
        m.register(id, id * 10);
    }
    let mut ids = m.session_ids();
    ids.sort();
    assert_eq!(ids, vec![1, 5, 9]);
}

#[test]
fn sweep_removes_stale_and_unreachable_sessions() {
    let mut m = WebSocketSessionManager::new();
    m.register(1, "fresh");
    m.register(2, "stale");
    m.register(3, "unreachable");
    m.register(4, "unreported");
    let now = at(10_000);
    let reports = vec![
        (1u128, Some(at(10_000 - 120))),
        (2u128, Some(Timestamp { secs: 10_000 - 120, nanos: 0 }.prev_nano())),
        (3u128, None),
        (7u128, None),
    ];
    let mut removed = m.check_timed_out_at(now, &reports);
    removed.sort();
    assert_eq!(removed, vec![(2, "stale"), (3, "unreachable")]);
    assert_eq!(m.session(1), Some(&"fresh"));
    assert_eq!(m.session(2), None);
    assert_eq!(m.session(3), None);
    assert_eq!(m.session(4), Some(&"unreported"));
    let again = m.check_timed_out_at(now, &reports);
    assert!(again.is_empty());
    assert_eq!(m.len(), 2);
}

trait PrevNano {
    fn prev_nano(self) -> Timestamp;
}

impl PrevNano for Timestamp {
    fn prev_nano(self) -> Timestamp {
        if self.nanos == 0 {
            Timestamp { secs: self.secs - 1, nanos: 999_999_999 }
        } else {
            Timestamp { secs: self.secs, nanos: self.nanos - 1 }
        }
    }
}

#[test]
fn sweep_at_the_current_time_keeps_fresh_sessions() {
    let mut m = WebSocketSessionManager::new();
    m.register(11, ());
    m.register(12, ());
    let reports = vec![(11u128, None), (12u128, Some(at(i64::MAX / 2)))];
    let removed = m.check_timed_out(&reports);
    assert_eq!(removed.len(), 1);
    assert_eq!(removed[0].0, 11);
    assert!(m.session(12).is_some());
}

#[test]
fn client_data_from_replies_skips_unreachable_sessions() {
    let mut d1 = DiggingData::default();
    d1.turtle_id = 1;
    let mut d3 = DiggingData::default();
    d3.turtle_id = 3;
    let replies = vec![(1u128, Some(d1.clone())), (2u128, None), (3u128, Some(d3.clone()))];
    let map = WebSocketSessionManager::<()>::client_data_from_replies(replies);
    let mut expected = HashMap::new();
    expected.insert(1u128, d1);
    expected.insert(3u128, d3);
    assert_eq!(map, expected);
    let empty = WebSocketSessionManager::<()>::client_data_from_replies(vec![]);
    assert!(empty.is_empty());
}

#[test]
fn keepalive_just_received_is_never_stale() {
    let mut session = digging::websockets::actor::WebSocketSessionActor::new_at(21, at(0));
    let now = Timestamp { secs: 50_000, nanos: 123 };
    session.handle_packet_at(digging::models::simplify_digging::SimplifyPacket::Keepalive, now);
    for timeout in [0u64, 1, 120] {
        let mut m = WebSocketSessionManager::with_config(SessionConfig {
            keepalive_timeout_secs: timeout,
            check_interval_secs: 30,
        });
        m.register(21, "turtle");
        let removed = m.check_timed_out_at(now, &vec![(21u128, Some(session.last_keepalive()))]);
        assert!(removed.is_empty());
        assert_eq!(m.session(21), Some(&"turtle"));
    }
}
