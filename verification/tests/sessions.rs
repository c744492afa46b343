//! Behavioral tests for the multi-session relay and the session manager.

use shoes::address::{Host, NetLocation};
use shoes::error::ErrorKind;
use shoes::mux::{DeliverOutcome, MuxRelay, TaggedMessage};
use shoes::session::SessionManager;

fn loc(n: u32) -> NetLocation {
    NetLocation { host: Host::V4(n), port: 443 }
}

fn msg(id: u64, payload: &[u8]) -> TaggedMessage {
    TaggedMessage { session_id: id, payload: payload.to_vec() }
}

#[test]
fn interleaved_messages_reach_only_their_session() {
    let mut m = SessionManager::new(8, 10_000, false);
    let s1 = m.open(loc(1), 0).unwrap();
    let s2 = m.open(loc(2), 0).unwrap();
    let s3 = m.open(loc(3), 0).unwrap();
    assert_ne!(s1, s2);
    assert_ne!(s2, s3);
    // Interleaved tagged traffic for all three sessions.
    assert_eq!(m.route_inbound(msg(s2, b"b1"), 1), DeliverOutcome::Delivered);
    assert_eq!(m.route_inbound(msg(s1, b"a1"), 1), DeliverOutcome::Delivered);
    assert_eq!(m.route_inbound(msg(s3, b"c1"), 1), DeliverOutcome::Delivered);
    assert_eq!(m.route_inbound(msg(s1, b"a2"), 1), DeliverOutcome::Delivered);
    assert_eq!(m.route_inbound(msg(s2, b"b2"), 1), DeliverOutcome::Delivered);
    // Each endpoint sees exactly its own payloads, in arrival order.
    assert_eq!(m.receive(s1, 2).unwrap(), Some(b"a1".to_vec()));
    assert_eq!(m.receive(s1, 2).unwrap(), Some(b"a2".to_vec()));
    assert_eq!(m.receive(s1, 2).unwrap(), None);
    assert_eq!(m.receive(s2, 2).unwrap(), Some(b"b1".to_vec()));
    assert_eq!(m.receive(s2, 2).unwrap(), Some(b"b2".to_vec()));
    assert_eq!(m.receive(s3, 2).unwrap(), Some(b"c1".to_vec()));
}

#[test]
fn closing_one_session_leaves_the_others_alone() {
    let mut m = SessionManager::new(8, 10_000, false);
    let s1 = m.open(loc(1), 0).unwrap();
    let s2 = m.open(loc(2), 0).unwrap();
    assert_eq!(m.route_inbound(msg(s1, b"keep"), 1), DeliverOutcome::Delivered);
    assert!(m.close(s2));
    // Closing is idempotent.
    assert!(!m.close(s2));
    // The closed session is stale; the other one is untouched.
    assert_eq!(m.send(s2, b"x".to_vec(), 2), Err(ErrorKind::StaleSession));
    assert_eq!(m.receive(s1, 2).unwrap(), Some(b"keep".to_vec()));
    let t = m.send(s1, b"out".to_vec(), 2).unwrap();
    assert_eq!(t.session_id, s1);
    assert_eq!(t.payload, b"out".to_vec());
}

#[test]
fn resource_bound_rejects_without_evicting() {
    let mut m = SessionManager::new(2, 10_000, false);
    let s1 = m.open(loc(1), 0).unwrap();
    let s2 = m.open(loc(2), 0).unwrap();
    // The table is full: a new open is refused...
    assert_eq!(m.open(loc(3), 0), Err(ErrorKind::ResourceExhausted));
    // ...and no live session was evicted to make room.
    let t1 = m.send(s1, b"one".to_vec(), 1).unwrap();
    assert_eq!(t1.session_id, s1);
    let t2 = m.send(s2, b"two".to_vec(), 1).unwrap();
    assert_eq!(t2.session_id, s2);
    // Room reappears once a session closes.
    m.close(s1);
    assert!(m.open(loc(3), 2).is_ok());
}

#[test]
fn idle_session_auto_closes_and_goes_stale() {
    let mut m = SessionManager::new(4, 1_000, false);
    let s = m.open(loc(1), 0).unwrap();
    // Activity within the timeout keeps the session fresh.
    assert!(m.send(s, b"ping".to_vec(), 900).is_ok());
    assert!(m.receive(s, 1_800).is_ok());
    // Silent for longer than the timeout: the next use fails stale.
    assert_eq!(m.send(s, b"late".to_vec(), 2_900), Err(ErrorKind::StaleSession));
    // The session auto-closed; it stays stale from now on.
    assert_eq!(m.receive(s, 2_900), Err(ErrorKind::StaleSession));
    assert_eq!(m.send(s, b"again".to_vec(), 9_999), Err(ErrorKind::StaleSession));
}

#[test]
fn sweep_closes_exactly_the_expired_sessions() {
    let mut m = SessionManager::new(8, 1_000, false);
    let s1 = m.open(loc(1), 0).unwrap();
    let s2 = m.open(loc(2), 0).unwrap();
    // Keep s2 fresh at t=900; s1 stays silent past its deadline.
    assert!(m.send(s2, b"fresh".to_vec(), 900).is_ok());
    let removed = m.sweep_idle(1_500);
    assert_eq!(removed, 1);
    assert_eq!(m.send(s1, b"x".to_vec(), 1_500), Err(ErrorKind::StaleSession));
    assert!(m.send(s2, b"y".to_vec(), 1_500).is_ok());
}

#[test]
fn unknown_id_drops_unless_inbound_open_is_permitted() {
    let mut strict = SessionManager::new(4, 10_000, false);
    assert_eq!(strict.route_inbound(msg(42, b"stray"), 0), DeliverOutcome::Dropped);
    assert_eq!(strict.receive(42, 1), Err(ErrorKind::StaleSession));

    let mut open = SessionManager::new(4, 10_000, true);
    assert_eq!(open.route_inbound(msg(42, b"hello"), 0), DeliverOutcome::Opened);
    assert_eq!(open.receive(42, 1).unwrap(), Some(b"hello".to_vec()));
    // An id handed out later never collides with the inbound-created one.
    let fresh = open.open(loc(9), 1).unwrap();
    assert_ne!(fresh, 42);
}

#[test]
fn inbound_open_respects_the_session_bound() {
    let mut m = SessionManager::new(1, 10_000, true);
    assert_eq!(m.route_inbound(msg(1, b"first"), 0), DeliverOutcome::Opened);
    // The table is full: a second unknown id is dropped, not evicted for.
    assert_eq!(m.route_inbound(msg(2, b"second"), 0), DeliverOutcome::Dropped);
    assert_eq!(m.receive(1, 1).unwrap(), Some(b"first".to_vec()));
}

#[test]
fn zero_capacity_table_rejects_every_open() {
    let mut m = SessionManager::new(0, 10_000, true);
    assert_eq!(m.open(loc(1), 0), Err(ErrorKind::ResourceExhausted));
    assert_eq!(m.route_inbound(msg(1, b"x"), 0), DeliverOutcome::Dropped);
}

#[test]
fn teardown_cascades_to_every_session() {
    let mut m = SessionManager::new(8, 10_000, false);
    let s1 = m.open(loc(1), 0).unwrap();
    let s2 = m.open(loc(2), 0).unwrap();
    m.teardown();
    assert_eq!(m.send(s1, b"x".to_vec(), 1), Err(ErrorKind::StaleSession));
    assert_eq!(m.send(s2, b"y".to_vec(), 1), Err(ErrorKind::StaleSession));
}

#[test]
fn outbound_tagging_is_exact() {
    let mut mux = MuxRelay::new(4, false);
    mux.insert_new(7, None, 100).unwrap();
    let t = mux.tag_outbound(7, vec![1, 2, 3]).unwrap();
    assert_eq!(t.session_id, 7);
    assert_eq!(t.payload, vec![1, 2, 3]);
    assert_eq!(mux.tag_outbound(8, vec![9]), Err(ErrorKind::StaleSession));
}

#[test]
fn mux_insert_full_table_is_resource_exhausted() {
    let mut mux = MuxRelay::new(1, false);
    mux.insert_new(1, None, 100).unwrap();
    assert_eq!(mux.insert_new(2, None, 100), Err(ErrorKind::ResourceExhausted));
    assert_eq!(mux.session_count(), 1);
    assert!(mux.contains(1));
    assert!(!mux.contains(2));
}
