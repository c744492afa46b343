//! Behavioral tests for the byte relay and the message relay.

use shoes::error::ErrorKind;
use shoes::message_relay::{MessageRelay, MsgPhase, DEFAULT_IN_FLIGHT_DEPTH};
use shoes::relay::{ByteRelay, DirPhase, EofAction};

#[test]
fn byte_relay_copies_exactly_and_counts() {
    let mut r = ByteRelay::new(true);
    let out = r.on_read_a(vec![1, 2, 3]);
    assert_eq!(out, vec![1, 2, 3]);
    r.on_write_done_a();
    let out = r.on_read_a(vec![4, 5]);
    assert_eq!(out, vec![4, 5]);
    r.on_write_done_a();
    let out = r.on_read_b(vec![9]);
    assert_eq!(out, vec![9]);
    r.on_write_done_b();
    assert_eq!(r.on_eof_a(), EofAction::ShutdownWrite);
    assert_eq!(r.on_eof_b(), EofAction::ShutdownWrite);
    assert!(r.is_finished());
    let res = r.result();
    assert_eq!(res.a_to_b_bytes, 5);
    assert_eq!(res.b_to_a_bytes, 1);
    assert!(res.error.is_none());
}

#[test]
fn byte_relay_empty_read_buffers_count_nothing() {
    let mut r = ByteRelay::new(true);
    let out = r.on_read_a(Vec::new());
    assert!(out.is_empty());
    r.on_write_done_a();
    r.on_eof_a();
    r.on_eof_b();
    let res = r.result();
    assert_eq!(res.a_to_b_bytes, 0);
    assert_eq!(res.b_to_a_bytes, 0);
}

#[test]
fn byte_relay_half_close_keeps_opposite_direction_running() {
    let mut r = ByteRelay::new(true);
    let out = r.on_read_a(vec![1]);
    assert_eq!(out, vec![1]);
    r.on_write_done_a();
    // A signals end-of-stream: only B's write side shuts down.
    assert_eq!(r.on_eof_a(), EofAction::ShutdownWrite);
    assert!(!r.is_finished());
    // The peer keeps producing after the local EOF; B-to-A still copies.
    let out = r.on_read_b(vec![7, 8]);
    assert_eq!(out, vec![7, 8]);
    r.on_write_done_b();
    let out = r.on_read_b(vec![9]);
    assert_eq!(out, vec![9]);
    r.on_write_done_b();
    assert_eq!(r.on_eof_b(), EofAction::ShutdownWrite);
    assert!(r.is_finished());
    let res = r.result();
    assert_eq!(res.a_to_b_bytes, 1);
    assert_eq!(res.b_to_a_bytes, 3);
    assert!(res.error.is_none());
}

#[test]
fn byte_relay_without_half_close_closes_both_sides() {
    let mut r = ByteRelay::new(false);
    assert_eq!(r.on_eof_a(), EofAction::CloseBoth);
    assert!(r.is_finished());
    assert_eq!(r.b_to_a.phase, DirPhase::Done);
}

#[test]
fn byte_relay_error_aborts_both_directions_and_is_first() {
    let mut r = ByteRelay::new(true);
    let out = r.on_read_a(vec![1, 2]);
    assert_eq!(out, vec![1, 2]);
    r.on_write_done_a();
    r.on_error(ErrorKind::Transport);
    r.on_error(ErrorKind::Timeout);
    assert!(r.is_finished());
    assert_eq!(r.a_to_b.phase, DirPhase::Failed);
    assert_eq!(r.b_to_a.phase, DirPhase::Failed);
    let res = r.result();
    // The first error is the one reported; counters survive the abort.
    assert_eq!(res.error, Some(ErrorKind::Transport));
    assert_eq!(res.a_to_b_bytes, 2);
    assert_eq!(res.b_to_a_bytes, 0);
}

#[test]
fn message_relay_preserves_order_and_boundaries() {
    let mut r = MessageRelay::new(1024, DEFAULT_IN_FLIGHT_DEPTH);
    let sent: Vec<Vec<u8>> = vec![vec![1], vec![2, 2], vec![3, 3, 3], vec![], vec![5; 10]];
    let mut arrived: Vec<Vec<u8>> = Vec::new();
    for msg in sent.clone() {
        assert!(r.may_accept_a());
        let out = r.on_message_a(msg).unwrap();
        arrived.push(out);
        assert!(!r.may_accept_a());
        r.on_forwarded_a();
    }
    assert_eq!(arrived, sent);
    r.on_eof_a();
    r.on_eof_b();
    let res = r.result();
    assert_eq!(res.a_to_b_messages, 5);
    assert_eq!(res.b_to_a_messages, 0);
    assert!(res.error.is_none());
}

#[test]
fn message_relay_backpressure_follows_depth() {
    let mut r = MessageRelay::new(100, 2);
    assert!(r.may_accept_b());
    let _ = r.on_message_b(vec![1]).unwrap();
    assert!(r.may_accept_b());
    let _ = r.on_message_b(vec![2]).unwrap();
    // Two messages in flight at depth 2: the next read must wait.
    assert!(!r.may_accept_b());
    r.on_forwarded_b();
    assert!(r.may_accept_b());
}

#[test]
fn message_relay_oversized_message_aborts_with_protocol_error() {
    let mut r = MessageRelay::new(4, 1);
    let out = r.on_message_a(vec![1, 2, 3, 4]).unwrap();
    assert_eq!(out, vec![1, 2, 3, 4]);
    r.on_forwarded_a();
    let res = r.on_message_a(vec![0; 5]);
    assert_eq!(res, Err(ErrorKind::ProtocolViolation));
    assert_eq!(r.a_to_b.phase, MsgPhase::Failed);
    assert_eq!(r.b_to_a.phase, MsgPhase::Failed);
    let summary = r.result();
    assert_eq!(summary.error, Some(ErrorKind::ProtocolViolation));
    // The oversized message was never forwarded.
    assert_eq!(summary.a_to_b_messages, 1);
}

#[test]
fn message_relay_error_aborts_both_directions() {
    let mut r = MessageRelay::new(16, 1);
    let _ = r.on_message_a(vec![1]).unwrap();
    r.on_forwarded_a();
    r.on_error(ErrorKind::Transport);
    assert!(r.is_finished());
    let res = r.result();
    assert_eq!(res.error, Some(ErrorKind::Transport));
    assert_eq!(res.a_to_b_messages, 1);
}
