//! Tests for the handoff channel: ordering, disconnection, and draining.

use capture_bridge::channel::{HandoffChannel, ReceiveOutcome};

#[test]
fn buffers_arrive_in_send_order() {
    let mut ch = HandoffChannel::new();
    ch.send(vec![1, 2]).unwrap();
    ch.send(vec![3, 4]).unwrap();
    ch.send(vec![5, 6]).unwrap();
    match ch.receive() {
        ReceiveOutcome::Received(b) => assert_eq!(b, vec![1, 2]),
        _ => panic!("expected a buffer"),
    }
    match ch.receive() {
        ReceiveOutcome::Received(b) => assert_eq!(b, vec![3, 4]),
        _ => panic!("expected a buffer"),
    }
    match ch.receive() {
        ReceiveOutcome::Received(b) => assert_eq!(b, vec![5, 6]),
        _ => panic!("expected a buffer"),
    }
}

#[test]
fn no_buffer_lost_before_consumer_starts_draining() {
    let mut ch = HandoffChannel::new();
    let sent: Vec<Vec<i32>> = (0..16).map(|k| vec![k, k + 1, k + 2]).collect();
    for buf in &sent {
        ch.send(buf.clone()).unwrap();
    }
    assert_eq!(ch.pending_count(), 16);
    let mut observed: Vec<Vec<i32>> = Vec::new();
    while let ReceiveOutcome::Received(b) = ch.receive() {
        observed.push(b);
    }
    assert_eq!(observed, sent);
}

#[test]
fn receive_would_block_when_nothing_pending() {
    let mut ch = HandoffChannel::new();
    assert!(matches!(ch.receive(), ReceiveOutcome::WouldBlock));
}

#[test]
fn send_fails_after_consumer_drops() {
    let mut ch = HandoffChannel::new();
    ch.send(vec![1]).unwrap();
    ch.drop_consumer();
    assert!(ch.send(vec![2]).is_err());
    // The refused buffer was not queued.
    assert_eq!(ch.pending_count(), 1);
}

#[test]
fn sends_before_stop_is_observed_are_kept() {
    let mut ch = HandoffChannel::new();
    ch.send(vec![1]).unwrap();
    ch.request_stop();
    // The producer has not yet observed the stop; its delivery still lands.
    ch.send(vec![2]).unwrap();
    assert_eq!(ch.pending_count(), 2);
}

#[test]
fn drain_after_stop_yields_everything_then_terminates() {
    let mut ch = HandoffChannel::new();
    ch.send(vec![1, 2]).unwrap();
    ch.send(vec![3, 4]).unwrap();
    ch.request_stop();
    let bufs = ch.drain();
    assert_eq!(bufs, vec![vec![1, 2], vec![3, 4]]);
    assert_eq!(ch.pending_count(), 0);
    assert!(matches!(ch.receive(), ReceiveOutcome::Terminated));
    // Termination is permanent.
    assert!(matches!(ch.receive(), ReceiveOutcome::Terminated));
}

#[test]
fn receive_terminates_when_stopped_and_empty() {
    let mut ch = HandoffChannel::new();
    ch.request_stop();
    assert!(matches!(ch.receive(), ReceiveOutcome::Terminated));
}
