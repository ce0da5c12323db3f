//! Tests for the availability poller: event classification and the wait loop.

use std::cell::Cell;

use capture_bridge::event::{CaptureError, CaptureEvent};
use capture_bridge::poller::{classify_event, wait_for_frames, PollOutcome, PollStep};

#[test]
fn positive_frame_counts_are_delivered() {
    assert_eq!(classify_event(CaptureEvent::FramesReady(256)), PollStep::Deliver(256));
}

#[test]
fn overflow_underflow_and_zero_keep_waiting() {
    assert_eq!(classify_event(CaptureEvent::InputOverflowed), PollStep::KeepWaiting);
    assert_eq!(classify_event(CaptureEvent::OutputUnderflowed), PollStep::KeepWaiting);
    assert_eq!(classify_event(CaptureEvent::FramesReady(0)), PollStep::KeepWaiting);
}

#[test]
fn overflow_does_not_raise_and_next_poll_returns_frames() {
    let calls = Cell::new(0u32);
    let query = || {
        let k = calls.get();
        calls.set(k + 1);
        if k == 0 {
            Ok(CaptureEvent::InputOverflowed)
        } else {
            Ok(CaptureEvent::FramesReady(256))
        }
    };
    let outcome = wait_for_frames(query, || false, 16).unwrap();
    assert_eq!(outcome, PollOutcome::Ready(256));
    assert_eq!(calls.get(), 2);
}

#[test]
fn zero_frame_reports_are_retried() {
    let calls = Cell::new(0u32);
    let query = || {
        let k = calls.get();
        calls.set(k + 1);
        if k < 3 {
            Ok(CaptureEvent::FramesReady(0))
        } else {
            Ok(CaptureEvent::FramesReady(7))
        }
    };
    assert_eq!(wait_for_frames(query, || false, 16).unwrap(), PollOutcome::Ready(7));
}

#[test]
fn cancellation_is_observed_before_polling() {
    let outcome = wait_for_frames(|| Ok(CaptureEvent::FramesReady(9)), || true, 16).unwrap();
    assert_eq!(outcome, PollOutcome::Cancelled);
}

#[test]
fn hard_errors_abort_the_wait() {
    let err = wait_for_frames(|| Err(CaptureError::DeviceError), || false, 16).unwrap_err();
    assert_eq!(err, CaptureError::DeviceError);
}

#[test]
fn polling_budget_bounds_the_wait() {
    let calls = Cell::new(0u32);
    let query = || {
        calls.set(calls.get() + 1);
        Ok(CaptureEvent::InputOverflowed)
    };
    let outcome = wait_for_frames(query, || false, 3).unwrap();
    assert_eq!(outcome, PollOutcome::TimedOut);
    assert_eq!(calls.get(), 3);
}
