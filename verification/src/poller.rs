//! The availability poller, used in blocking mode: repeatedly query the
//! audio subsystem for readiness until whole frames are available, a
//! cancellation is observed, or the subsystem reports a hard error.
//!
//! Overflow and underflow reports are informational and never end the wait;
//! a hard error from the query is fatal and is propagated, not retried.
//! Polling with no way out is a correctness bug, so every iteration first
//! checks an explicit cancellation signal.

use vstd::prelude::*;

verus! {

use crate::event::{CaptureError, CaptureEvent};

/// What one availability report means for the waiting loop.
#[derive(Clone, Copy, Debug, PartialEq, Eq, Structural)]
pub enum PollStep {
    /// This many whole frames (more than zero) are ready to be read now.
    Deliver(u32),
    /// Nothing to read yet — an overflow or underflow notice, or a report
    /// of zero frames. Capture continues; keep polling.
    KeepWaiting,
}

/// How a completed wait ended.
#[derive(Clone, Copy, Debug, PartialEq, Eq, Structural)]
pub enum PollOutcome {
    /// The subsystem reported this many whole frames ready; always positive.
    Ready(u32),
    /// The cancellation signal was observed before any frames were ready.
    Cancelled,
    /// The polling budget ran out with no frames ready; the caller decides
    /// whether to wait again.
    TimedOut,
}

/// Classify one availability report. Overflow and underflow are not errors
/// and do not end the wait; only a positive frame count does.
pub fn classify_event(event: CaptureEvent) -> (step: PollStep)
    ensures
        step == (match event {
            CaptureEvent::FramesReady(n) => if n > 0 {
                PollStep::Deliver(n)
            } else {
                PollStep::KeepWaiting
            },
            CaptureEvent::InputOverflowed => PollStep::KeepWaiting,
            CaptureEvent::OutputUnderflowed => PollStep::KeepWaiting,
        }),
{
    match event {
        CaptureEvent::FramesReady(n) => {
            if n > 0 {
                PollStep::Deliver(n)
            } else {
                PollStep::KeepWaiting
            }
        },
        CaptureEvent::InputOverflowed => PollStep::KeepWaiting,
        CaptureEvent::OutputUnderflowed => PollStep::KeepWaiting,
    }
}

/// Wait, by polling, until the subsystem reports at least one whole frame
/// ready, the cancellation signal fires, the query fails hard, or the
/// polling budget of `max_polls` queries runs out.
///
/// A `Ready(n)` outcome carries a positive count that the query itself
/// reported; an error is exactly an error the query returned. Overflow and
/// underflow reports are skipped and never surface as errors. The loop asks
/// `cancelled` before every query, so a cancellation request is observed
/// between any two queries; the budget bounds the wait so that a caller is
/// never blocked indefinitely — a caller content to block simply waits
/// again on `TimedOut`.
pub fn wait_for_frames<F: Fn() -> Result<CaptureEvent, CaptureError>, G: Fn() -> bool>(
    query: F,
    cancelled: G,
    max_polls: usize,
) -> (r: Result<PollOutcome, CaptureError>)
    requires
        call_requires(query, ()),
        call_requires(cancelled, ()),
    ensures
        r matches Ok(PollOutcome::Ready(n)) ==> n > 0 && call_ensures(
            query,
            (),
            Ok(CaptureEvent::FramesReady(n)),
        ),
        r matches Ok(PollOutcome::Cancelled) ==> call_ensures(cancelled, (), true),
        r matches Err(e) ==> call_ensures(query, (), Err(e)),
{
    let mut polls: usize = 0;
    while polls < max_polls
        invariant
            call_requires(query, ()),
            call_requires(cancelled, ()),
        decreases max_polls - polls,
    {
        if cancelled() {
            return Ok(PollOutcome::Cancelled);
        }
        match query() {
            Ok(event) => {
                match classify_event(event) {
                    PollStep::Deliver(n) => {
                        return Ok(PollOutcome::Ready(n));
                    },
                    PollStep::KeepWaiting => {},
                }
            },
            Err(e) => {
                return Err(e);
            },
        }
        polls = polls + 1;
    }
    Ok(PollOutcome::TimedOut)
}

} // verus!
