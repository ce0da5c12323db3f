//! The capture bridge: the façade that owns a stream's lifecycle and
//! presents a single pull-based frame stream regardless of which mode backs
//! it.
//!
//! The bridge itself is the frame sequence: each pull yields one delivery
//! period's worth of decoded frames (not one frame at a time). In blocking
//! mode a pull polls the subsystem for readiness and then reads and decodes
//! exactly the reported frame count; in non-blocking mode the subsystem's
//! real-time callback hands deliveries to [`CaptureBridge::on_callback`] and
//! a pull drains the handoff channel. The sequence terminates once a stop
//! has been requested and every in-flight buffer is drained, or when the
//! subsystem breaks its delivery invariant mid-capture.

use vstd::prelude::*;

verus! {

use crate::channel::{HandoffChannel, ReceiveOutcome};
use crate::codec;
use crate::codec::{frame_seq, Frame};
use crate::event::{CaptureError, CaptureEvent};
use crate::poller;
use crate::poller::PollOutcome;

/// The parameters a stream is opened with. The channel count is fixed for
/// the lifetime of the stream and matches the negotiated format.
#[derive(Clone, Copy, Debug, PartialEq, Eq, Structural)]
pub struct CaptureConfig {
    /// Samples per frame: one per channel.
    pub channel_count: usize,
    /// Frames per second.
    pub sample_rate_hz: u32,
    /// Frames delivered per hardware read or callback invocation.
    pub period_frames: u32,
}

impl CaptureConfig {
    /// A configuration the bridge accepts: every parameter positive.
    /// Anything else is rejected at open time as an unsupported format.
    pub open spec fn valid(self) -> bool {
        self.channel_count >= 1 && self.sample_rate_hz >= 1 && self.period_frames >= 1
    }
}

/// Lifecycle of an opened stream: `Opened` on construction, `Running` after
/// `start`, `Stopped` after `stop`.
#[derive(Clone, Copy, Debug, PartialEq, Eq, Structural)]
pub enum BridgeState {
    Opened,
    Running,
    Stopped,
}

/// What the real-time producer must do after handing over one delivery.
#[derive(Clone, Copy, Debug, PartialEq, Eq, Structural)]
pub enum CallbackFlow {
    /// The delivery was accepted; keep capturing.
    Continue,
    /// Cease capturing: a stop was requested or the consumer dropped its
    /// end. The producer does no further work after observing this.
    Complete,
}

/// One pull of the frame stream in non-blocking mode.
#[derive(Debug)]
pub enum PeriodPull {
    /// One delivery period's worth of frames, in delivery order.
    Frames(Vec<Frame>),
    /// The stream has ended: a stop was requested and everything in flight
    /// has been drained, or an earlier pull hit a fault. No further frames
    /// will ever arrive.
    Terminated,
    /// Nothing is pending but the producer may still deliver; a blocking
    /// consumer waits and pulls again.
    WouldBlock,
    /// The subsystem broke its delivery invariant; the stream is over and
    /// every later pull reports `Terminated`.
    Fault(CaptureError),
}

/// One pull of the frame stream in blocking mode.
#[derive(Debug)]
pub enum BlockingPull {
    /// One delivery's worth of frames, in delivery order.
    Frames(Vec<Frame>),
    /// The cancellation signal was observed before any frames were ready.
    Cancelled,
    /// The polling budget ran out with no frames ready; the caller decides
    /// whether to pull again.
    TimedOut,
}

/// The capture bridge. Exactly one bridge owns a capture stream at a time;
/// a new capture requires a new bridge — a live stream is not replayable.
pub struct CaptureBridge {
    config: CaptureConfig,
    state: BridgeState,
    handoff: HandoffChannel,
    faulted: bool,
}

impl CaptureBridge {
    /// The parameters this bridge was opened with.
    pub closed spec fn config(self) -> CaptureConfig {
        self.config
    }

    /// Where the stream is in its lifecycle.
    pub closed spec fn state(self) -> BridgeState {
        self.state
    }

    /// The handoff channel carrying deliveries in non-blocking mode.
    pub closed spec fn handoff(self) -> HandoffChannel {
        self.handoff
    }

    /// Whether a pull has hit a mid-capture fault, which terminates the
    /// frame sequence.
    pub closed spec fn is_faulted(self) -> bool {
        self.faulted
    }

    /// Every bridge holds a valid configuration and a well-formed channel.
    pub closed spec fn wf(self) -> bool {
        self.config.valid() && self.handoff.wf()
    }

    /// Open a capture bridge for the given parameters, validating them
    /// first: an invalid format is rejected and nothing is opened.
    pub fn open(config: CaptureConfig) -> (r: Result<CaptureBridge, CaptureError>)
        ensures
            r is Ok <==> config.valid(),
            r matches Ok(b) ==> b.wf() && b.config() == config && b.state() == BridgeState::Opened
                && !b.is_faulted() && b.handoff().accepted_buffers() == Seq::<Seq<i32>>::empty()
                && b.handoff().delivered_buffers() == Seq::<Seq<i32>>::empty()
                && b.handoff().pending_buffers() == Seq::<Seq<i32>>::empty()
                && b.handoff().consumer_is_open() && !b.handoff().stop_is_requested(),
            !config.valid() ==> r == Result::<CaptureBridge, CaptureError>::Err(
                CaptureError::UnsupportedFormat,
            ),
    {
        if config.channel_count < 1 || config.sample_rate_hz < 1 || config.period_frames < 1 {
            return Err(CaptureError::UnsupportedFormat);
        }
        Ok(
            CaptureBridge {
                config,
                state: BridgeState::Opened,
                handoff: HandoffChannel::new(),
                faulted: false,
            },
        )
    }

    /// Transition `Opened` to `Running`. Starting a bridge that is already
    /// running, or already stopped, fails with `InvalidState` and changes
    /// nothing.
    pub fn start(&mut self) -> (r: Result<(), CaptureError>)
        requires
            old(self).wf(),
        ensures
            final(self).wf(),
            r is Ok <==> old(self).state() == BridgeState::Opened,
            old(self).state() == BridgeState::Opened ==> final(self).state()
                == BridgeState::Running && final(self).config() == old(self).config() && final(self).handoff() == old(self).handoff() && final(self).is_faulted() == old(self).is_faulted(),
            old(self).state() != BridgeState::Opened ==> r == Result::<(), CaptureError>::Err(
                CaptureError::InvalidState,
            ) && *final(self) == *old(self),
    {
        match self.state {
            BridgeState::Opened => {
                self.state = BridgeState::Running;
                Ok(())
            },
            _ => Err(CaptureError::InvalidState),
        }
    }

    /// Request that capture cease. Only a running stream can be stopped;
    /// the request marks the handoff channel, the producer observes it on
    /// its next invocation, and already-delivered buffers stay drainable.
    /// Capture need not have ceased the instant this returns.
    pub fn stop(&mut self) -> (r: Result<(), CaptureError>)
        requires
            old(self).wf(),
        ensures
            final(self).wf(),
            r is Ok <==> old(self).state() == BridgeState::Running,
            old(self).state() == BridgeState::Running ==> final(self).state()
                == BridgeState::Stopped && final(self).handoff().stop_is_requested() && final(self).handoff().accepted_buffers() == old(self).handoff().accepted_buffers() && final(self).handoff().delivered_buffers() == old(self).handoff().delivered_buffers() && final(self).handoff().pending_buffers() == old(self).handoff().pending_buffers() && final(self).handoff().consumer_is_open() == old(self).handoff().consumer_is_open() && final(self).config() == old(self).config() && final(self).is_faulted() == old(self).is_faulted(),
            old(self).state() != BridgeState::Running ==> r == Result::<(), CaptureError>::Err(
                CaptureError::InvalidState,
            ) && *final(self) == *old(self),
    {
        match self.state {
            BridgeState::Running => {
                self.state = BridgeState::Stopped;
                self.handoff.request_stop();
                Ok(())
            },
            _ => Err(CaptureError::InvalidState),
        }
    }

    /// The consumer abandons the stream: every later delivery is refused,
    /// so the producer observes the disconnection and halts cleanly.
    pub fn disconnect_consumer(&mut self)
        requires
            old(self).wf(),
        ensures
            final(self).wf(),
            !final(self).handoff().consumer_is_open(),
            final(self).handoff().accepted_buffers() == old(self).handoff().accepted_buffers(),
            final(self).handoff().delivered_buffers() == old(self).handoff().delivered_buffers(),
            final(self).handoff().pending_buffers() == old(self).handoff().pending_buffers(),
            final(self).handoff().stop_is_requested() == old(self).handoff().stop_is_requested(),
            final(self).state() == old(self).state(),
            final(self).config() == old(self).config(),
            final(self).is_faulted() == old(self).is_faulted(),
    {
        self.handoff.drop_consumer();
    }

    /// The producer step in non-blocking mode: the subsystem's real-time
    /// callback hands one delivery over. The buffer is accepted exactly when
    /// the consumer still holds its end and no stop has been requested;
    /// otherwise nothing is queued and the producer is told to complete —
    /// it performs no further work after observing that.
    pub fn on_callback(&mut self, buf: Vec<i32>) -> (flow: CallbackFlow)
        requires
            old(self).wf(),
        ensures
            final(self).wf(),
            flow == CallbackFlow::Continue <==> (old(self).handoff().consumer_is_open() && !old(self).handoff().stop_is_requested()),
            (old(self).handoff().consumer_is_open() && !old(self).handoff().stop_is_requested())
                ==> final(self).handoff().accepted_buffers() == old(self).handoff().accepted_buffers().push(buf@) && final(self).handoff().pending_buffers()
                == old(self).handoff().pending_buffers().push(buf@),
            !(old(self).handoff().consumer_is_open() && !old(self).handoff().stop_is_requested())
                ==> *final(self) == *old(self),
            final(self).handoff().delivered_buffers() == old(self).handoff().delivered_buffers(),
            final(self).handoff().consumer_is_open() == old(self).handoff().consumer_is_open(),
            final(self).handoff().stop_is_requested() == old(self).handoff().stop_is_requested(),
            final(self).state() == old(self).state(),
            final(self).config() == old(self).config(),
            final(self).is_faulted() == old(self).is_faulted(),
    {
        if self.handoff.is_stop_requested() {
            return CallbackFlow::Complete;
        }
        match self.handoff.send(buf) {
            Ok(()) => CallbackFlow::Continue,
            Err(_) => CallbackFlow::Complete,
        }
    }

    /// The consumer step in non-blocking mode: pull one delivery period's
    /// worth of frames. The oldest pending buffer — exactly the next
    /// accepted buffer the consumer has not seen — is decoded into whole
    /// frames in delivery order. With nothing pending the pull reports
    /// termination once a stop has been requested, and otherwise that the
    /// consumer would have to wait. A delivery whose length is not a
    /// multiple of the channel count is a mid-capture fault: it terminates
    /// the frame sequence, and every later pull reports `Terminated`.
    pub fn next_period(&mut self) -> (pull: PeriodPull)
        requires
            old(self).wf(),
        ensures
            final(self).wf(),
            final(self).state() == old(self).state(),
            final(self).config() == old(self).config(),
            final(self).handoff().accepted_buffers() == old(self).handoff().accepted_buffers(),
            final(self).handoff().consumer_is_open() == old(self).handoff().consumer_is_open(),
            final(self).handoff().stop_is_requested() == old(self).handoff().stop_is_requested(),
            old(self).is_faulted() ==> (pull matches PeriodPull::Terminated && *final(self) == *old(self)),
            !old(self).is_faulted() && old(self).handoff().pending_buffers().len() > 0 ==> {
                let buf = old(self).handoff().pending_buffers()[0];
                &&& buf == old(self).handoff().accepted_buffers()[old(self).handoff().delivered_buffers().len() as int]
                &&& final(self).handoff().delivered_buffers() == old(self).handoff().delivered_buffers().push(buf)
                &&& final(self).handoff().pending_buffers() == old(self).handoff().pending_buffers().skip(1)
                &&& (buf.len() % (old(self).config().channel_count as nat) == 0 ==> (pull matches
                    PeriodPull::Frames(frames) && frames@.map_values(|f: Frame| f@) == frame_seq(
                    buf,
                    old(self).config().channel_count as nat,
                ) && final(self).is_faulted() == old(self).is_faulted()))
                &&& (buf.len() % (old(self).config().channel_count as nat) != 0 ==> (pull matches
                    PeriodPull::Fault(e) && e == CaptureError::StreamFault && final(self).is_faulted()))
            },
            !old(self).is_faulted() && old(self).handoff().pending_buffers().len() == 0 ==> (*final(self) == *old(self) && (pull matches PeriodPull::Terminated <==> old(self).handoff().stop_is_requested()) && (pull matches PeriodPull::WouldBlock <==> !old(self).handoff().stop_is_requested())),
    {
        if self.faulted {
            return PeriodPull::Terminated;
        }
        match self.handoff.receive() {
            ReceiveOutcome::Received(buf) => {
                match codec::decode(&buf, self.config.channel_count) {
                    Ok(frames) => PeriodPull::Frames(frames),
                    Err(_) => {
                        self.faulted = true;
                        PeriodPull::Fault(CaptureError::StreamFault)
                    },
                }
            },
            ReceiveOutcome::Terminated => PeriodPull::Terminated,
            ReceiveOutcome::WouldBlock => PeriodPull::WouldBlock,
        }
    }

    /// One pull of the frame stream in blocking mode: poll the subsystem
    /// through `query` until frames are ready (checking `cancelled` between
    /// polls, giving up after `max_polls` queries), then read exactly the
    /// reported frame count through `read` and decode it.
    ///
    /// Frames handed back are exactly the deinterleaving of a buffer the
    /// read returned for a count the query reported. Overflow and underflow
    /// reports never surface as errors. An error is one the query or the
    /// read returned, except that a buffer whose length is not a multiple
    /// of the channel count is reported as a mid-capture `StreamFault`.
    pub fn next_period_blocking<
        F: Fn() -> Result<CaptureEvent, CaptureError>,
        G: Fn() -> bool,
        R: Fn(u32) -> Result<Vec<i32>, CaptureError>,
    >(&self, query: F, cancelled: G, read: R, max_polls: usize) -> (r: Result<
        BlockingPull,
        CaptureError,
    >)
        requires
            self.wf(),
            call_requires(query, ()),
            call_requires(cancelled, ()),
            forall|n: u32| n > 0 ==> call_requires(read, (n,)),
        ensures
            r matches Ok(BlockingPull::Frames(frames)) ==> exists|n: u32, raw: Vec<i32>|
                n > 0 && #[trigger] call_ensures(query, (), Ok(CaptureEvent::FramesReady(n)))
                    && #[trigger] call_ensures(read, (n,), Ok(raw)) && raw@.len() % (
                self.config().channel_count as nat) == 0 && frames@.map_values(|f: Frame| f@)
                    == frame_seq(raw@, self.config().channel_count as nat),
            r matches Ok(BlockingPull::Cancelled) ==> call_ensures(cancelled, (), true),
            r matches Err(e) ==> (call_ensures(query, (), Err(e)) || (exists|n: u32|
                n > 0 && #[trigger] call_ensures(read, (n,), Err(e))) || e
                == CaptureError::StreamFault),
    {
        match poller::wait_for_frames(query, cancelled, max_polls) {
            Ok(PollOutcome::Ready(n)) => {
                match read(n) {
                    Ok(raw) => {
                        match codec::decode(&raw, self.config.channel_count) {
                            Ok(frames) => Ok(BlockingPull::Frames(frames)),
                            Err(_) => Err(CaptureError::StreamFault),
                        }
                    },
                    Err(e) => Err(e),
                }
            },
            Ok(PollOutcome::Cancelled) => Ok(BlockingPull::Cancelled),
            Ok(PollOutcome::TimedOut) => Ok(BlockingPull::TimedOut),
            Err(e) => Err(e),
        }
    }

    /// Where the stream is in its lifecycle.
    pub fn current_state(&self) -> (s: BridgeState)
        ensures
            s == self.state(),
    {
        self.state
    }

    /// The parameters this bridge was opened with.
    pub fn current_config(&self) -> (c: CaptureConfig)
        ensures
            c == self.config(),
    {
        self.config
    }
}

} // verus!
