//! A capture-to-consumer bridge for live multi-channel audio.
//!
//! Audio arrives from a hardware-driven capture path either by synchronous
//! polling ("blocking" mode) or through a real-time callback ("non-blocking"
//! mode). This library turns those deliveries into a backpressure-aware,
//! deinterleaved frame stream with well-defined behavior under overflow,
//! underflow, and consumer disconnection.
//!
//! The audio subsystem itself (device enumeration, stream negotiation, the
//! actual reads) is an external collaborator: callers hand its deliveries to
//! the bridge as plain sample buffers, or as closures the bridge polls.

pub mod bridge;
pub mod channel;
pub mod codec;
pub mod event;
pub mod poller;
