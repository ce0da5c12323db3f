//! Events and errors reported by the capture path.

use vstd::prelude::*;

verus! {

/// The result of one availability query against the audio subsystem.
///
/// Overflow and underflow are informational: they report that the input
/// buffer was not drained fast enough, or that an output buffer ran dry.
/// Neither carries samples and neither is fatal.
#[derive(Clone, Copy, Debug, PartialEq, Eq, Structural)]
pub enum CaptureEvent {
    /// The subsystem has this many whole frames ready to be read.
    FramesReady(u32),
    /// The input buffer overflowed; capture continues.
    InputOverflowed,
    /// The output buffer underflowed; capture continues.
    OutputUnderflowed,
}

/// Errors surfaced by the capture bridge.
///
/// Overflow and underflow are not errors; they are informational
/// [`CaptureEvent`]s and never terminate capture.
#[derive(Clone, Copy, Debug, PartialEq, Eq, Structural)]
pub enum CaptureError {
    /// Device or host lookup failed; surfaced at open time.
    DeviceError,
    /// The requested stream parameters were rejected; surfaced at open time.
    UnsupportedFormat,
    /// An operation was attempted in the wrong lifecycle state.
    InvalidState,
    /// The subsystem reported a hard fault mid-capture; terminates the
    /// frame sequence.
    StreamFault,
}

} // verus!
