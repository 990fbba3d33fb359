//! Error taxonomy of the frame loop.
//!
//! Retryable errors tell the caller to skip the current frame, recreate the
//! surface, and try again on the next tick. Fatal errors abort the loop and
//! carry the stage that failed. A suboptimal present is reported separately
//! as a degraded status, not as an error.

use vstd::prelude::*;

verus! {

/// Why an operation must be retried after a surface recreation.
#[derive(Clone, Copy, Debug, PartialEq, Eq, Structural)]
pub enum RetryReason {
    /// The surface no longer matches the window's drawable area.
    OutOfDate,
    /// A requested dimension was zero (window minimized or mid-drag).
    ZeroDimensions,
    /// The driver rejected the requested dimensions transiently.
    UnsupportedDimensions,
}

/// The stage of the frame loop in which a fatal error arose.
#[derive(Clone, Copy, Debug, PartialEq, Eq, Structural)]
pub enum Stage {
    Recreate,
    Acquire,
    DeferredDraw,
    TextOverlay,
    Finalize,
    Present,
}

/// An error surfaced by the frame loop.
#[derive(Clone, Copy, Debug, PartialEq, Eq, Structural)]
pub enum FrameError {
    /// Skip the frame, recreate, retry next tick.
    Retryable(RetryReason),
    /// Abort the frame loop; carries the failing stage.
    Fatal(Stage),
}

impl FrameError {
    /// True exactly for errors the caller may recover from by retrying.
    pub fn is_retryable(&self) -> (r: bool)
        ensures
            r == (self is Retryable),
    {
        match self {
            FrameError::Retryable(_) => true,
            FrameError::Fatal(_) => false,
        }
    }

    /// True exactly for errors that must abort the frame loop.
    pub fn is_fatal(&self) -> (r: bool)
        ensures
            r == (self is Fatal),
    {
        match self {
            FrameError::Retryable(_) => false,
            FrameError::Fatal(_) => true,
        }
    }
}

} // verus!
