//! Single-use tokens that chain asynchronous GPU completion through the
//! frame loop.
//!
//! Each link of the chain is consumed by value exactly once:
//! the previous frame's completion token and the acquire token are joined
//! when a frame is begun, the finished frame yields one execution token,
//! and presenting that token yields the completion token handed to the
//! next frame. None of these types is `Clone` or `Copy`.

use vstd::prelude::*;

verus! {

/// Signals that the first `frames` frames have been submitted and flushed.
///
/// Exactly one such token is outstanding between frames; it is moved, never
/// copied, into the next frame.
#[derive(Debug, PartialEq, Eq, Structural)]
pub struct CompletionToken {
    /// Number of frames whose submission this token covers.
    pub frames: u64,
}

impl CompletionToken {
    /// The token that precedes the very first frame (nothing to wait for).
    pub fn origin() -> (t: CompletionToken)
        ensures
            t.frames == 0,
    {
        CompletionToken { frames: 0 }
    }
}

/// Signals that one swapchain image has been handed out for one frame.
#[derive(Debug, PartialEq, Eq, Structural)]
pub struct AcquireToken {
    /// The frame (0-based) this acquisition belongs to.
    pub frame: u64,
    /// The swapchain image index that was acquired.
    pub image_index: usize,
    /// The surface generation the image belongs to.
    pub generation: u64,
}

/// Signals that one frame's command recording has been scheduled for
/// execution after its acquire and previous-frame tokens.
///
/// Produced exactly once by the finished pass; consumed by `present`.
#[derive(Debug, PartialEq, Eq, Structural)]
pub struct ExecutionToken {
    /// The frame (0-based) whose recording this token covers.
    pub frame: u64,
    /// The swapchain image the recording renders to.
    pub image_index: usize,
}

} // verus!
