//! The present scheduler: consumes each frame's execution token, schedules
//! presentation, and issues the completion token fed to the next frame.

use vstd::prelude::*;

use crate::error::{FrameError, Stage};
use crate::token::{CompletionToken, ExecutionToken};

verus! {

/// What the driver reported for one presentation.
#[derive(Clone, Copy, Debug, PartialEq, Eq, Structural)]
pub enum PresentResponse {
    /// Presentation was scheduled cleanly.
    Completed,
    /// Presented, but the surface is suboptimal for the window.
    Suboptimal,
    /// Presented, but the surface no longer matches the drawable area.
    OutOfDate,
    /// The surface or device is gone for good.
    Lost,
}

/// How a successful presentation went.
#[derive(Clone, Copy, Debug, PartialEq, Eq, Structural)]
pub enum PresentStatus {
    /// Presented cleanly.
    Presented,
    /// Presented, but degraded: recreate the surface before the next
    /// acquire. Warning only — the frame was displayed.
    SuboptimalPresented,
}

impl PresentStatus {
    /// True when the surface should be recreated before the next acquire.
    pub fn wants_recreate(&self) -> (r: bool)
        ensures
            r == (self is SuboptimalPresented),
    {
        match self {
            PresentStatus::Presented => false,
            PresentStatus::SuboptimalPresented => true,
        }
    }
}

/// Joins, submits and presents; owns the present-order log.
pub struct PresentScheduler {
    /// Number of frames presented so far.
    pub frames_presented: u64,
    /// The image indices presented so far, in present order.
    pub presented: Ghost<Seq<usize>>,
}

impl PresentScheduler {
    /// One log entry per presented frame.
    pub open spec fn wf(self) -> bool {
        self.presented@.len() == self.frames_presented
    }

    /// A scheduler that has presented nothing.
    pub fn new() -> (s: PresentScheduler)
        ensures
            s.wf(),
            s.frames_presented == 0,
            s.presented@ == Seq::<usize>::empty(),
    {
        PresentScheduler { frames_presented: 0, presented: Ghost(Seq::empty()) }
    }

    /// Schedules presentation of the image named by `token`, consuming the
    /// token, and returns the completion token for the next frame. A
    /// suboptimal or out-of-date report still counts as presented — the
    /// image was displayed — and is surfaced as a degraded status so the
    /// caller recreates before the next acquire. A lost surface is fatal.
    pub fn present(&mut self, token: ExecutionToken, response: PresentResponse) -> (r: Result<
        (CompletionToken, PresentStatus),
        FrameError,
    >)
        requires
            old(self).wf(),
            token.frame == old(self).frames_presented,
            old(self).frames_presented < u64::MAX,
        ensures
            final(self).wf(),
            match response {
                PresentResponse::Lost => {
                    &&& r == Err::<(CompletionToken, PresentStatus), FrameError>(
                        FrameError::Fatal(Stage::Present),
                    )
                    &&& *final(self) == *old(self)
                },
                PresentResponse::Completed => {
                    &&& r == Ok::<(CompletionToken, PresentStatus), FrameError>(
                        (
                            CompletionToken { frames: (token.frame + 1) as u64 },
                            PresentStatus::Presented,
                        ),
                    )
                    &&& final(self).frames_presented == old(self).frames_presented + 1
                    &&& final(self).presented@ == old(self).presented@.push(token.image_index)
                },
                PresentResponse::Suboptimal | PresentResponse::OutOfDate => {
                    &&& r == Ok::<(CompletionToken, PresentStatus), FrameError>(
                        (
                            CompletionToken { frames: (token.frame + 1) as u64 },
                            PresentStatus::SuboptimalPresented,
                        ),
                    )
                    &&& final(self).frames_presented == old(self).frames_presented + 1
                    &&& final(self).presented@ == old(self).presented@.push(token.image_index)
                },
            },
    {
        match response {
            PresentResponse::Lost => Err(FrameError::Fatal(Stage::Present)),
            PresentResponse::Completed => {
                self.frames_presented = self.frames_presented + 1;
                proof {
                    self.presented@ = self.presented@.push(token.image_index);
                }
                Ok((CompletionToken { frames: token.frame + 1 }, PresentStatus::Presented))
            }
            PresentResponse::Suboptimal | PresentResponse::OutOfDate => {
                self.frames_presented = self.frames_presented + 1;
                proof {
                    self.presented@ = self.presented@.push(token.image_index);
                }
                Ok(
                    (
                        CompletionToken { frames: token.frame + 1 },
                        PresentStatus::SuboptimalPresented,
                    ),
                )
            }
        }
    }
}

} // verus!
