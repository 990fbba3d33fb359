//! The composed frame loop core: frame system, swapchain lifecycle
//! manager and present scheduler, threaded together by one previous-frame
//! completion token.
//!
//! The token is held here between frames and moved — never copied — into
//! each frame; at most one frame is in flight at any time, and the
//! present order provably equals the acquire order.

use vstd::prelude::*;

use crate::error::{FrameError, RetryReason, Stage};
use crate::frame::{Frame, FrameSystem};
use crate::scheduler::{PresentResponse, PresentScheduler, PresentStatus};
use crate::swapchain::{AcquireResponse, RecreateResponse, SwapchainManager};
use crate::target::{FramebufferCache, PixelFormat, SurfaceTarget};
use crate::token::{CompletionToken, ExecutionToken};

verus! {

/// The frame loop core. Owns everything that survives a frame boundary:
/// the swapchain state, the present log, and the single previous-frame
/// completion token.
pub struct Renderer {
    /// The shared render-target description.
    pub system: FrameSystem,
    /// Surface target, depth buffer and framebuffer cache.
    pub swapchain: SwapchainManager,
    /// Present-order bookkeeping.
    pub scheduler: PresentScheduler,
    /// The previous frame's completion token; `None` exactly while a
    /// frame is in flight.
    pub previous: Option<CompletionToken>,
}

impl Renderer {
    /// The loop invariant. Present order is a prefix of acquire order,
    /// and the held token accounts for every acquired frame: when it is
    /// present, all acquired frames are presented; while a frame is in
    /// flight, exactly one acquired frame is unpresented.
    pub open spec fn wf(self) -> bool {
        &&& self.swapchain.wf()
        &&& self.scheduler.wf()
        &&& self.scheduler.presented@.is_prefix_of(self.swapchain.acquired@)
        &&& match self.previous {
            Some(t) => t.frames == self.scheduler.frames_presented
                && self.swapchain.next_frame == self.scheduler.frames_presented,
            None => self.swapchain.next_frame == self.scheduler.frames_presented + 1,
        }
    }

    /// Builds the loop core for a freshly created surface.
    pub fn new(width: u32, height: u32, image_count: usize, format: PixelFormat) -> (r: Renderer)
        requires
            width >= 1,
            height >= 1,
            image_count >= 1,
        ensures
            r.wf(),
            r.swapchain.target == (SurfaceTarget {
                generation: 0,
                width,
                height,
                image_count,
                format,
            }),
            r.swapchain.needs_recreate == false,
            r.swapchain.next_frame == 0,
            r.scheduler.frames_presented == 0,
            r.previous == Some(CompletionToken { frames: 0u64 }),
            r.system.render_target == crate::target::RenderTargetDescription::standard(format),
    {
        Renderer {
            system: FrameSystem::new(format),
            swapchain: SwapchainManager::new(width, height, image_count, format),
            scheduler: PresentScheduler::new(),
            previous: Some(CompletionToken::origin()),
        }
    }

    /// Notes a window resize: the next acquire must recreate first.
    pub fn note_resize(&mut self)
        requires
            old(self).wf(),
        ensures
            final(self).wf(),
            final(self).swapchain.needs_recreate == true,
            final(self).swapchain.same_surface(old(self).swapchain),
            final(self).swapchain.next_frame == old(self).swapchain.next_frame,
            final(self).swapchain.acquired@ == old(self).swapchain.acquired@,
            final(self).scheduler == old(self).scheduler,
            final(self).previous == old(self).previous,
    {
        self.swapchain.note_resize();
    }

    /// Whether the next acquire must be preceded by a recreation.
    pub fn needs_recreate(&self) -> (r: bool)
        ensures
            r == self.swapchain.needs_recreate,
    {
        self.swapchain.needs_recreate
    }

    /// Recreates the surface for the new dimensions; see
    /// `SwapchainManager::recreate`. Zero or driver-rejected dimensions
    /// are retryable and leave everything unchanged; success bumps the
    /// generation and leaves the framebuffer cache sized to the new image
    /// count with every slot pending a lazy rebuild.
    pub fn recreate(&mut self, new_width: u32, new_height: u32, response: RecreateResponse) -> (r:
        Result<(), FrameError>)
        requires
            old(self).wf(),
            old(self).swapchain.target.generation < u64::MAX,
        ensures
            final(self).wf(),
            final(self).scheduler == old(self).scheduler,
            final(self).previous == old(self).previous,
            final(self).swapchain.next_frame == old(self).swapchain.next_frame,
            final(self).swapchain.acquired@ == old(self).swapchain.acquired@,
            (new_width == 0 || new_height == 0) ==> r == Err::<(), FrameError>(
                FrameError::Retryable(RetryReason::ZeroDimensions),
            ) && final(self).swapchain == old(self).swapchain,
            new_width >= 1 && new_height >= 1 ==> match response {
                RecreateResponse::UnsupportedDimensions => r == Err::<(), FrameError>(
                    FrameError::Retryable(RetryReason::UnsupportedDimensions),
                ) && final(self).swapchain == old(self).swapchain,
                RecreateResponse::Lost => r == Err::<(), FrameError>(
                    FrameError::Fatal(Stage::Recreate),
                ) && final(self).swapchain == old(self).swapchain,
                RecreateResponse::Created { image_count } => if image_count >= 1 {
                    &&& r == Ok::<(), FrameError>(())
                    &&& final(self).swapchain.target == (SurfaceTarget {
                        generation: (old(self).swapchain.target.generation + 1) as u64,
                        width: new_width,
                        height: new_height,
                        image_count,
                        format: old(self).swapchain.target.format,
                    })
                    &&& final(self).swapchain.cache.slots@.len() == image_count
                    &&& forall|i: int|
                        0 <= i < image_count ==> final(self).swapchain.cache.slots@[i] is None
                    &&& final(self).swapchain.needs_recreate == false
                } else {
                    r == Err::<(), FrameError>(FrameError::Fatal(Stage::Recreate))
                        && final(self).swapchain == old(self).swapchain
                },
            },
    {
        self.swapchain.recreate(new_width, new_height, response)
    }

    /// Begins the next frame from the driver's acquire answer: on success
    /// the previous-frame token is moved into the new frame together with
    /// the acquire token, and the framebuffer of the acquired image is
    /// taken from the cache (rebuilt lazily if stale). Must not be called
    /// while a recreation is pending or a frame is in flight.
    pub fn begin_frame(&mut self, response: AcquireResponse) -> (r: Result<Frame, FrameError>)
        requires
            old(self).wf(),
            old(self).previous is Some,
            !old(self).swapchain.needs_recreate,
            old(self).swapchain.next_frame < u64::MAX,
        ensures
            final(self).wf(),
            final(self).scheduler == old(self).scheduler,
            final(self).system == old(self).system,
            match response {
                AcquireResponse::Image(i) => if i < old(self).swapchain.target.image_count {
                    &&& r matches Ok(f)
                    &&& f.wf()
                    &&& f.stage is Init
                    &&& f.frame_no == old(self).swapchain.next_frame
                    &&& f.framebuffer == FramebufferCache::built_for(
                        old(self).swapchain.target,
                        i as int,
                    )
                    &&& f.recording.commands@.len() == 0
                    &&& f.previous == old(self).previous
                    &&& final(self).previous is None
                    &&& final(self).swapchain.next_frame == old(self).swapchain.next_frame + 1
                    &&& final(self).swapchain.acquired@ == old(self).swapchain.acquired@.push(i)
                    &&& final(self).swapchain.target == old(self).swapchain.target
                    &&& final(self).swapchain.needs_recreate == false
                    &&& final(self).swapchain.cache.slots@ == old(
                        self,
                    ).swapchain.cache.slots@.update(
                        i as int,
                        Some(FramebufferCache::built_for(old(self).swapchain.target, i as int)),
                    )
                } else {
                    &&& r == Err::<Frame, FrameError>(FrameError::Fatal(Stage::Acquire))
                    &&& *final(self) == *old(self)
                },
                AcquireResponse::OutOfDate => {
                    &&& r == Err::<Frame, FrameError>(FrameError::Retryable(RetryReason::OutOfDate))
                    &&& final(self).previous == old(self).previous
                    &&& final(self).swapchain.needs_recreate == true
                    &&& final(self).swapchain.next_frame == old(self).swapchain.next_frame
                    &&& final(self).swapchain.acquired@ == old(self).swapchain.acquired@
                    &&& final(self).swapchain.same_surface(old(self).swapchain)
                },
                AcquireResponse::Lost => {
                    &&& r == Err::<Frame, FrameError>(FrameError::Fatal(Stage::Acquire))
                    &&& *final(self) == *old(self)
                },
            },
    {
        let ghost pre_acquired = self.swapchain.acquired@;
        let ghost presented = self.scheduler.presented@;
        let (i, acquire_token) = match self.swapchain.acquire(response) {
            Ok(v) => v,
            Err(e) => {
                return Err(e);
            }
        };
        let framebuffer = self.swapchain.framebuffer(i);
        let previous = self.previous.take().unwrap();
        proof {
            assert(presented.is_prefix_of(self.swapchain.acquired@)) by {
                assert(presented =~= pre_acquired.subrange(0, presented.len() as int));
                assert(self.swapchain.acquired@.subrange(0, presented.len() as int)
                    =~= pre_acquired.subrange(0, presented.len() as int));
            }
        }
        Ok(self.system.frame(previous, acquire_token, framebuffer))
    }

    /// Presents the finished frame named by `token`, consuming it, and
    /// stores the new completion token for the next frame. A degraded
    /// report marks the surface for recreation before the next acquire.
    /// On a fatal error the frame is abandoned wholesale and no token is
    /// issued.
    pub fn present(&mut self, token: ExecutionToken, response: PresentResponse) -> (r: Result<
        PresentStatus,
        FrameError,
    >)
        requires
            old(self).wf(),
            old(self).previous is None,
            token.frame == old(self).scheduler.frames_presented,
            token.image_index == old(self).swapchain.acquired@[token.frame as int],
            old(self).scheduler.frames_presented < u64::MAX,
        ensures
            final(self).wf(),
            final(self).system == old(self).system,
            final(self).swapchain.same_surface(old(self).swapchain),
            final(self).swapchain.next_frame == old(self).swapchain.next_frame,
            final(self).swapchain.acquired@ == old(self).swapchain.acquired@,
            match response {
                PresentResponse::Lost => {
                    &&& r == Err::<PresentStatus, FrameError>(FrameError::Fatal(Stage::Present))
                    &&& final(self).previous is None
                    &&& final(self).scheduler == old(self).scheduler
                    &&& final(self).swapchain.needs_recreate == old(self).swapchain.needs_recreate
                },
                PresentResponse::Completed => {
                    &&& r == Ok::<PresentStatus, FrameError>(PresentStatus::Presented)
                    &&& final(self).previous == Some(
                        CompletionToken { frames: (token.frame + 1) as u64 },
                    )
                    &&& final(self).scheduler.presented@ == old(self).scheduler.presented@.push(
                        token.image_index,
                    )
                    &&& final(self).swapchain.needs_recreate == old(self).swapchain.needs_recreate
                },
                PresentResponse::Suboptimal | PresentResponse::OutOfDate => {
                    &&& r == Ok::<PresentStatus, FrameError>(PresentStatus::SuboptimalPresented)
                    &&& final(self).previous == Some(
                        CompletionToken { frames: (token.frame + 1) as u64 },
                    )
                    &&& final(self).scheduler.presented@ == old(self).scheduler.presented@.push(
                        token.image_index,
                    )
                    &&& final(self).swapchain.needs_recreate == true
                },
            },
    {
        let ghost old_presented = self.scheduler.presented@;
        let ghost acquired = self.swapchain.acquired@;
        match self.scheduler.present(token, response) {
            Ok((completion, status)) => {
                proof {
                    assert(old_presented.push(token.image_index).is_prefix_of(acquired)) by {
                        assert(old_presented =~= acquired.subrange(
                            0,
                            old_presented.len() as int,
                        ));
                        assert(old_presented.push(token.image_index) =~= acquired.subrange(
                            0,
                            old_presented.len() as int + 1,
                        ));
                    }
                }
                self.previous = Some(completion);
                if status.wants_recreate() {
                    self.swapchain.note_resize();
                }
                Ok(status)
            }
            Err(e) => Err(e),
        }
    }
}

/// Law: as long as no frame is in flight, the images presented so far, in
/// present order, are exactly the images acquired so far, in acquire
/// order — over any number of error-free frames, presentation never
/// reorders.
pub proof fn lemma_present_order(r: Renderer)
    requires
        r.wf(),
        r.previous is Some,
    ensures
        r.scheduler.presented@ == r.swapchain.acquired@,
{
    assert(r.scheduler.presented@ =~= r.swapchain.acquired@);
}

/// Law: never more than one frame is in flight — the number of acquired
/// frames exceeds the number of presented frames by at most one.
pub proof fn lemma_single_frame_in_flight(r: Renderer)
    requires
        r.wf(),
    ensures
        r.scheduler.presented@.len() <= r.swapchain.acquired@.len(),
        r.swapchain.acquired@.len() - r.scheduler.presented@.len() <= 1,
{
}

} // verus!
