//! The swapchain lifecycle manager.
//!
//! Owns the surface target, the depth buffer and the framebuffer cache,
//! and replaces them wholesale on resize or invalidation. The driver's
//! answers (to an acquire, a recreation, a capability query) arrive as
//! plain values; every decision taken on them lives here.

use vstd::prelude::*;

use crate::error::{FrameError, RetryReason, Stage};
use crate::target::{DepthBuffer, Framebuffer, FramebufferCache, PixelFormat, SurfaceTarget};
use crate::token::AcquireToken;

verus! {

/// What the driver reported for one image acquisition.
#[derive(Clone, Copy, Debug, PartialEq, Eq, Structural)]
pub enum AcquireResponse {
    /// An image is ready; carries its index.
    Image(usize),
    /// The surface no longer matches the drawable area.
    OutOfDate,
    /// The surface or device is gone for good.
    Lost,
}

/// What the driver reported for one surface recreation.
#[derive(Clone, Copy, Debug, PartialEq, Eq, Structural)]
pub enum RecreateResponse {
    /// A new image set exists; carries how many images it holds.
    Created { image_count: usize },
    /// The requested dimensions are transiently unsupported (common
    /// mid-drag during an interactive resize).
    UnsupportedDimensions,
    /// The surface or device is gone for good.
    Lost,
}

/// The surface capabilities the driver reports before a swapchain is
/// built, reduced to the values the negotiation reads.
#[derive(Debug)]
pub struct SurfaceCapabilities {
    /// The fewest images the driver supports.
    pub min_image_count: usize,
    /// The extent the surface is pinned to, if any.
    pub current_extent: Option<(u32, u32)>,
    /// Supported color formats, best first; never empty on a real driver.
    pub formats: Vec<u32>,
    /// Supported composite-alpha modes, best first; never empty likewise.
    pub composite_alphas: Vec<u32>,
}

/// The parameters a swapchain is built with.
#[derive(Clone, Copy, Debug, PartialEq, Eq, Structural)]
pub struct SwapchainConfig {
    pub image_count: usize,
    pub width: u32,
    pub height: u32,
    pub format: u32,
    pub alpha: u32,
}

impl SwapchainConfig {
    /// Chooses the build parameters from the driver's capabilities and the
    /// window's drawable size: the minimal image count, the pinned extent
    /// if the surface has one (else the window's), and the first supported
    /// format and composite-alpha mode.
    pub fn negotiate(caps: &SurfaceCapabilities, window_width: u32, window_height: u32) -> (r:
        SwapchainConfig)
        requires
            caps.formats@.len() >= 1,
            caps.composite_alphas@.len() >= 1,
        ensures
            r.image_count == caps.min_image_count,
            caps.current_extent matches Some((w, h)) ==> r.width == w && r.height == h,
            caps.current_extent is None ==> r.width == window_width && r.height == window_height,
            r.format == caps.formats@[0],
            r.alpha == caps.composite_alphas@[0],
    {
        let (width, height) = match caps.current_extent {
            Some((w, h)) => (w, h),
            None => (window_width, window_height),
        };
        SwapchainConfig {
            image_count: caps.min_image_count,
            width,
            height,
            format: caps.formats[0],
            alpha: caps.composite_alphas[0],
        }
    }
}

/// Owns the surface target, the depth buffer and the framebuffer cache,
/// and recreates them on resize or invalidation.
pub struct SwapchainManager {
    /// The current negotiated image set.
    pub target: SurfaceTarget,
    /// The depth image, sized to the surface.
    pub depth: DepthBuffer,
    /// One slot per image index, rebuilt lazily after each recreation.
    pub cache: FramebufferCache,
    /// Set when the next acquire must be preceded by a recreation.
    pub needs_recreate: bool,
    /// The number of the next frame to acquire (0-based).
    pub next_frame: u64,
    /// The image indices handed out so far, in acquire order.
    pub acquired: Ghost<Seq<usize>>,
}

impl SwapchainManager {
    /// The manager's invariant: a usable target, a depth buffer and a
    /// cache sized to it, and one acquire-log entry per acquired frame.
    pub open spec fn wf(self) -> bool {
        &&& self.target.well_formed()
        &&& self.depth.width == self.target.width
        &&& self.depth.height == self.target.height
        &&& self.cache.slots@.len() == self.target.image_count
        &&& self.acquired@.len() == self.next_frame
    }

    /// Everything but the acquire log and the recreate flag is unchanged.
    pub open spec fn same_surface(self, other: Self) -> bool {
        &&& self.target == other.target
        &&& self.depth == other.depth
        &&& self.cache.slots@ == other.cache.slots@
    }

    /// Builds a manager for a freshly created surface.
    pub fn new(width: u32, height: u32, image_count: usize, format: PixelFormat) -> (m:
        SwapchainManager)
        requires
            width >= 1,
            height >= 1,
            image_count >= 1,
        ensures
            m.wf(),
            m.target == (SurfaceTarget { generation: 0, width, height, image_count, format }),
            m.needs_recreate == false,
            m.next_frame == 0,
            m.acquired@ == Seq::<usize>::empty(),
            forall|i: int| 0 <= i < image_count ==> m.cache.slots@[i] is None,
    {
        SwapchainManager {
            target: SurfaceTarget { generation: 0, width, height, image_count, format },
            depth: DepthBuffer { width, height },
            cache: FramebufferCache::stale(image_count),
            needs_recreate: false,
            next_frame: 0,
            acquired: Ghost(Seq::empty()),
        }
    }

    /// Notes that the window was resized or the surface invalidated: the
    /// next acquire must be preceded by a recreation.
    pub fn note_resize(&mut self)
        ensures
            final(self).needs_recreate == true,
            final(self).same_surface(*old(self)),
            final(self).next_frame == old(self).next_frame,
            final(self).acquired@ == old(self).acquired@,
    {
        self.needs_recreate = true;
    }

    /// Rebuilds the surface target and depth buffer for the new
    /// dimensions. Zero or driver-rejected dimensions are retryable and
    /// leave everything unchanged; on success the generation is bumped,
    /// the framebuffer cache is resized to the new image count with every
    /// slot pending a lazy rebuild, and the recreate flag is cleared.
    pub fn recreate(&mut self, new_width: u32, new_height: u32, response: RecreateResponse) -> (r:
        Result<(), FrameError>)
        requires
            old(self).wf(),
            old(self).target.generation < u64::MAX,
        ensures
            final(self).wf(),
            final(self).next_frame == old(self).next_frame,
            final(self).acquired@ == old(self).acquired@,
            (new_width == 0 || new_height == 0) ==> r == Err::<(), FrameError>(
                FrameError::Retryable(RetryReason::ZeroDimensions),
            ) && *final(self) == *old(self),
            new_width >= 1 && new_height >= 1 ==> match response {
                RecreateResponse::UnsupportedDimensions => r == Err::<(), FrameError>(
                    FrameError::Retryable(RetryReason::UnsupportedDimensions),
                ) && *final(self) == *old(self),
                RecreateResponse::Lost => r == Err::<(), FrameError>(
                    FrameError::Fatal(Stage::Recreate),
                ) && *final(self) == *old(self),
                RecreateResponse::Created { image_count } => if image_count >= 1 {
                    &&& r == Ok::<(), FrameError>(())
                    &&& final(self).target == (SurfaceTarget {
                        generation: (old(self).target.generation + 1) as u64,
                        width: new_width,
                        height: new_height,
                        image_count,
                        format: old(self).target.format,
                    })
                    &&& final(self).depth == (DepthBuffer {
                        width: new_width,
                        height: new_height,
                    })
                    &&& final(self).cache.slots@.len() == image_count
                    &&& forall|i: int|
                        0 <= i < image_count ==> final(self).cache.slots@[i] is None
                    &&& final(self).needs_recreate == false
                } else {
                    r == Err::<(), FrameError>(FrameError::Fatal(Stage::Recreate)) && *final(self)
                        == *old(self)
                },
            },
    {
        if new_width == 0 || new_height == 0 {
            return Err(FrameError::Retryable(RetryReason::ZeroDimensions));
        }
        match response {
            RecreateResponse::UnsupportedDimensions => Err(FrameError::Retryable(
                RetryReason::UnsupportedDimensions,
            )),
            RecreateResponse::Lost => Err(FrameError::Fatal(Stage::Recreate)),
            RecreateResponse::Created { image_count } => {
                if image_count == 0 {
                    return Err(FrameError::Fatal(Stage::Recreate));
                }
                self.target = SurfaceTarget {
                    generation: self.target.generation + 1,
                    width: new_width,
                    height: new_height,
                    image_count,
                    format: self.target.format,
                };
                self.depth = DepthBuffer { width: new_width, height: new_height };
                self.cache = FramebufferCache::stale(image_count);
                self.needs_recreate = false;
                Ok(())
            }
        }
    }

    /// Turns the driver's acquire answer into an image index plus a
    /// single-use acquire token, or an error. Out-of-date marks the
    /// surface for recreation; a lost surface and an out-of-range index
    /// are fatal. Must not be called while a recreation is pending.
    pub fn acquire(&mut self, response: AcquireResponse) -> (r: Result<
        (usize, AcquireToken),
        FrameError,
    >)
        requires
            old(self).wf(),
            !old(self).needs_recreate,
            old(self).next_frame < u64::MAX,
        ensures
            final(self).wf(),
            final(self).same_surface(*old(self)),
            match response {
                AcquireResponse::Image(i) => if i < old(self).target.image_count {
                    &&& r == Ok::<(usize, AcquireToken), FrameError>(
                        (
                            i,
                            AcquireToken {
                                frame: old(self).next_frame,
                                image_index: i,
                                generation: old(self).target.generation,
                            },
                        ),
                    )
                    &&& final(self).next_frame == old(self).next_frame + 1
                    &&& final(self).acquired@ == old(self).acquired@.push(i)
                    &&& final(self).needs_recreate == false
                } else {
                    &&& r == Err::<(usize, AcquireToken), FrameError>(
                        FrameError::Fatal(Stage::Acquire),
                    )
                    &&& *final(self) == *old(self)
                },
                AcquireResponse::OutOfDate => {
                    &&& r == Err::<(usize, AcquireToken), FrameError>(
                        FrameError::Retryable(RetryReason::OutOfDate),
                    )
                    &&& final(self).needs_recreate == true
                    &&& final(self).next_frame == old(self).next_frame
                    &&& final(self).acquired@ == old(self).acquired@
                },
                AcquireResponse::Lost => {
                    &&& r == Err::<(usize, AcquireToken), FrameError>(
                        FrameError::Fatal(Stage::Acquire),
                    )
                    &&& *final(self) == *old(self)
                },
            },
    {
        match response {
            AcquireResponse::Image(i) => {
                if i < self.target.image_count {
                    let token = AcquireToken {
                        frame: self.next_frame,
                        image_index: i,
                        generation: self.target.generation,
                    };
                    self.next_frame = self.next_frame + 1;
                    proof {
                        self.acquired@ = self.acquired@.push(i);
                    }
                    Ok((i, token))
                } else {
                    Err(FrameError::Fatal(Stage::Acquire))
                }
            }
            AcquireResponse::OutOfDate => {
                self.needs_recreate = true;
                Err(FrameError::Retryable(RetryReason::OutOfDate))
            }
            AcquireResponse::Lost => Err(FrameError::Fatal(Stage::Acquire)),
        }
    }

    /// Returns the framebuffer for image `i`, rebuilding its cache slot if
    /// it is missing or stale.
    pub fn framebuffer(&mut self, i: usize) -> (fb: Framebuffer)
        requires
            old(self).wf(),
            i < old(self).target.image_count,
        ensures
            final(self).wf(),
            fb == FramebufferCache::built_for(old(self).target, i as int),
            final(self).target == old(self).target,
            final(self).depth == old(self).depth,
            final(self).needs_recreate == old(self).needs_recreate,
            final(self).next_frame == old(self).next_frame,
            final(self).acquired@ == old(self).acquired@,
            final(self).cache.slots@ == old(self).cache.slots@.update(i as int, Some(fb)),
            old(self).cache.slot_fresh(old(self).target, i as int) ==> final(self).cache.slots@
                =~= old(self).cache.slots@,
    {
        let target = self.target;
        self.cache.framebuffer_for(&target, i)
    }
}

} // verus!
