//! The negotiated surface target, the fixed render-target description
//! shared by all frames, and the versioned framebuffer cache.
//!
//! The surface target carries a generation counter that is bumped on every
//! recreation. Cached framebuffers are tagged with the generation they were
//! built for; a stale tag means the entry is discarded and rebuilt lazily.

use vstd::prelude::*;

verus! {

/// A pixel format: the fixed depth format, or a driver-negotiated color
/// format carried as an opaque code.
#[derive(Clone, Copy, Debug, PartialEq, Eq, Structural)]
pub enum PixelFormat {
    /// 16-bit unsigned normalized depth.
    D16Unorm,
    /// A color format chosen during surface negotiation.
    Color(u32),
}

/// What happens to an attachment's contents when a pass begins.
#[derive(Clone, Copy, Debug, PartialEq, Eq, Structural)]
pub enum LoadOp {
    Clear,
    Load,
    DontCare,
}

/// What happens to an attachment's contents when a pass ends.
#[derive(Clone, Copy, Debug, PartialEq, Eq, Structural)]
pub enum StoreOp {
    Store,
    DontCare,
}

/// One attachment slot of the render target.
#[derive(Clone, Copy, Debug, PartialEq, Eq, Structural)]
pub struct AttachmentDescription {
    pub load: LoadOp,
    pub store: StoreOp,
    pub format: PixelFormat,
    pub samples: u32,
}

/// The fixed attachment layout shared by all frames: one color attachment
/// (cleared, stored) and one depth attachment (cleared, discarded).
#[derive(Clone, Copy, Debug, PartialEq, Eq, Structural)]
pub struct RenderTargetDescription {
    pub color: AttachmentDescription,
    pub depth: AttachmentDescription,
}

impl RenderTargetDescription {
    /// The one layout this system uses, for a given color output format.
    pub open spec fn standard(output_format: PixelFormat) -> RenderTargetDescription {
        RenderTargetDescription {
            color: AttachmentDescription {
                load: LoadOp::Clear,
                store: StoreOp::Store,
                format: output_format,
                samples: 1,
            },
            depth: AttachmentDescription {
                load: LoadOp::Clear,
                store: StoreOp::DontCare,
                format: PixelFormat::D16Unorm,
                samples: 1,
            },
        }
    }

    /// Builds the fixed layout: color cleared and stored, depth cleared and
    /// discarded, single-sampled.
    pub fn new(output_format: PixelFormat) -> (r: RenderTargetDescription)
        ensures
            r == Self::standard(output_format),
    {
        RenderTargetDescription {
            color: AttachmentDescription {
                load: LoadOp::Clear,
                store: StoreOp::Store,
                format: output_format,
                samples: 1,
            },
            depth: AttachmentDescription {
                load: LoadOp::Clear,
                store: StoreOp::DontCare,
                format: PixelFormat::D16Unorm,
                samples: 1,
            },
        }
    }
}

/// The negotiated set of presentable images: a generation counter, the
/// current dimensions, the image count and the color format. Replaced
/// wholesale on resize or invalidation.
#[derive(Clone, Copy, Debug, PartialEq, Eq, Structural)]
pub struct SurfaceTarget {
    /// Bumped by one on every successful recreation.
    pub generation: u64,
    pub width: u32,
    pub height: u32,
    /// Number of presentable images, at least one.
    pub image_count: usize,
    /// The negotiated color format.
    pub format: PixelFormat,
}

impl SurfaceTarget {
    /// A usable surface has at least one image and nonzero dimensions.
    pub open spec fn well_formed(self) -> bool {
        &&& self.image_count >= 1
        &&& self.width >= 1
        &&& self.height >= 1
    }
}

/// The transient depth image, sized to the surface; recreated whenever the
/// dimensions change.
#[derive(Clone, Copy, Debug, PartialEq, Eq, Structural)]
pub struct DepthBuffer {
    pub width: u32,
    pub height: u32,
}

/// One framebuffer: the binding of image `image_index` plus the depth
/// buffer to the render-target description, tagged with the surface
/// generation it was built for.
#[derive(Clone, Copy, Debug, PartialEq, Eq, Structural)]
pub struct Framebuffer {
    /// The surface generation this binding was built for.
    pub generation: u64,
    /// The swapchain image bound as the color attachment.
    pub image_index: usize,
    pub width: u32,
    pub height: u32,
}

/// One framebuffer slot per swapchain image index. A `None` or stale slot
/// is rebuilt lazily on access; the cache size always equals the current
/// image count.
#[derive(Debug)]
pub struct FramebufferCache {
    pub slots: Vec<Option<Framebuffer>>,
}

impl FramebufferCache {
    /// The framebuffer every access must yield for image `i` of `target`.
    pub open spec fn built_for(target: SurfaceTarget, i: int) -> Framebuffer {
        Framebuffer {
            generation: target.generation,
            image_index: i as usize,
            width: target.width,
            height: target.height,
        }
    }

    /// Whether slot `i` already holds the binding for the current target.
    pub open spec fn slot_fresh(self, target: SurfaceTarget, i: int) -> bool {
        self.slots@[i] == Some(Self::built_for(target, i))
    }

    /// A cache sized for `image_count` images, all slots pending rebuild.
    pub fn stale(image_count: usize) -> (c: FramebufferCache)
        ensures
            c.slots@.len() == image_count,
            forall|i: int| 0 <= i < image_count ==> c.slots@[i] is None,
    {
        let mut slots: Vec<Option<Framebuffer>> = Vec::new();
        let mut i: usize = 0;
        while i < image_count
            invariant
                i <= image_count,
                slots@.len() == i,
                forall|j: int| 0 <= j < i ==> slots@[j] is None,
            decreases image_count - i,
        {
            slots.push(None);
            i += 1;
        }
        FramebufferCache { slots }
    }

    /// Returns the framebuffer for image `i`, rebuilding the slot if it is
    /// empty or was built for a stale generation; a fresh slot is reused
    /// unchanged.
    pub fn framebuffer_for(&mut self, target: &SurfaceTarget, i: usize) -> (fb: Framebuffer)
        requires
            old(self).slots@.len() == target.image_count,
            i < target.image_count,
        ensures
            fb == Self::built_for(*target, i as int),
            final(self).slots@ == old(self).slots@.update(i as int, Some(fb)),
            old(self).slot_fresh(*target, i as int) ==> final(self).slots@ =~= old(self).slots@,
    {
        let wanted = Framebuffer {
            generation: target.generation,
            image_index: i,
            width: target.width,
            height: target.height,
        };
        match self.slots[i] {
            Some(fb) if fb.generation == target.generation && fb.image_index == i
                && fb.width == target.width && fb.height == target.height => {
                proof {
                    assert(self.slots@ =~= self.slots@.update(i as int, Some(fb)));
                }
                fb
            }
            _ => {
                self.slots[i] = Some(wanted);
                wanted
            }
        }
    }
}

} // verus!
