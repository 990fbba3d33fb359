//! Model of one frame's command recording.
//!
//! A recording passes through three states: the render pass is open (only
//! secondary draw batches may be appended), the render pass is closed
//! (only primary-level overlay draws may be appended), and finalized
//! (nothing may be appended). The two kinds of recorded command form one
//! tagged union consumed by a single append operation.

use vstd::prelude::*;

verus! {

/// A batch of secondary draw commands, identified by an opaque handle.
#[derive(Clone, Copy, Debug, PartialEq, Eq, Structural)]
pub struct SecondaryBatch {
    /// Opaque identifier of the externally built batch.
    pub handle: u64,
}

/// A primary-level overlay draw, keyed by the target image index.
#[derive(Clone, Copy, Debug, PartialEq, Eq, Structural)]
pub struct OverlayDraw {
    /// The swapchain image the overlay is drawn onto.
    pub image_index: usize,
}

/// The two kinds of command a recording accepts.
#[derive(Clone, Copy, Debug, PartialEq, Eq, Structural)]
pub enum RecordedCommand {
    /// A secondary batch executed inside the open render pass.
    Secondary(SecondaryBatch),
    /// An overlay draw appended after the render pass was closed.
    Overlay(OverlayDraw),
}

/// Where the recording stands in its lifecycle.
#[derive(Clone, Copy, Debug, PartialEq, Eq, Structural)]
pub enum RecordingState {
    RenderPassOpen,
    RenderPassClosed,
    Finalized,
}

/// One frame's in-progress command recording.
#[derive(Debug)]
pub struct Recording {
    /// Lifecycle state; transitions are irreversible.
    pub state: RecordingState,
    /// Commands appended so far, in order.
    pub commands: Vec<RecordedCommand>,
}

impl Recording {
    /// Whether a command of this kind is accepted in the current state.
    pub open spec fn accepts(self, cmd: RecordedCommand) -> bool {
        match cmd {
            RecordedCommand::Secondary(_) => self.state is RenderPassOpen,
            RecordedCommand::Overlay(_) => self.state is RenderPassClosed,
        }
    }

    /// Begins a fresh recording with an open render pass and no commands.
    pub fn begin() -> (r: Recording)
        ensures
            r.state is RenderPassOpen,
            r.commands@ == Seq::<RecordedCommand>::empty(),
    {
        Recording { state: RecordingState::RenderPassOpen, commands: Vec::new() }
    }

    /// Appends one command; the single entry point for both kinds.
    pub fn append(&mut self, cmd: RecordedCommand)
        requires
            old(self).accepts(cmd),
        ensures
            final(self).state == old(self).state,
            final(self).commands@ == old(self).commands@.push(cmd),
    {
        self.commands.push(cmd);
    }

    /// Closes the render pass; irreversible.
    pub fn end_render_pass(&mut self)
        requires
            old(self).state is RenderPassOpen,
        ensures
            final(self).state is RenderPassClosed,
            final(self).commands == old(self).commands,
    {
        self.state = RecordingState::RenderPassClosed;
    }

    /// Finalizes the recording; nothing may be appended afterwards.
    pub fn finalize(&mut self)
        requires
            old(self).state is RenderPassClosed,
        ensures
            final(self).state is Finalized,
            final(self).commands == old(self).commands,
    {
        self.state = RecordingState::Finalized;
    }
}

} // verus!
