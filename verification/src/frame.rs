//! The frame orchestrator: a per-frame pass state machine.
//!
//! A frame is created with the previous frame's completion token, the
//! acquire token of its image, and the framebuffer bound to that image.
//! `next_pass` then yields the deferred pass, the text pass and the
//! finished pass, strictly in that order, and nothing afterwards. The
//! deferred-to-text transition closes the render pass; the
//! text-to-finished transition finalizes the recording and consumes both
//! tokens into one single-use execution token.

use vstd::prelude::*;

use crate::record::{OverlayDraw, RecordedCommand, Recording, SecondaryBatch};
use crate::target::{Framebuffer, PixelFormat, RenderTargetDescription};
use crate::token::{AcquireToken, CompletionToken, ExecutionToken};

verus! {

/// Where a frame stands in its pass sequence.
#[derive(Clone, Copy, Debug, PartialEq, Eq, Structural)]
pub enum PassStage {
    /// Created; no pass handed out yet.
    Init,
    /// The deferred pass was handed out.
    Deferred,
    /// The text pass was handed out; the render pass is closed.
    Text,
    /// The finished pass was handed out; the recording is finalized.
    Finished,
    /// Nothing further will be handed out.
    Done,
}

/// The stage after one more `next_pass` call; `Done` absorbs.
pub open spec fn stage_after(s: PassStage) -> PassStage {
    match s {
        PassStage::Init => PassStage::Deferred,
        PassStage::Deferred => PassStage::Text,
        PassStage::Text => PassStage::Finished,
        PassStage::Finished => PassStage::Done,
        PassStage::Done => PassStage::Done,
    }
}

/// Shared description of the render target; stateless between frames.
#[derive(Clone, Copy, Debug, PartialEq, Eq, Structural)]
pub struct FrameSystem {
    /// The fixed attachment layout every frame renders into.
    pub render_target: RenderTargetDescription,
}

/// A handle to the deferred subpass of the render target.
#[derive(Clone, Copy, Debug, PartialEq, Eq, Structural)]
pub struct SubpassRef {
    /// Index of the subpass within the render pass.
    pub index: u32,
}

impl FrameSystem {
    /// Builds the system around the fixed render-target layout for the
    /// negotiated output format.
    pub fn new(output_format: PixelFormat) -> (s: FrameSystem)
        ensures
            s.render_target == RenderTargetDescription::standard(output_format),
    {
        FrameSystem { render_target: RenderTargetDescription::new(output_format) }
    }

    /// The subpass that deferred draw batches are built against.
    pub fn deferred_render_pass(&self) -> (s: SubpassRef)
        ensures
            s.index == 0,
    {
        SubpassRef { index: 0 }
    }

    /// Begins a frame: joins the previous frame's completion token with
    /// the acquire token and opens the render pass on the framebuffer of
    /// the acquired image.
    pub fn frame(&self, previous: CompletionToken, acquire: AcquireToken, framebuffer: Framebuffer)
        -> (f: Frame)
        requires
            previous.frames == acquire.frame,
            acquire.image_index == framebuffer.image_index,
        ensures
            f.wf(),
            f.stage is Init,
            f.frame_no == acquire.frame,
            f.framebuffer == framebuffer,
            f.recording.state is RenderPassOpen,
            f.recording.commands@ == Seq::<RecordedCommand>::empty(),
            f.previous == Some(previous),
            f.acquire == Some(acquire),
    {
        Frame {
            frame_no: acquire.frame,
            stage: PassStage::Init,
            framebuffer,
            recording: Recording::begin(),
            previous: Some(previous),
            acquire: Some(acquire),
        }
    }
}

/// One live frame: its pass stage, target framebuffer, in-progress
/// command recording, and the token chain it was begun with.
#[derive(Debug)]
pub struct Frame {
    /// The frame number (0-based), taken from the acquire token.
    pub frame_no: u64,
    /// Where the pass sequence stands.
    pub stage: PassStage,
    /// The framebuffer of the acquired image.
    pub framebuffer: Framebuffer,
    /// The command recording being built.
    pub recording: Recording,
    /// The previous frame's completion token; consumed at finalization.
    pub previous: Option<CompletionToken>,
    /// The acquire token of this frame's image; consumed at finalization.
    pub acquire: Option<AcquireToken>,
}

impl Frame {
    /// The frame's invariant: the recording state follows the stage, and
    /// both tokens are held, matching this frame, until the finished pass
    /// consumes them.
    pub open spec fn wf(self) -> bool {
        &&& match self.stage {
            PassStage::Init | PassStage::Deferred => self.recording.state is RenderPassOpen,
            PassStage::Text => self.recording.state is RenderPassClosed,
            PassStage::Finished | PassStage::Done => self.recording.state is Finalized,
        }
        &&& match self.stage {
            PassStage::Init | PassStage::Deferred | PassStage::Text => {
                &&& self.previous matches Some(p) && p.frames == self.frame_no
                &&& self.acquire matches Some(a) && a.frame == self.frame_no
                    && a.image_index == self.framebuffer.image_index
            },
            PassStage::Finished | PassStage::Done => {
                &&& self.previous is None
                &&& self.acquire is None
            },
        }
    }

    /// The frame after one more `next_pass` call.
    pub open spec fn spec_next_state(self) -> Frame {
        match self.stage {
            PassStage::Init => Frame { stage: PassStage::Deferred, ..self },
            PassStage::Deferred => Frame {
                stage: PassStage::Text,
                recording: Recording {
                    state: crate::record::RecordingState::RenderPassClosed,
                    ..self.recording
                },
                ..self
            },
            PassStage::Text => Frame {
                stage: PassStage::Finished,
                recording: Recording {
                    state: crate::record::RecordingState::Finalized,
                    ..self.recording
                },
                previous: None,
                acquire: None,
                ..self
            },
            PassStage::Finished => Frame { stage: PassStage::Done, ..self },
            PassStage::Done => self,
        }
    }

    /// The pass one more `next_pass` call yields. Depends only on the
    /// stage, the frame number and the framebuffer — never on how many
    /// commands were recorded.
    pub open spec fn spec_pass(self) -> Option<Pass> {
        match self.stage {
            PassStage::Init => Some(
                Pass::Deferred(
                    DrawPass {
                        frame_no: self.frame_no,
                        width: self.framebuffer.width,
                        height: self.framebuffer.height,
                    },
                ),
            ),
            PassStage::Deferred => Some(Pass::Text(TextPass { frame_no: self.frame_no })),
            PassStage::Text => Some(
                Pass::Finished(
                    FinishedPass {
                        token: Some(
                            ExecutionToken {
                                frame: self.frame_no,
                                image_index: self.framebuffer.image_index,
                            },
                        ),
                    },
                ),
            ),
            PassStage::Finished => None,
            PassStage::Done => None,
        }
    }

    /// Yields the next unconsumed pass, or nothing once the finished pass
    /// has been handed out. Closing the render pass and finalizing the
    /// recording happen on the corresponding transitions and are
    /// irreversible.
    pub fn next_pass(&mut self) -> (p: Option<Pass>)
        requires
            old(self).wf(),
        ensures
            final(self).wf(),
            *final(self) == old(self).spec_next_state(),
            p == old(self).spec_pass(),
    {
        match self.stage {
            PassStage::Init => {
                self.stage = PassStage::Deferred;
                Some(
                    Pass::Deferred(
                        DrawPass {
                            frame_no: self.frame_no,
                            width: self.framebuffer.width,
                            height: self.framebuffer.height,
                        },
                    ),
                )
            }
            PassStage::Deferred => {
                self.recording.end_render_pass();
                self.stage = PassStage::Text;
                Some(Pass::Text(TextPass { frame_no: self.frame_no }))
            }
            PassStage::Text => {
                self.recording.finalize();
                // The join: both tokens are consumed, by value, into the
                // one execution token of this frame.
                let _previous = self.previous.take();
                let _acquire = self.acquire.take();
                let token = ExecutionToken {
                    frame: self.frame_no,
                    image_index: self.framebuffer.image_index,
                };
                self.stage = PassStage::Finished;
                Some(Pass::Finished(FinishedPass { token: Some(token) }))
            }
            PassStage::Finished => {
                self.stage = PassStage::Done;
                None
            }
            PassStage::Done => None,
        }
    }
}

/// One stage of a frame, handed out by `next_pass`.
#[derive(Debug, PartialEq, Eq)]
pub enum Pass {
    /// Accepts secondary draw batches bound to the deferred subpass.
    Deferred(DrawPass),
    /// Accepts the overlay text draw.
    Text(TextPass),
    /// Carries the frame's single-use execution token.
    Finished(FinishedPass),
}

/// The deferred pass: a view into the open render pass of one frame.
#[derive(Clone, Copy, Debug, PartialEq, Eq, Structural)]
pub struct DrawPass {
    /// The frame this pass belongs to.
    pub frame_no: u64,
    /// Target viewport width (framebuffer width).
    pub width: u32,
    /// Target viewport height (framebuffer height).
    pub height: u32,
}

impl DrawPass {
    /// Appends one secondary draw batch to the frame's open render pass.
    /// The stage does not move: any number of batches may follow.
    pub fn execute(&self, frame: &mut Frame, batch: SecondaryBatch)
        requires
            old(frame).wf(),
            old(frame).stage is Deferred,
            self.frame_no == old(frame).frame_no,
        ensures
            final(frame).wf(),
            final(frame).stage == old(frame).stage,
            final(frame).frame_no == old(frame).frame_no,
            final(frame).framebuffer == old(frame).framebuffer,
            final(frame).previous == old(frame).previous,
            final(frame).acquire == old(frame).acquire,
            final(frame).recording.state == old(frame).recording.state,
            final(frame).recording.commands@ == old(frame).recording.commands@.push(
                RecordedCommand::Secondary(batch),
            ),
            final(frame).spec_pass() == old(frame).spec_pass(),
    {
        frame.recording.append(RecordedCommand::Secondary(batch));
    }

    /// The target viewport dimensions, for pipeline setup.
    pub fn viewport_dimensions(&self) -> (d: [u32; 2])
        ensures
            d@[0] == self.width,
            d@[1] == self.height,
    {
        [self.width, self.height]
    }
}

/// The text renderer collaborator, reduced to what this system consumes:
/// queueing overlay text to be drawn.
#[derive(Debug)]
pub struct TextRenderer {
    /// The overlay strings queued so far, in order.
    pub queued: Vec<String>,
}

impl TextRenderer {
    /// A renderer with nothing queued.
    pub fn new() -> (r: TextRenderer)
        ensures
            r.queued@ == Seq::<String>::empty(),
    {
        TextRenderer { queued: Vec::new() }
    }

    /// Queues one overlay string.
    pub fn queue_text(&mut self, text: &String)
        ensures
            final(self).queued@ == old(self).queued@.push(*text),
    {
        self.queued.push(text.clone());
    }
}

/// The text pass: appends the overlay draw after the closed render pass.
#[derive(Clone, Copy, Debug, PartialEq, Eq, Structural)]
pub struct TextPass {
    /// The frame this pass belongs to.
    pub frame_no: u64,
}

impl TextPass {
    /// Queues `text` on the renderer and appends the overlay draw, keyed
    /// by the frame's target image index.
    pub fn write(
        &self,
        frame: &mut Frame,
        text: &String,
        renderer: &mut TextRenderer,
        image_index: usize,
    )
        requires
            old(frame).wf(),
            old(frame).stage is Text,
            self.frame_no == old(frame).frame_no,
            image_index == old(frame).framebuffer.image_index,
        ensures
            final(frame).wf(),
            final(frame).stage == old(frame).stage,
            final(frame).frame_no == old(frame).frame_no,
            final(frame).framebuffer == old(frame).framebuffer,
            final(frame).previous == old(frame).previous,
            final(frame).acquire == old(frame).acquire,
            final(frame).recording.state == old(frame).recording.state,
            final(frame).recording.commands@ == old(frame).recording.commands@.push(
                RecordedCommand::Overlay(OverlayDraw { image_index }),
            ),
            final(frame).spec_pass() == old(frame).spec_pass(),
            final(renderer).queued@ == old(renderer).queued@.push(*text),
    {
        renderer.queue_text(text);
        frame.recording.append(RecordedCommand::Overlay(OverlayDraw { image_index }));
    }
}

/// The finished pass: holds the frame's execution token, consumable
/// exactly once.
#[derive(Debug, PartialEq, Eq)]
pub struct FinishedPass {
    /// The single-use token, present until consumed.
    pub token: Option<ExecutionToken>,
}

impl FinishedPass {
    /// Hands out the execution token. The first call yields it; every
    /// later call deterministically yields nothing.
    pub fn take_token(&mut self) -> (t: Option<ExecutionToken>)
        ensures
            t == old(self).token,
            final(self).token is None,
    {
        self.token.take()
    }
}

/// Law: for every valid frame, the passes come as deferred, then text,
/// then finished, then none — and none ever after — and which pass comes
/// next never depends on the commands recorded so far, so any number of
/// deferred draw batches leaves the sequence unchanged.
pub proof fn lemma_pass_sequence(f: Frame)
    requires
        f.wf(),
        f.stage is Init,
    ensures
        f.spec_pass() matches Some(Pass::Deferred(_)),
        f.spec_next_state().spec_pass() matches Some(Pass::Text(_)),
        f.spec_next_state().spec_next_state().spec_pass() matches Some(Pass::Finished(_)),
        f.spec_next_state().spec_next_state().spec_next_state().spec_pass() is None,
        forall|g: Frame|
            g.stage is Done ==> #[trigger] g.spec_next_state() == g && g.spec_pass() is None,
        f.spec_next_state().spec_next_state().spec_next_state().spec_next_state().stage is Done,
        forall|g1: Frame, g2: Frame|
            g1.stage == g2.stage && g1.frame_no == g2.frame_no && g1.framebuffer == g2.framebuffer
                ==> #[trigger] g1.spec_pass() == #[trigger] g2.spec_pass(),
{
}

} // verus!
