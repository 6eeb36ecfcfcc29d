//! One frame: acquire an image, wait for the slot's fence, submit the
//! image's command buffer, present.

use vstd::prelude::*;
use crate::gpu::{rejection, reject, Call, PipelineStage, RenderError, Reply, Step, SubmitSync};
use crate::renderer::{RendererView, VulkanRenderer};
use crate::swapchain::SwapchainView;

verus! {

/// How far a frame has come.
#[derive(Clone, Copy, Debug, PartialEq, Eq)]
pub enum FrameStage {
    /// The next image is being acquired.
    Acquiring,
    /// The CPU waits for the fence of the slot.
    Waiting { image_index: u32 },
    /// The fence, seen signaled, is being reset.
    Resetting { image_index: u32 },
    /// The command buffer of the acquired image is being submitted.
    Submitting { image_index: u32 },
    /// The image is being presented.
    Presenting { image_index: u32 },
}

/// A frame in the making. `slot` picks the semaphores and the fence;
/// the acquired image index picks the command buffer. The two cycle
/// independently.
#[derive(Clone, Copy, Debug, PartialEq, Eq)]
pub struct Frame {
    pub slot: usize,
    pub stage: FrameStage,
}

/// The counter of the frame after the one that used `current`.
pub open spec fn next_slot(current: int, image_count: int) -> int {
    (current + 1) % image_count
}

/// The counter after `frames` more frames.
pub open spec fn slot_after(current: int, image_count: int, frames: nat) -> int
    decreases frames,
{
    if frames == 0 {
        current
    } else {
        next_slot(slot_after(current, image_count, (frames - 1) as nat), image_count)
    }
}

impl Frame {
    /// The slot exists, and so does the command buffer of the acquired image.
    pub open spec fn well_formed(self, renderer: RendererView) -> bool {
        &&& self.slot < renderer.swapchain.image_count
        &&& match self.stage {
            FrameStage::Acquiring => true,
            FrameStage::Waiting { image_index } => image_index
                < renderer.graphics_command_buffers.len(),
            FrameStage::Resetting { image_index } => image_index
                < renderer.graphics_command_buffers.len(),
            FrameStage::Submitting { image_index } => image_index
                < renderer.graphics_command_buffers.len(),
            FrameStage::Presenting { image_index } => image_index
                < renderer.graphics_command_buffers.len(),
        }
    }

    /// The semaphores and the fence of this frame's slot.
    pub open spec fn sync(self, renderer: RendererView) -> SubmitSync {
        SubmitSync {
            wait: renderer.swapchain.image_available[self.slot as int],
            wait_stage: PipelineStage::ColorAttachmentOutput,
            signal: renderer.swapchain.rendering_finished[self.slot as int],
            fence: renderer.swapchain.may_begin_drawing[self.slot as int],
        }
    }

    /// The call whose reply this machine waits for.
    pub open spec fn pending(self, renderer: RendererView) -> Call {
        let sync = self.sync(renderer);
        match self.stage {
            FrameStage::Acquiring => Call::AcquireNextImage {
                swapchain: renderer.swapchain.swapchain,
                semaphore: sync.wait,
                timeout: u64::MAX,
            },
            FrameStage::Waiting { image_index } => Call::WaitForFence {
                fence: sync.fence,
                timeout: u64::MAX,
            },
            FrameStage::Resetting { image_index } => Call::ResetFence { fence: sync.fence },
            FrameStage::Submitting { image_index } => Call::Submit {
                queue: renderer.graphics_queue,
                command_buffer: renderer.graphics_command_buffers[image_index as int],
                sync: Some(sync),
            },
            FrameStage::Presenting { image_index } => Call::Present {
                queue: renderer.graphics_queue,
                swapchain: renderer.swapchain.swapchain,
                image_index,
                wait: sync.signal,
            },
        }
    }

    /// This frame at another stage.
    pub open spec fn at(self, stage: FrameStage) -> Frame {
        Frame { stage, ..self }
    }

    /// The frame at `stage`, waiting for the reply to the call of that stage.
    pub open spec fn proceed(self, stage: FrameStage, renderer: RendererView) -> Step<Frame, ()> {
        Step::Next(self.at(stage), self.at(stage).pending(renderer))
    }

    /// What follows when the pending call is answered with `reply`.
    pub open spec fn resumed(self, reply: Reply, renderer: RendererView) -> Step<Frame, ()> {
        match (self.stage, reply) {
            (FrameStage::Acquiring, Reply::ImageIndex(image_index)) => if image_index
                < renderer.graphics_command_buffers.len() {
                self.proceed(FrameStage::Waiting { image_index }, renderer)
            } else {
                Step::Failed(RenderError::ImageIndexOutOfRange { index: image_index })
            },
            (FrameStage::Waiting { image_index }, Reply::Done) => self.proceed(
                FrameStage::Resetting { image_index },
                renderer,
            ),
            (FrameStage::Resetting { image_index }, Reply::Done) => self.proceed(
                FrameStage::Submitting { image_index },
                renderer,
            ),
            (FrameStage::Submitting { image_index }, Reply::Done) => self.proceed(
                FrameStage::Presenting { image_index },
                renderer,
            ),
            (FrameStage::Presenting { image_index }, Reply::Done) => Step::Done(()),
            _ => Step::Failed(rejection(self.pending(renderer), reply)),
        }
    }
}

impl Frame {
    /// The calls issued when the driver answers with `replies[at..]` in
    /// turn: the pending call first, then one call per reply for as long as
    /// the frame goes on.
    #[verifier::opaque]
    pub open spec fn calls(self, replies: Seq<Reply>, at: int, renderer: RendererView) -> Seq<Call>
        decreases replies.len() - at,
    {
        if 0 <= at < replies.len() {
            match self.resumed(replies[at], renderer) {
                Step::Next(next, _) => seq![self.pending(renderer)] + next.calls(
                    replies,
                    at + 1,
                    renderer,
                ),
                _ => seq![self.pending(renderer)],
            }
        } else {
            seq![self.pending(renderer)]
        }
    }

    /// How the frame ends when the driver answers with `replies[at..]` in
    /// turn, if it ends within them.
    #[verifier::opaque]
    pub open spec fn outcome(self, replies: Seq<Reply>, at: int, renderer: RendererView) -> Option<
        Result<(), RenderError>,
    >
        decreases replies.len() - at,
    {
        if 0 <= at < replies.len() {
            match self.resumed(replies[at], renderer) {
                Step::Next(next, _) => next.outcome(replies, at + 1, renderer),
                Step::Done(_) => Some(Ok(())),
                Step::Failed(e) => Some(Err(e)),
            }
        } else {
            None
        }
    }
}

impl VulkanRenderer {
    /// Whether the slot of `frame` exists, and the command buffer of the
    /// image it has acquired.
    pub fn is_drawing(&self, frame: &Frame) -> (r: bool)
        ensures
            r == frame.well_formed(self@),
    {
        let buffers = self.graphics_command_buffers.len();
        frame.slot < self.swapchain.image_count as usize && match frame.stage {
            FrameStage::Acquiring => true,
            FrameStage::Waiting { image_index } => (image_index as usize) < buffers,
            FrameStage::Resetting { image_index } => (image_index as usize) < buffers,
            FrameStage::Submitting { image_index } => (image_index as usize) < buffers,
            FrameStage::Presenting { image_index } => (image_index as usize) < buffers,
        }
    }

    fn frame_call(&self, frame: &Frame) -> (c: Call)
        requires
            self@.well_formed(),
            frame.well_formed(self@),
        ensures
            c == frame.pending(self@),
    {
        let sync = SubmitSync {
            wait: self.swapchain.image_available[frame.slot],
            wait_stage: PipelineStage::ColorAttachmentOutput,
            signal: self.swapchain.rendering_finished[frame.slot],
            fence: self.swapchain.may_begin_drawing[frame.slot],
        };
        match frame.stage {
            FrameStage::Acquiring => Call::AcquireNextImage {
                swapchain: self.swapchain.swapchain,
                semaphore: sync.wait,
                timeout: u64::MAX,
            },
            FrameStage::Waiting { image_index } => Call::WaitForFence {
                fence: sync.fence,
                timeout: u64::MAX,
            },
            FrameStage::Resetting { image_index } => Call::ResetFence { fence: sync.fence },
            FrameStage::Submitting { image_index } => Call::Submit {
                queue: self.graphics_queue,
                command_buffer: self.graphics_command_buffers[image_index as usize],
                sync: Some(sync),
            },
            FrameStage::Presenting { image_index } => Call::Present {
                queue: self.graphics_queue,
                swapchain: self.swapchain.swapchain,
                image_index,
                wait: sync.signal,
            },
        }
    }

    fn frame_advance(&self, frame: Frame, stage: FrameStage) -> (r: Step<Frame, ()>)
        requires
            self@.well_formed(),
            frame.at(stage).well_formed(self@),
        ensures
            r == frame.proceed(stage, self@),
            r matches Step::Next(machine, _) && machine.well_formed(self@),
    {
        let next = Frame { stage, ..frame };
        let call = self.frame_call(&next);
        Step::Next(next, call)
    }

    /// Answers a request to redraw. The frame counter moves on to the next
    /// slot and the frame starts by acquiring an image with that slot's
    /// semaphore. A swapchain without images draws nothing: the request is
    /// skipped and the counter stays.
    pub fn redraw_requested(&mut self) -> (r: Option<(Frame, Call)>)
        requires
            old(self)@.well_formed(),
        ensures
            final(self)@.well_formed(),
            old(self).swapchain.image_count == 0 ==> r is None && *final(self) == *old(self),
            old(self).swapchain.image_count > 0 ==> {
                &&& r matches Some(started)
                &&& started.0 == (Frame {
                    slot: final(self).swapchain.current_image,
                    stage: FrameStage::Acquiring,
                })
                &&& started.0.well_formed(final(self)@)
                &&& started.1 == started.0.pending(final(self)@)
            },
            old(self).swapchain.image_count > 0 ==> final(self).swapchain.current_image
                == next_slot(
                old(self).swapchain.current_image as int,
                old(self).swapchain.image_count as int,
            ),
            final(self)@ == (RendererView {
                swapchain: SwapchainView {
                    current_image: final(self).swapchain.current_image,
                    ..old(self).swapchain@
                },
                ..old(self)@
            }),
    {
        if self.swapchain.image_count > 0 {
            self.swapchain.current_image = (self.swapchain.current_image + 1)
                % self.swapchain.image_count as usize;
        }
        if self.swapchain.image_available.len() > 0 {
            let frame = Frame { slot: self.swapchain.current_image, stage: FrameStage::Acquiring };
            let call = self.frame_call(&frame);
            Some((frame, call))
        } else {
            None
        }
    }

    /// Takes the reply to the pending call of `frame` and says what to do
    /// next.
    pub fn resume_frame(&self, frame: Frame, reply: Reply) -> (r: Step<Frame, ()>)
        requires
            self@.well_formed(),
            frame.well_formed(self@),
        ensures
            r == frame.resumed(reply, self@),
            r matches Step::Next(machine, _) ==> machine.well_formed(self@),
    {
        match (frame.stage, &reply) {
            (FrameStage::Acquiring, Reply::ImageIndex(image_index)) => {
                if (*image_index as usize) < self.graphics_command_buffers.len() {
                    self.frame_advance(frame, FrameStage::Waiting { image_index: *image_index })
                } else {
                    Step::Failed(RenderError::ImageIndexOutOfRange { index: *image_index })
                }
            },
            (FrameStage::Waiting { image_index }, Reply::Done) => self.frame_advance(
                frame,
                FrameStage::Resetting { image_index },
            ),
            (FrameStage::Resetting { image_index }, Reply::Done) => self.frame_advance(
                frame,
                FrameStage::Submitting { image_index },
            ),
            (FrameStage::Submitting { image_index }, Reply::Done) => self.frame_advance(
                frame,
                FrameStage::Presenting { image_index },
            ),
            (FrameStage::Presenting { image_index }, Reply::Done) => Step::Done(()),
            _ => Step::Failed(reject(self.frame_call(&frame), &reply)),
        }
    }
}

/// A frame on which every call succeeds: the image is acquired with the
/// slot's first semaphore; the slot's fence is waited for and reset; the
/// command buffer of the acquired image is submitted, waiting on the first
/// semaphore and signaling the second semaphore and the fence; the image is
/// presented once the second semaphore is signaled.
pub proof fn lemma_frame_order(renderer: RendererView, slot: usize, image_index: u32)
    requires
        renderer.well_formed(),
        slot < renderer.swapchain.image_count,
        image_index < renderer.graphics_command_buffers.len(),
    ensures
        ({
            let frame = Frame { slot, stage: FrameStage::Acquiring };
            let sync = frame.sync(renderer);
            let replies = seq![
                Reply::ImageIndex(image_index),
                Reply::Done,
                Reply::Done,
                Reply::Done,
                Reply::Done,
            ];
            &&& frame.calls(replies, 0, renderer) == seq![
                Call::AcquireNextImage {
                    swapchain: renderer.swapchain.swapchain,
                    semaphore: renderer.swapchain.image_available[slot as int],
                    timeout: u64::MAX,
                },
                Call::WaitForFence {
                    fence: renderer.swapchain.may_begin_drawing[slot as int],
                    timeout: u64::MAX,
                },
                Call::ResetFence { fence: renderer.swapchain.may_begin_drawing[slot as int] },
                Call::Submit {
                    queue: renderer.graphics_queue,
                    command_buffer: renderer.graphics_command_buffers[image_index as int],
                    sync: Some(
                        SubmitSync {
                            wait: renderer.swapchain.image_available[slot as int],
                            wait_stage: PipelineStage::ColorAttachmentOutput,
                            signal: renderer.swapchain.rendering_finished[slot as int],
                            fence: renderer.swapchain.may_begin_drawing[slot as int],
                        },
                    ),
                },
                Call::Present {
                    queue: renderer.graphics_queue,
                    swapchain: renderer.swapchain.swapchain,
                    image_index,
                    wait: renderer.swapchain.rendering_finished[slot as int],
                },
            ]
            &&& frame.outcome(replies, 0, renderer) == Some(Ok::<(), RenderError>(()))
        }),
{
    let frame = Frame { slot, stage: FrameStage::Acquiring };
    let replies = seq![
        Reply::ImageIndex(image_index),
        Reply::Done,
        Reply::Done,
        Reply::Done,
        Reply::Done,
    ];
    reveal_with_fuel(Frame::calls, 7);
    reveal_with_fuel(Frame::outcome, 7);
    assert(frame.calls(replies, 0, renderer).len() == 5);
}

/// A frame submits only right after its slot's fence was reset, and resets
/// it only right after the wait on that same fence was answered: no
/// submission goes out against a slot whose fence was not seen signaled.
pub proof fn lemma_submit_only_after_wait(frame: Frame, reply: Reply, renderer: RendererView)
    ensures
        frame.resumed(reply, renderer) matches Step::Next(next, call) ==> {
            &&& next.slot == frame.slot
            &&& call == next.pending(renderer)
            &&& call is Submit <==> next.stage is Submitting
            &&& next.stage is Submitting ==> {
                &&& frame.stage is Resetting
                &&& reply is Done
                &&& frame.pending(renderer) == (Call::ResetFence {
                    fence: frame.sync(renderer).fence,
                })
                &&& call->Submit_sync == Some(frame.sync(renderer))
            }
            &&& next.stage is Resetting ==> {
                &&& frame.stage is Waiting
                &&& reply is Done
                &&& frame.pending(renderer) == (Call::WaitForFence {
                    fence: frame.sync(renderer).fence,
                    timeout: u64::MAX,
                })
            }
        },
{
}

/// However many of the swapchain's fences are unsignaled at some instant,
/// they are no more than the swapchain has images.
pub proof fn lemma_busy_fences_bounded(swapchain: SwapchainView, busy: Set<u64>)
    requires
        swapchain.well_formed(),
        busy.subset_of(swapchain.may_begin_drawing.to_set()),
    ensures
        busy.finite(),
        busy.len() <= swapchain.image_count,
{
    let fences = swapchain.may_begin_drawing;
    vstd::seq_lib::seq_to_set_is_finite(fences);
    fences.lemma_cardinality_of_set();
    vstd::set_lib::lemma_len_subset(busy, fences.to_set());
}

/// The frame counter cycles through the slots: `frames` requests to redraw
/// after it stood at `current`, it stands at `current + frames` modulo the
/// number of images.
pub proof fn lemma_slot_cycles(current: int, image_count: int, frames: nat)
    requires
        0 <= current < image_count,
    ensures
        slot_after(current, image_count, frames) == (current + frames) % image_count,
        0 <= slot_after(current, image_count, frames) < image_count,
    decreases frames,
{
    if frames == 0 {
        vstd::arithmetic::div_mod::lemma_small_mod(current as nat, image_count as nat);
    } else {
        lemma_slot_cycles(current, image_count, (frames - 1) as nat);
        vstd::arithmetic::div_mod::lemma_add_mod_noop(current + frames - 1, 1, image_count);
        if image_count == 1 {
            assert(slot_after(current, image_count, frames) == 0);
            assert((current + frames) % 1 == 0);
        } else {
            vstd::arithmetic::div_mod::lemma_small_mod(1, image_count as nat);
            assert(1int % image_count == 1);
            assert((((current + frames - 1) % image_count) + (1int % image_count)) % image_count
                == (current + frames - 1 + 1) % image_count);
        }
    }
}

} // verus!
