//! Recording the command buffers: one per swapchain image, recorded once
//! and submitted again every time its image comes up.

use vstd::prelude::*;
use crate::gpu::{rejection, reject, Call, ClearColor, Command, IndexType, Reply, Step};
use crate::renderer::{RendererView, VulkanRenderer};

verus! {

/// The calls that record one command buffer, in order.
#[derive(Clone, Copy, Debug, PartialEq, Eq)]
pub enum RecordStep {
    Begin,
    BeginRenderPass,
    BindPipeline,
    BindVertexBuffer,
    BindIndexBuffer,
    Draw,
    EndRenderPass,
    End,
}

impl RecordStep {
    /// The step after this one, if the command buffer is not finished.
    pub open spec fn successor(self) -> Option<RecordStep> {
        match self {
            RecordStep::Begin => Some(RecordStep::BeginRenderPass),
            RecordStep::BeginRenderPass => Some(RecordStep::BindPipeline),
            RecordStep::BindPipeline => Some(RecordStep::BindVertexBuffer),
            RecordStep::BindVertexBuffer => Some(RecordStep::BindIndexBuffer),
            RecordStep::BindIndexBuffer => Some(RecordStep::Draw),
            RecordStep::Draw => Some(RecordStep::EndRenderPass),
            RecordStep::EndRenderPass => Some(RecordStep::End),
            RecordStep::End => None,
        }
    }

    fn next(self) -> (r: Option<RecordStep>)
        ensures
            r == self.successor(),
    {
        match self {
            RecordStep::Begin => Some(RecordStep::BeginRenderPass),
            RecordStep::BeginRenderPass => Some(RecordStep::BindPipeline),
            RecordStep::BindPipeline => Some(RecordStep::BindVertexBuffer),
            RecordStep::BindVertexBuffer => Some(RecordStep::BindIndexBuffer),
            RecordStep::BindIndexBuffer => Some(RecordStep::Draw),
            RecordStep::Draw => Some(RecordStep::EndRenderPass),
            RecordStep::EndRenderPass => Some(RecordStep::End),
            RecordStep::End => None,
        }
    }
}

/// Where the recording of the command buffers stands.
#[derive(Clone, Copy, Debug, PartialEq, Eq)]
pub struct Recording {
    /// The swapchain image whose command buffer is being recorded.
    pub image: usize,
    pub step: RecordStep,
}

/// The command that `step` records for swapchain image `image`; the steps
/// that open and close the command buffer record none.
pub open spec fn recorded_command(renderer: RendererView, image: int, step: RecordStep) -> Option<
    Command,
> {
    match step {
        RecordStep::Begin => None,
        RecordStep::BeginRenderPass => Some(
            Command::BeginRenderPass {
                render_pass: renderer.render_pass,
                framebuffer: renderer.swapchain.framebuffers[image],
                extent: renderer.swapchain.extent,
                clear: ClearColor::OpaqueBlack,
            },
        ),
        RecordStep::BindPipeline => Some(
            Command::BindPipeline { pipeline: renderer.graphics_pipeline.pipeline },
        ),
        RecordStep::BindVertexBuffer => Some(
            Command::BindVertexBuffer {
                binding: 0,
                buffer: renderer.vertex_buffer.handle,
                offset: 0,
            },
        ),
        RecordStep::BindIndexBuffer => Some(
            Command::BindIndexBuffer {
                buffer: renderer.index_buffer.handle,
                offset: 0,
                index_type: IndexType::Uint32,
            },
        ),
        RecordStep::Draw => Some(
            Command::DrawIndexed {
                index_count: renderer.model_index_count,
                instance_count: 1,
                first_index: 0,
                vertex_offset: 0,
                first_instance: 0,
            },
        ),
        RecordStep::EndRenderPass => Some(Command::EndRenderPass),
        RecordStep::End => None,
    }
}

/// The call of `step` for swapchain image `image`. The command buffer is
/// begun without the one-time-submit mark, for it is submitted many times.
pub open spec fn record_call(renderer: RendererView, image: int, step: RecordStep) -> Call {
    let command_buffer = renderer.graphics_command_buffers[image];
    match recorded_command(renderer, image, step) {
        Some(command) => Call::Record { command_buffer, command },
        None => if step is Begin {
            Call::BeginCommandBuffer { command_buffer, one_time_submit: false }
        } else {
            Call::EndCommandBuffer { command_buffer }
        },
    }
}

impl Recording {
    /// The image has a command buffer.
    pub open spec fn well_formed(self, renderer: RendererView) -> bool {
        self.image < renderer.graphics_command_buffers.len()
    }

    /// The call whose reply this machine waits for.
    pub open spec fn pending(self, renderer: RendererView) -> Call {
        record_call(renderer, self.image as int, self.step)
    }

    /// Where recording stands when it is about to begin the command buffer
    /// of `image`: done when there is no such image.
    pub open spec fn from_image(renderer: RendererView, image: int) -> Step<Recording, ()> {
        if image < renderer.graphics_command_buffers.len() {
            let machine = Recording { image: image as usize, step: RecordStep::Begin };
            Step::Next(machine, machine.pending(renderer))
        } else {
            Step::Done(())
        }
    }

    /// What follows when the pending call is answered with `reply`.
    pub open spec fn resumed(self, reply: Reply, renderer: RendererView) -> Step<Recording, ()> {
        match reply {
            Reply::Done => match self.step.successor() {
                Some(step) => {
                    let machine = Recording { image: self.image, step };
                    Step::Next(machine, machine.pending(renderer))
                },
                None => Self::from_image(renderer, self.image + 1),
            },
            _ => Step::Failed(rejection(self.pending(renderer), reply)),
        }
    }
}

impl VulkanRenderer {
    /// Whether the image of `recording` has a command buffer.
    pub fn is_recording(&self, recording: &Recording) -> (r: bool)
        ensures
            r == recording.well_formed(self@),
    {
        recording.image < self.graphics_command_buffers.len()
    }

    fn record(&self, image: usize, step: RecordStep) -> (c: Call)
        requires
            self@.well_formed(),
            image < self.graphics_command_buffers@.len(),
        ensures
            c == record_call(self@, image as int, step),
    {
        let command_buffer = self.graphics_command_buffers[image];
        match step {
            RecordStep::Begin => Call::BeginCommandBuffer { command_buffer, one_time_submit: false },
            RecordStep::BeginRenderPass => Call::Record {
                command_buffer,
                command: Command::BeginRenderPass {
                    render_pass: self.render_pass,
                    framebuffer: self.swapchain.framebuffers[image],
                    extent: self.swapchain.extent,
                    clear: ClearColor::OpaqueBlack,
                },
            },
            RecordStep::BindPipeline => Call::Record {
                command_buffer,
                command: Command::BindPipeline { pipeline: self.graphics_pipeline.pipeline },
            },
            RecordStep::BindVertexBuffer => Call::Record {
                command_buffer,
                command: Command::BindVertexBuffer {
                    binding: 0,
                    buffer: self.vertex_buffer.handle,
                    offset: 0,
                },
            },
            RecordStep::BindIndexBuffer => Call::Record {
                command_buffer,
                command: Command::BindIndexBuffer {
                    buffer: self.index_buffer.handle,
                    offset: 0,
                    index_type: IndexType::Uint32,
                },
            },
            RecordStep::Draw => Call::Record {
                command_buffer,
                command: Command::DrawIndexed {
                    index_count: self.model_index_count,
                    instance_count: 1,
                    first_index: 0,
                    vertex_offset: 0,
                    first_instance: 0,
                },
            },
            RecordStep::EndRenderPass => Call::Record {
                command_buffer,
                command: Command::EndRenderPass,
            },
            RecordStep::End => Call::EndCommandBuffer { command_buffer },
        }
    }

    fn record_from(&self, image: usize) -> (r: Step<Recording, ()>)
        requires
            self@.well_formed(),
        ensures
            r == Recording::from_image(self@, image as int),
            r matches Step::Next(machine, _) ==> machine.well_formed(self@),
    {
        if image < self.graphics_command_buffers.len() {
            let call = self.record(image, RecordStep::Begin);
            Step::Next(Recording { image, step: RecordStep::Begin }, call)
        } else {
            Step::Done(())
        }
    }

    /// Starts the recording of all command buffers, one swapchain image
    /// after the other.
    pub fn fill_command_buffers(&self) -> (r: Step<Recording, ()>)
        requires
            self@.well_formed(),
        ensures
            r == Recording::from_image(self@, 0),
            r matches Step::Next(machine, _) ==> machine.well_formed(self@),
    {
        self.record_from(0)
    }

    /// Takes the reply to the pending call of `recording` and says what to
    /// do next.
    pub fn resume_recording(&self, recording: Recording, reply: Reply) -> (r: Step<Recording, ()>)
        requires
            self@.well_formed(),
            recording.well_formed(self@),
        ensures
            r == recording.resumed(reply, self@),
            r matches Step::Next(machine, _) ==> machine.well_formed(self@),
    {
        match reply {
            Reply::Done => match recording.step.next() {
                Some(step) => {
                    let call = self.record(recording.image, step);
                    Step::Next(Recording { image: recording.image, step }, call)
                },
                None => {
                    let count = self.graphics_command_buffers.len();
                    self.record_from(recording.image + 1)
                },
            },
            other => Step::Failed(reject(self.record(recording.image, recording.step), &other)),
        }
    }
}

/// The command buffers of two images hold the same commands but for the
/// framebuffer the render pass begins on: each draws the same indices once
/// from the same vertex and index buffer.
pub proof fn lemma_command_buffers_differ_in_framebuffer_only(
    renderer: RendererView,
    first: int,
    second: int,
    step: RecordStep,
)
    ensures
        step != RecordStep::BeginRenderPass ==> recorded_command(renderer, first, step)
            == recorded_command(renderer, second, step),
        recorded_command(renderer, first, RecordStep::BeginRenderPass) == recorded_command(
            renderer,
            second,
            RecordStep::BeginRenderPass,
        ) <==> renderer.swapchain.framebuffers[first] == renderer.swapchain.framebuffers[second],
        recorded_command(renderer, first, RecordStep::Draw) == Some(
            Command::DrawIndexed {
                index_count: renderer.model_index_count,
                instance_count: 1,
                first_index: 0,
                vertex_offset: 0,
                first_instance: 0,
            },
        ),
{
}

/// Recording goes through the images in order and through the steps of
/// each in order: after the last step of an image comes the first of the
/// next, and after the last image recording is done.
pub proof fn lemma_recording_order(recording: Recording, renderer: RendererView)
    requires
        recording.well_formed(renderer),
    ensures
        match recording.resumed(Reply::Done, renderer) {
            Step::Next(next, call) => {
                &&& call == next.pending(renderer)
                &&& next.well_formed(renderer)
                &&& match recording.step.successor() {
                    Some(step) => next == (Recording { image: recording.image, step }),
                    None => next == (Recording {
                        image: (recording.image + 1) as usize,
                        step: RecordStep::Begin,
                    }),
                }
            },
            Step::Done(_) => recording.step == RecordStep::End && recording.image + 1
                == renderer.graphics_command_buffers.len(),
            Step::Failed(_) => false,
        },
{
}

} // verus!
