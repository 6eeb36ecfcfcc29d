//! The renderer: what it owns once it is running, and how it is shut down.

use vstd::prelude::*;
use crate::buffer::Buffer;
use crate::gpu::{Call, ObjectKind};
use crate::pipeline::RendererPipeline;
use crate::swapchain::{RendererSwapchain, SwapchainView};

verus! {

/// The command pools of the renderer.
#[derive(Clone, Copy, Debug, PartialEq, Eq)]
pub struct CommandPools {
    /// The pool of the graphics queue family.
    pub graphics: u64,
}

/// The objects of a running renderer, by their handles.
#[derive(Debug, PartialEq, Eq)]
pub struct VulkanRenderer {
    pub instance: u64,
    pub main_device: u64,
    /// The queue that both draws and presents.
    pub graphics_queue: u64,
    /// The surface of the window.
    pub surface: u64,
    /// The debug messenger.
    pub debug: u64,
    pub swapchain: RendererSwapchain,
    pub render_pass: u64,
    pub graphics_pipeline: RendererPipeline,
    pub command_pools: CommandPools,
    /// One command buffer per swapchain image, found by the index of the
    /// image the device hands out.
    pub graphics_command_buffers: Vec<u64>,
    pub vertex_buffer: Buffer,
    pub index_buffer: Buffer,
    pub model_index_count: u32,
}

/// A renderer as a mathematical value.
pub struct RendererView {
    pub instance: u64,
    pub main_device: u64,
    pub graphics_queue: u64,
    pub surface: u64,
    pub debug: u64,
    pub swapchain: SwapchainView,
    pub render_pass: u64,
    pub graphics_pipeline: RendererPipeline,
    pub command_pools: CommandPools,
    pub graphics_command_buffers: Seq<u64>,
    pub vertex_buffer: Buffer,
    pub index_buffer: Buffer,
    pub model_index_count: u32,
}

impl View for VulkanRenderer {
    type V = RendererView;

    open spec fn view(&self) -> RendererView {
        RendererView {
            instance: self.instance,
            main_device: self.main_device,
            graphics_queue: self.graphics_queue,
            surface: self.surface,
            debug: self.debug,
            swapchain: self.swapchain@,
            render_pass: self.render_pass,
            graphics_pipeline: self.graphics_pipeline,
            command_pools: self.command_pools,
            graphics_command_buffers: self.graphics_command_buffers@,
            vertex_buffer: self.vertex_buffer,
            index_buffer: self.index_buffer,
            model_index_count: self.model_index_count,
        }
    }
}

/// The calls that release a buffer: the buffer, then its memory.
pub open spec fn release_buffer(buffer: Buffer) -> Seq<Call> {
    seq![
        Call::Destroy { kind: ObjectKind::Buffer, handle: buffer.handle },
        Call::Destroy { kind: ObjectKind::Memory, handle: buffer.memory },
    ]
}

impl RendererView {
    /// The swapchain is complete and every image has its command buffer.
    pub open spec fn well_formed(self) -> bool {
        &&& self.swapchain.complete()
        &&& self.graphics_command_buffers.len() == self.swapchain.image_count
    }

    /// The calls that shut the renderer down: the device is drained first;
    /// then go the command pool, the pipeline, the render pass, the vertex
    /// and the index buffer, the debug messenger, the swapchain, the
    /// surface, the device and the instance.
    pub open spec fn shutdown(self) -> Seq<Call> {
        seq![
            Call::DeviceWaitIdle,
            Call::Destroy { kind: ObjectKind::CommandPool, handle: self.command_pools.graphics },
        ] + self.graphics_pipeline.teardown() + seq![
            Call::Destroy { kind: ObjectKind::RenderPass, handle: self.render_pass },
        ] + release_buffer(self.vertex_buffer) + release_buffer(self.index_buffer) + seq![
            Call::Destroy { kind: ObjectKind::DebugMessenger, handle: self.debug },
        ] + self.swapchain.teardown() + seq![
            Call::Destroy { kind: ObjectKind::Surface, handle: self.surface },
            Call::Destroy { kind: ObjectKind::Device, handle: self.main_device },
            Call::Destroy { kind: ObjectKind::Instance, handle: self.instance },
        ]
    }
}

impl VulkanRenderer {
    /// Whether the swapchain is complete and every image has its command
    /// buffer.
    pub fn is_well_formed(&self) -> (r: bool)
        ensures
            r == self@.well_formed(),
    {
        self.swapchain.is_complete() && self.graphics_command_buffers.len()
            == self.swapchain.image_count as usize
    }

    /// Shuts the renderer down. It is consumed: nothing it held can be used,
    /// or destroyed, again.
    pub fn drop(self) -> (calls: Vec<Call>)
        ensures
            calls@ == self@.shutdown(),
    {
        let mut renderer = self;
        let mut calls: Vec<Call> = Vec::new();
        calls.push(Call::DeviceWaitIdle);
        calls.push(
            Call::Destroy { kind: ObjectKind::CommandPool, handle: renderer.command_pools.graphics },
        );
        let mut pipeline = renderer.graphics_pipeline.cleanup();
        calls.append(&mut pipeline);
        calls.push(Call::Destroy { kind: ObjectKind::RenderPass, handle: renderer.render_pass });
        calls.push(Call::Destroy { kind: ObjectKind::Buffer, handle: renderer.vertex_buffer.handle });
        calls.push(Call::Destroy { kind: ObjectKind::Memory, handle: renderer.vertex_buffer.memory });
        calls.push(Call::Destroy { kind: ObjectKind::Buffer, handle: renderer.index_buffer.handle });
        calls.push(Call::Destroy { kind: ObjectKind::Memory, handle: renderer.index_buffer.memory });
        calls.push(Call::Destroy { kind: ObjectKind::DebugMessenger, handle: renderer.debug });
        let mut swapchain = renderer.swapchain.cleanup();
        calls.append(&mut swapchain);
        calls.push(Call::Destroy { kind: ObjectKind::Surface, handle: renderer.surface });
        calls.push(Call::Destroy { kind: ObjectKind::Device, handle: renderer.main_device });
        calls.push(Call::Destroy { kind: ObjectKind::Instance, handle: renderer.instance });
        assert(calls@ =~= self@.shutdown());
        calls
    }
}

} // verus!
