//! The vocabulary between the library and the driver that owns the device.
//!
//! A [`Call`] names one device operation with every parameter the library
//! decides. The driver performs it and answers with a [`Reply`]. Handles are
//! the raw 64-bit values of the graphics API; `0` is the null handle.

use vstd::prelude::*;
use crate::memory::MemoryRequirements;
use crate::state::{GraphicsPipelineInfo, RenderPassInfo};

verus! {

/// Width and height of the presentable images, in pixels.
#[derive(Clone, Copy, Debug, PartialEq, Eq)]
pub struct Extent {
    pub width: u32,
    pub height: u32,
}

/// A (format, color space) pair as the surface reports it.
#[derive(Clone, Copy, Debug, PartialEq, Eq)]
pub struct SurfaceFormat {
    pub format: i32,
    pub color_space: i32,
}

/// The snapshot of the surface taken when the swapchain is created.
#[derive(Clone, Copy, Debug, PartialEq, Eq)]
pub struct SurfaceCapabilities {
    pub current_extent: Extent,
    /// Raw transform flag currently applied to the surface.
    pub current_transform: u32,
    /// Raw composite-alpha flags of the surface.
    pub composite_alpha: u32,
}

/// How presentation is paced.
#[derive(Clone, Copy, Debug, PartialEq, Eq)]
pub enum PresentMode {
    /// Present at once, without waiting for vertical blank.
    Immediate,
}

/// Who may access a resource.
#[derive(Clone, Copy, Debug, PartialEq, Eq)]
pub enum SharingMode {
    /// A single queue family owns the resource.
    Exclusive,
}

/// What swapchain images are used for.
#[derive(Clone, Copy, Debug, PartialEq, Eq)]
pub enum ImageUsage {
    ColorAttachment,
}

/// The value a color attachment is cleared to.
#[derive(Clone, Copy, Debug, PartialEq, Eq)]
pub enum ClearColor {
    /// Red, green and blue zero, alpha one.
    OpaqueBlack,
}

/// Width of the entries of an index buffer.
#[derive(Clone, Copy, Debug, PartialEq, Eq)]
pub enum IndexType {
    Uint32,
}

/// The level of a command buffer.
#[derive(Clone, Copy, Debug, PartialEq, Eq)]
pub enum CommandBufferLevel {
    /// A command buffer that is submitted to a queue directly.
    Primary,
}

/// The dimensionality of an image view.
#[derive(Clone, Copy, Debug, PartialEq, Eq)]
pub enum ImageViewType {
    TwoDimensional,
}

/// The part of an image a view shows.
#[derive(Clone, Copy, Debug, PartialEq, Eq)]
pub enum ImageAspect {
    Color,
}

/// Everything that fixes an image view.
#[derive(Clone, Copy, Debug, PartialEq, Eq)]
pub struct ImageViewInfo {
    pub image: u64,
    pub view_type: ImageViewType,
    /// Raw format of the view.
    pub format: i32,
    pub aspect: ImageAspect,
    pub base_mip_level: u32,
    pub level_count: u32,
    pub base_array_layer: u32,
    pub layer_count: u32,
}

/// The programmable stages of the pipeline.
#[derive(Clone, Copy, Debug, PartialEq, Eq)]
pub enum ShaderStage {
    Vertex,
    Fragment,
}

/// The pipeline stage at which a submission waits for its semaphore.
#[derive(Clone, Copy, Debug, PartialEq, Eq)]
pub enum PipelineStage {
    ColorAttachmentOutput,
}

/// Everything that fixes a swapchain.
#[derive(Clone, Copy, Debug, PartialEq, Eq)]
pub struct SwapchainConfig {
    pub surface: u64,
    pub min_image_count: u32,
    pub format: i32,
    pub color_space: i32,
    pub extent: Extent,
    pub array_layers: u32,
    pub usage: ImageUsage,
    pub sharing: SharingMode,
    pub queue_family: u32,
    pub pre_transform: u32,
    pub composite_alpha: u32,
    pub present_mode: PresentMode,
}

/// The semaphores and the fence of a submission that is part of a frame.
#[derive(Clone, Copy, Debug, PartialEq, Eq)]
pub struct SubmitSync {
    /// Semaphore the queue waits on before `wait_stage`.
    pub wait: u64,
    pub wait_stage: PipelineStage,
    /// Semaphore signaled when the commands have run.
    pub signal: u64,
    /// Fence signaled when the commands have run.
    pub fence: u64,
}

/// A command recorded into a command buffer.
#[derive(Clone, Copy, Debug, PartialEq, Eq)]
pub enum Command {
    CopyBuffer { src: u64, dst: u64, src_offset: u64, dst_offset: u64, size: u64 },
    /// Begin `render_pass` on `framebuffer`, over the area from the origin to
    /// `extent`, with one clear value and inline subpass contents.
    BeginRenderPass { render_pass: u64, framebuffer: u64, extent: Extent, clear: ClearColor },
    /// Bind a graphics pipeline.
    BindPipeline { pipeline: u64 },
    BindVertexBuffer { binding: u32, buffer: u64, offset: u64 },
    BindIndexBuffer { buffer: u64, offset: u64, index_type: IndexType },
    DrawIndexed {
        index_count: u32,
        instance_count: u32,
        first_index: u32,
        vertex_offset: i32,
        first_instance: u32,
    },
    EndRenderPass,
}

/// The kinds of object the library asks the driver to destroy.
#[derive(Clone, Copy, Debug, PartialEq, Eq)]
pub enum ObjectKind {
    Semaphore,
    Fence,
    Framebuffer,
    ImageView,
    Swapchain,
    Buffer,
    /// Device memory; destroying it frees the allocation.
    Memory,
    CommandPool,
    Pipeline,
    PipelineLayout,
    ShaderModule,
    RenderPass,
    DebugMessenger,
    Surface,
    Device,
    Instance,
}

/// One operation the driver is asked to perform.
#[derive(Clone, Copy, Debug, PartialEq, Eq)]
pub enum Call {
    /// Create a buffer of `size` bytes with raw usage flags `usage`.
    CreateBuffer { size: u64, usage: u32, sharing: SharingMode },
    GetBufferMemoryRequirements { buffer: u64 },
    AllocateMemory { size: u64, memory_type: u32 },
    BindBufferMemory { buffer: u64, memory: u64, offset: u64 },
    /// Map `size` bytes of `memory` from `offset` into host address space.
    MapMemory { memory: u64, offset: u64, size: u64 },
    /// Copy the caller's data to the start of the mapping of `memory`, with
    /// elements aligned to `alignment`. `capacity` is the size of the
    /// allocation.
    WriteMapped { memory: u64, alignment: u64, capacity: u64 },
    UnmapMemory { memory: u64 },
    /// Allocate one command buffer from `pool`.
    AllocateCommandBuffer { pool: u64, level: CommandBufferLevel },
    /// Allocate `count` command buffers from `pool`.
    AllocateCommandBuffers { pool: u64, level: CommandBufferLevel, count: u32 },
    BeginCommandBuffer { command_buffer: u64, one_time_submit: bool },
    Record { command_buffer: u64, command: Command },
    EndCommandBuffer { command_buffer: u64 },
    /// Submit one command buffer. Without `sync` the submission waits on and
    /// signals nothing, and its fence is the null handle.
    Submit { queue: u64, command_buffer: u64, sync: Option<SubmitSync> },
    QueueWaitIdle { queue: u64 },
    FreeCommandBuffer { pool: u64, command_buffer: u64 },
    /// Ask what the surface is capable of at the moment.
    GetSurfaceCapabilities { surface: u64 },
    /// Ask which formats the surface supports.
    GetSurfaceFormats { surface: u64 },
    CreateSwapchain { config: SwapchainConfig },
    GetSwapchainImages { swapchain: u64 },
    CreateImageView { view: ImageViewInfo },
    CreateSemaphore,
    CreateFence { signaled: bool },
    CreateFramebuffer { render_pass: u64, image_view: u64, extent: Extent, layers: u32 },
    /// Acquire the next presentable image; `semaphore` is signaled when it
    /// is ready, and no fence is used.
    AcquireNextImage { swapchain: u64, semaphore: u64, timeout: u64 },
    WaitForFence { fence: u64, timeout: u64 },
    ResetFence { fence: u64 },
    Present { queue: u64, swapchain: u64, image_index: u32, wait: u64 },
    CreateRenderPass { info: RenderPassInfo },
    /// Create the module of one of the two built-in shaders.
    CreateShaderModule { stage: ShaderStage },
    /// Create a pipeline layout without descriptor sets or push constants.
    CreatePipelineLayout,
    /// Create the graphics pipeline; its shaders are entered at `main`.
    CreateGraphicsPipeline { info: GraphicsPipelineInfo },
    /// Create a command pool for `queue_family`.
    CreateCommandPool { queue_family: u32 },
    /// Load the model from disk.
    LoadModel,
    DeviceWaitIdle,
    Destroy { kind: ObjectKind, handle: u64 },
}

impl Call {
    /// What the call is for, in words.
    pub open spec fn subject(self) -> Seq<char> {
        match self {
            Call::CreateBuffer { .. } => "buffer"@,
            Call::GetBufferMemoryRequirements { .. } => "buffer memory requirements"@,
            Call::AllocateMemory { .. } => "device memory"@,
            Call::BindBufferMemory { .. } => "buffer memory binding"@,
            Call::MapMemory { .. } => "memory mapping"@,
            Call::WriteMapped { .. } => "memory write"@,
            Call::UnmapMemory { .. } => "memory unmapping"@,
            Call::AllocateCommandBuffer { .. } => "command buffer"@,
            Call::AllocateCommandBuffers { .. } => "command buffers"@,
            Call::BeginCommandBuffer { .. } => "command buffer begin"@,
            Call::Record { .. } => "command"@,
            Call::EndCommandBuffer { .. } => "command buffer end"@,
            Call::Submit { .. } => "queue submission"@,
            Call::QueueWaitIdle { .. } => "queue wait"@,
            Call::FreeCommandBuffer { .. } => "command buffer release"@,
            Call::GetSurfaceCapabilities { .. } => "surface capabilities"@,
            Call::GetSurfaceFormats { .. } => "surface formats"@,
            Call::CreateSwapchain { .. } => "swapchain"@,
            Call::GetSwapchainImages { .. } => "swapchain images"@,
            Call::CreateImageView { .. } => "image view"@,
            Call::CreateSemaphore => "semaphore"@,
            Call::CreateFence { .. } => "fence"@,
            Call::CreateFramebuffer { .. } => "framebuffer"@,
            Call::AcquireNextImage { .. } => "image acquisition"@,
            Call::WaitForFence { .. } => "fence wait"@,
            Call::ResetFence { .. } => "fence reset"@,
            Call::Present { .. } => "presentation"@,
            Call::CreateRenderPass { .. } => "render pass"@,
            Call::CreateShaderModule { .. } => "shader module"@,
            Call::CreatePipelineLayout => "pipeline layout"@,
            Call::CreateGraphicsPipeline { .. } => "graphics pipeline"@,
            Call::CreateCommandPool { .. } => "command pool"@,
            Call::LoadModel => "model"@,
            Call::DeviceWaitIdle => "device wait"@,
            Call::Destroy { .. } => "destruction"@,
        }
    }

    /// What the call is for, in words.
    pub fn name(&self) -> (r: &'static str)
        ensures
            r@ == self.subject(),
    {
        match self {
            Call::CreateBuffer { .. } => "buffer",
            Call::GetBufferMemoryRequirements { .. } => "buffer memory requirements",
            Call::AllocateMemory { .. } => "device memory",
            Call::BindBufferMemory { .. } => "buffer memory binding",
            Call::MapMemory { .. } => "memory mapping",
            Call::WriteMapped { .. } => "memory write",
            Call::UnmapMemory { .. } => "memory unmapping",
            Call::AllocateCommandBuffer { .. } => "command buffer",
            Call::AllocateCommandBuffers { .. } => "command buffers",
            Call::BeginCommandBuffer { .. } => "command buffer begin",
            Call::Record { .. } => "command",
            Call::EndCommandBuffer { .. } => "command buffer end",
            Call::Submit { .. } => "queue submission",
            Call::QueueWaitIdle { .. } => "queue wait",
            Call::FreeCommandBuffer { .. } => "command buffer release",
            Call::GetSurfaceCapabilities { .. } => "surface capabilities",
            Call::GetSurfaceFormats { .. } => "surface formats",
            Call::CreateSwapchain { .. } => "swapchain",
            Call::GetSwapchainImages { .. } => "swapchain images",
            Call::CreateImageView { .. } => "image view",
            Call::CreateSemaphore => "semaphore",
            Call::CreateFence { .. } => "fence",
            Call::CreateFramebuffer { .. } => "framebuffer",
            Call::AcquireNextImage { .. } => "image acquisition",
            Call::WaitForFence { .. } => "fence wait",
            Call::ResetFence { .. } => "fence reset",
            Call::Present { .. } => "presentation",
            Call::CreateRenderPass { .. } => "render pass",
            Call::CreateShaderModule { .. } => "shader module",
            Call::CreatePipelineLayout => "pipeline layout",
            Call::CreateGraphicsPipeline { .. } => "graphics pipeline",
            Call::CreateCommandPool { .. } => "command pool",
            Call::LoadModel => "model",
            Call::DeviceWaitIdle => "device wait",
            Call::Destroy { .. } => "destruction",
        }
    }
}

/// The driver's answer to a [`Call`].
#[derive(Clone, Debug, PartialEq, Eq)]
pub enum Reply {
    /// The call succeeded and returns nothing.
    Done,
    /// The call created an object.
    Handle(u64),
    Requirements(MemoryRequirements),
    Capabilities(SurfaceCapabilities),
    /// The formats of a surface, in the device's order.
    Formats(Vec<SurfaceFormat>),
    /// The call produced several objects, in the device's order.
    Handles(Vec<u64>),
    /// The model is loaded and has this many vertices and indices.
    Model { vertices: usize, indices: usize },
    /// The index of the acquired image.
    ImageIndex(u32),
    /// The call failed with this result code.
    Failed(i32),
}

/// Why an operation stopped.
#[derive(Clone, Copy, Debug, PartialEq, Eq)]
pub enum RenderError {
    /// An upload of no bytes was requested.
    ZeroSizeBuffer,
    /// The byte size of an upload does not fit the device's size type.
    BufferTooLarge,
    /// No memory type of the device is both allowed and suitable.
    NoSuitableMemoryType,
    /// The surface reports no format.
    NoSurfaceFormat,
    /// The device reported `code` for `call`.
    CallFailed { call: Call, code: i32 },
    /// The driver answered `call` with a reply of the wrong shape.
    UnexpectedReply { call: Call },
    /// The acquired image has no command buffer.
    ImageIndexOutOfRange { index: u32 },
}

/// The kinds of failure.
#[derive(Clone, Copy, Debug, PartialEq, Eq)]
pub enum ErrorClass {
    /// The device or the request cannot be served; nothing this library
    /// does would repair it.
    Configuration,
    /// The device failed to acquire or to present an image.
    Presentation,
    /// The device failed another call.
    DeviceCall,
    /// The driver did not keep to the protocol of calls and replies.
    Protocol,
}

impl RenderError {
    /// The kind of failure this is.
    pub open spec fn classified(self) -> ErrorClass {
        match self {
            RenderError::ZeroSizeBuffer => ErrorClass::Configuration,
            RenderError::BufferTooLarge => ErrorClass::Configuration,
            RenderError::NoSuitableMemoryType => ErrorClass::Configuration,
            RenderError::NoSurfaceFormat => ErrorClass::Configuration,
            RenderError::CallFailed { call, .. } => if call is AcquireNextImage || call is Present {
                ErrorClass::Presentation
            } else {
                ErrorClass::DeviceCall
            },
            RenderError::UnexpectedReply { .. } => ErrorClass::Protocol,
            RenderError::ImageIndexOutOfRange { .. } => ErrorClass::Protocol,
        }
    }

    /// The kind of failure this is.
    pub fn class(&self) -> (r: ErrorClass)
        ensures
            r == self.classified(),
            (r == ErrorClass::Configuration) == self.configuration(),
    {
        match self {
            RenderError::ZeroSizeBuffer => ErrorClass::Configuration,
            RenderError::BufferTooLarge => ErrorClass::Configuration,
            RenderError::NoSuitableMemoryType => ErrorClass::Configuration,
            RenderError::NoSurfaceFormat => ErrorClass::Configuration,
            RenderError::CallFailed { call, .. } => match call {
                Call::AcquireNextImage { .. } => ErrorClass::Presentation,
                Call::Present { .. } => ErrorClass::Presentation,
                _ => ErrorClass::DeviceCall,
            },
            RenderError::UnexpectedReply { .. } => ErrorClass::Protocol,
            RenderError::ImageIndexOutOfRange { .. } => ErrorClass::Protocol,
        }
    }

    /// Whether the error comes from a device or a request that nothing
    /// this library does would repair.
    pub open spec fn configuration(self) -> bool {
        self is ZeroSizeBuffer || self is BufferTooLarge || self is NoSuitableMemoryType
            || self is NoSurfaceFormat
    }

    /// What went wrong, in words: for a call that failed or was answered
    /// wrongly, what the call was for.
    pub open spec fn description(self) -> Seq<char> {
        match self {
            RenderError::ZeroSizeBuffer => "upload of no bytes"@,
            RenderError::BufferTooLarge => "upload too large"@,
            RenderError::NoSuitableMemoryType => "no suitable memory type"@,
            RenderError::NoSurfaceFormat => "no surface format"@,
            RenderError::CallFailed { call, .. } => call.subject(),
            RenderError::UnexpectedReply { call } => call.subject(),
            RenderError::ImageIndexOutOfRange { .. } => "image without command buffer"@,
        }
    }

    /// What went wrong, in words.
    pub fn message(&self) -> (r: &'static str)
        ensures
            r@ == self.description(),
    {
        match self {
            RenderError::ZeroSizeBuffer => "upload of no bytes",
            RenderError::BufferTooLarge => "upload too large",
            RenderError::NoSuitableMemoryType => "no suitable memory type",
            RenderError::NoSurfaceFormat => "no surface format",
            RenderError::CallFailed { call, .. } => call.name(),
            RenderError::UnexpectedReply { call } => call.name(),
            RenderError::ImageIndexOutOfRange { .. } => "image without command buffer",
        }
    }

    /// The result code of the device, when a call failed.
    pub fn code(&self) -> (r: Option<i32>)
        ensures
            r == (match *self {
                RenderError::CallFailed { code, .. } => Some(code),
                _ => None,
            }),
    {
        match self {
            RenderError::CallFailed { code, .. } => Some(*code),
            _ => None,
        }
    }

    /// Whether this is a configuration error.
    pub fn is_configuration(&self) -> (r: bool)
        ensures
            r == self.configuration(),
    {
        match self {
            RenderError::ZeroSizeBuffer => true,
            RenderError::BufferTooLarge => true,
            RenderError::NoSuitableMemoryType => true,
            RenderError::NoSurfaceFormat => true,
            _ => false,
        }
    }
}

/// What a state machine wants after it has been resumed: `M` is the machine,
/// `T` what the operation produces.
#[derive(Clone, Debug, PartialEq, Eq)]
pub enum Step<M, T> {
    /// Perform the call and resume the machine with its reply.
    Next(M, Call),
    /// The operation is complete.
    Done(T),
    /// The operation stopped; nothing more is to be called.
    Failed(RenderError),
}

impl<M: View, T: View> View for Step<M, T> {
    type V = Step<M::V, T::V>;

    open spec fn view(&self) -> Step<M::V, T::V> {
        match self {
            Step::Next(machine, call) => Step::Next(machine@, *call),
            Step::Done(value) => Step::Done(value@),
            Step::Failed(e) => Step::Failed(*e),
        }
    }
}

/// The error for a reply that does not continue `call`: the device's code
/// when it reported one, a protocol error otherwise.
pub open spec fn rejection(call: Call, reply: Reply) -> RenderError {
    match reply {
        Reply::Failed(code) => RenderError::CallFailed { call, code },
        _ => RenderError::UnexpectedReply { call },
    }
}

/// The error for a reply that does not continue `call`.
pub fn reject(call: Call, reply: &Reply) -> (e: RenderError)
    ensures
        e == rejection(call, *reply),
{
    match reply {
        Reply::Failed(code) => RenderError::CallFailed { call, code: *code },
        _ => RenderError::UnexpectedReply { call },
    }
}

} // verus!
