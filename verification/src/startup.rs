//! Bringing the renderer up, from a ready device and surface to recorded
//! command buffers.

use vstd::prelude::*;
use crate::buffer::Buffer;
use crate::commands::Recording;
use crate::flags::{usage_index_buffer, usage_vertex_buffer, INDEX_BUFFER, VERTEX_BUFFER};
use crate::gpu::{
    rejection, reject, Call, CommandBufferLevel, Extent, RenderError, Reply, Step, SurfaceFormat,
};
use crate::memory::{MemoryProperties, MemoryType};
use crate::model::{INDEX_ALIGNMENT, INDEX_SIZE, VERTEX_ALIGNMENT, VERTEX_STRIDE};
use crate::pipeline::{PipelineCreation, RendererPipeline};
use crate::renderer::{CommandPools, RendererView, VulkanRenderer};
use crate::state::{describe_render_pass, render_pass_info};
use crate::upload::{upload_plan, Upload};
use crate::swapchain::{
    framebuffers_from, FramebufferCreation, FramebufferCreationView, RendererSwapchain,
    SwapchainCreation, SwapchainCreationView, SwapchainView,
};

verus! {

/// What the bootstrap of instance, device and window hands over.
#[derive(Clone, Copy, Debug, PartialEq, Eq)]
pub struct Bootstrap {
    pub instance: u64,
    pub main_device: u64,
    /// The queue that draws, transfers and presents.
    pub graphics_queue: u64,
    pub graphics_queue_family: u32,
    pub surface: u64,
    pub debug: u64,
}

/// How far the startup has come.
#[derive(Debug, PartialEq, Eq)]
pub enum StartupStage {
    /// The formats of the surface are being queried.
    Formats,
    /// The render pass is being created, for attachments of `format`.
    RenderPass { format: i32 },
    /// The swapchain is being created, with image views and
    /// synchronization objects.
    Swapchain(SwapchainCreation),
    /// The framebuffers are being created.
    Framebuffers(FramebufferCreation),
    /// The graphics pipeline is being created.
    Pipeline(PipelineCreation),
    /// The command pool is being created.
    CommandPool,
    /// The command buffers are being allocated, one per swapchain image.
    CommandBuffers,
    /// The model is being loaded.
    Model,
    /// The vertices are being uploaded.
    Vertices(Upload),
    /// The indices are being uploaded.
    Indices(Upload),
    /// The command buffers are being recorded.
    Recording(Recording),
}

/// A startup stage as a mathematical value.
pub enum StartupStageView {
    Formats,
    RenderPass { format: i32 },
    Swapchain(SwapchainCreationView),
    Framebuffers(FramebufferCreationView),
    Pipeline(PipelineCreation),
    CommandPool,
    CommandBuffers,
    Model,
    Vertices(Upload),
    Indices(Upload),
    Recording(Recording),
}

impl StartupStageView {
    /// The place of the stage in the order of the startup.
    pub open spec fn rank(self) -> nat {
        match self {
            StartupStageView::Formats => 0,
            StartupStageView::RenderPass { .. } => 1,
            StartupStageView::Swapchain(_) => 2,
            StartupStageView::Framebuffers(_) => 3,
            StartupStageView::Pipeline(_) => 4,
            StartupStageView::CommandPool => 5,
            StartupStageView::CommandBuffers => 6,
            StartupStageView::Model => 7,
            StartupStageView::Vertices(_) => 8,
            StartupStageView::Indices(_) => 9,
            StartupStageView::Recording(_) => 10,
        }
    }
}

impl View for StartupStage {
    type V = StartupStageView;

    open spec fn view(&self) -> StartupStageView {
        match self {
            StartupStage::Formats => StartupStageView::Formats,
            StartupStage::RenderPass { format } => StartupStageView::RenderPass { format: *format },
            StartupStage::Swapchain(creation) => StartupStageView::Swapchain(creation@),
            StartupStage::Framebuffers(creation) => StartupStageView::Framebuffers(creation@),
            StartupStage::Pipeline(creation) => StartupStageView::Pipeline(*creation),
            StartupStage::CommandPool => StartupStageView::CommandPool,
            StartupStage::CommandBuffers => StartupStageView::CommandBuffers,
            StartupStage::Model => StartupStageView::Model,
            StartupStage::Vertices(upload) => StartupStageView::Vertices(*upload),
            StartupStage::Indices(upload) => StartupStageView::Indices(*upload),
            StartupStage::Recording(recording) => StartupStageView::Recording(*recording),
        }
    }
}

/// Brings the renderer up. The order is fixed by what each object needs:
/// the render pass before the framebuffers, the swapchain before the
/// pipeline, the command pool before every upload, and the buffers before
/// the command buffers that bind them.
#[derive(Debug, PartialEq, Eq)]
pub struct Startup {
    pub graphics_queue_family: u32,
    /// The renderer as far as it is built; what is not yet created is null
    /// or empty.
    pub renderer: VulkanRenderer,
    pub stage: StartupStage,
}

/// A startup as a mathematical value.
pub struct StartupView {
    pub graphics_queue_family: u32,
    pub renderer: RendererView,
    pub stage: StartupStageView,
}

impl View for Startup {
    type V = StartupView;

    open spec fn view(&self) -> StartupView {
        StartupView {
            graphics_queue_family: self.graphics_queue_family,
            renderer: self.renderer@,
            stage: self.stage@,
        }
    }
}

/// The renderer before anything is created.
pub open spec fn blank_renderer(bootstrap: Bootstrap) -> RendererView {
    RendererView {
        instance: bootstrap.instance,
        main_device: bootstrap.main_device,
        graphics_queue: bootstrap.graphics_queue,
        surface: bootstrap.surface,
        debug: bootstrap.debug,
        swapchain: SwapchainView::released(Extent { width: 0, height: 0 }),
        render_pass: 0,
        graphics_pipeline: RendererPipeline { pipeline: 0, pipeline_layout: 0 },
        command_pools: CommandPools { graphics: 0 },
        graphics_command_buffers: Seq::empty(),
        vertex_buffer: Buffer { handle: 0, memory: 0, size: 0, capacity: 0 },
        index_buffer: Buffer { handle: 0, memory: 0, size: 0, capacity: 0 },
        model_index_count: 0,
    }
}

impl StartupView {
    /// A startup that has not received any reply yet.
    pub open spec fn begin(bootstrap: Bootstrap) -> StartupView {
        StartupView {
            graphics_queue_family: bootstrap.graphics_queue_family,
            renderer: blank_renderer(bootstrap),
            stage: StartupStageView::Formats,
        }
    }

    /// Nested machines are well formed and the renderer is as far as the
    /// stage says.
    pub open spec fn well_formed(self) -> bool {
        let pool = self.renderer.command_pools.graphics;
        let queue = self.renderer.graphics_queue;
        match self.stage {
            StartupStageView::Formats => true,
            StartupStageView::RenderPass { .. } => true,
            StartupStageView::Swapchain(creation) => creation.well_formed(),
            StartupStageView::Framebuffers(creation) => creation.well_formed()
                && creation.render_pass == self.renderer.render_pass,
            StartupStageView::Pipeline(_) => self.renderer.swapchain.complete(),
            StartupStageView::CommandPool => self.renderer.swapchain.complete(),
            StartupStageView::CommandBuffers => self.renderer.swapchain.complete(),
            StartupStageView::Model => self.renderer.well_formed(),
            StartupStageView::Vertices(upload) => self.renderer.well_formed()
                && upload.well_formed() && upload.pool == pool && upload.queue == queue,
            StartupStageView::Indices(upload) => self.renderer.well_formed()
                && upload.well_formed() && upload.pool == pool && upload.queue == queue,
            StartupStageView::Recording(recording) => self.renderer.well_formed()
                && recording.well_formed(self.renderer),
        }
    }

    /// The call whose reply this machine waits for.
    pub open spec fn pending(self) -> Call {
        match self.stage {
            StartupStageView::Formats => Call::GetSurfaceFormats { surface: self.renderer.surface },
            StartupStageView::RenderPass { format } => Call::CreateRenderPass {
                info: render_pass_info(format),
            },
            StartupStageView::Swapchain(creation) => creation.pending(),
            StartupStageView::Framebuffers(creation) => creation.pending(),
            StartupStageView::Pipeline(creation) => creation.pending(),
            StartupStageView::CommandPool => Call::CreateCommandPool {
                queue_family: self.graphics_queue_family,
            },
            StartupStageView::CommandBuffers => Call::AllocateCommandBuffers {
                pool: self.renderer.command_pools.graphics,
                level: CommandBufferLevel::Primary,
                count: self.renderer.swapchain.image_count,
            },
            StartupStageView::Model => Call::LoadModel,
            StartupStageView::Vertices(upload) => upload.pending(),
            StartupStageView::Indices(upload) => upload.pending(),
            StartupStageView::Recording(recording) => recording.pending(self.renderer),
        }
    }

    /// This startup at another stage.
    pub open spec fn at(self, stage: StartupStageView) -> StartupView {
        StartupView { stage, ..self }
    }

    /// This startup with its renderer replaced.
    pub open spec fn with(self, renderer: RendererView) -> StartupView {
        StartupView { renderer, ..self }
    }

    /// The startup at `stage`, waiting for the reply to the call of that stage.
    pub open spec fn proceed(self, stage: StartupStageView) -> Step<StartupView, RendererView> {
        Step::Next(self.at(stage), self.at(stage).pending())
    }

    /// The swapchain has its views and synchronization objects: the
    /// framebuffers follow, and the pipeline when none is lacking.
    pub open spec fn with_swapchain(self, swapchain: SwapchainView) -> Step<
        StartupView,
        RendererView,
    > {
        match framebuffers_from(swapchain, self.renderer.render_pass) {
            Step::Next(creation, _) => self.proceed(StartupStageView::Framebuffers(creation)),
            Step::Done(swapchain) => self.with_framebuffers(swapchain),
            Step::Failed(e) => Step::Failed(e),
        }
    }

    /// The swapchain is complete: the pipeline follows.
    pub open spec fn with_framebuffers(self, swapchain: SwapchainView) -> Step<
        StartupView,
        RendererView,
    > {
        self.with(RendererView { swapchain, ..self.renderer }).proceed(
            StartupStageView::Pipeline(
                PipelineCreation::begin(swapchain.extent, self.renderer.render_pass),
            ),
        )
    }

    /// The model has `vertices` vertices and `indices` indices: the upload
    /// of the vertices follows.
    pub open spec fn with_model(self, vertices: usize, indices: usize) -> Step<
        StartupView,
        RendererView,
    > {
        if indices > u32::MAX {
            Step::Failed(RenderError::BufferTooLarge)
        } else {
            match upload_plan(
                self.renderer.command_pools.graphics,
                self.renderer.graphics_queue,
                VERTEX_BUFFER,
                vertices as nat,
                VERTEX_STRIDE as nat,
                VERTEX_ALIGNMENT,
            ) {
                Ok(started) => Step::Next(
                    self.with(
                        RendererView { model_index_count: indices as u32, ..self.renderer },
                    ).at(StartupStageView::Vertices(started.0)),
                    started.1,
                ),
                Err(e) => Step::Failed(e),
            }
        }
    }

    /// The vertices are in `buffer`: the upload of the indices follows.
    pub open spec fn with_vertices(self, buffer: Buffer) -> Step<StartupView, RendererView> {
        match upload_plan(
            self.renderer.command_pools.graphics,
            self.renderer.graphics_queue,
            INDEX_BUFFER,
            self.renderer.model_index_count as nat,
            INDEX_SIZE as nat,
            INDEX_ALIGNMENT,
        ) {
            Ok(started) => Step::Next(
                self.with(RendererView { vertex_buffer: buffer, ..self.renderer }).at(
                    StartupStageView::Indices(started.0),
                ),
                started.1,
            ),
            Err(e) => Step::Failed(e),
        }
    }

    /// The indices are in `buffer`: the recording follows, and with nothing
    /// to record the renderer is up.
    pub open spec fn with_indices(self, buffer: Buffer) -> Step<StartupView, RendererView> {
        let renderer = RendererView { index_buffer: buffer, ..self.renderer };
        match Recording::from_image(renderer, 0) {
            Step::Next(recording, call) => Step::Next(
                self.with(renderer).at(StartupStageView::Recording(recording)),
                call,
            ),
            Step::Done(_) => Step::Done(renderer),
            Step::Failed(e) => Step::Failed(e),
        }
    }

    /// What follows when the pending call is answered with `reply` on a
    /// device with memory types `types`.
    pub open spec fn resumed(self, reply: Reply, types: Seq<MemoryType>) -> Step<
        StartupView,
        RendererView,
    > {
        match self.stage {
            StartupStageView::Formats => match reply {
                Reply::Formats(formats) => match render_pass_call(formats@) {
                    Ok(call) => Step::Next(
                        self.at(StartupStageView::RenderPass { format: formats@[0].format }),
                        call,
                    ),
                    Err(e) => Step::Failed(e),
                },
                _ => Step::Failed(rejection(self.pending(), reply)),
            },
            StartupStageView::RenderPass { format } => match reply {
                Reply::Handle(render_pass) => self.with(
                    RendererView { render_pass, ..self.renderer },
                ).proceed(
                    StartupStageView::Swapchain(
                        SwapchainCreationView::begin(
                            self.renderer.surface,
                            self.graphics_queue_family,
                        ),
                    ),
                ),
                _ => Step::Failed(rejection(self.pending(), reply)),
            },
            StartupStageView::Swapchain(creation) => match creation.resumed(reply) {
                Step::Next(creation, call) => Step::Next(
                    self.at(StartupStageView::Swapchain(creation)),
                    call,
                ),
                Step::Done(swapchain) => self.with_swapchain(swapchain),
                Step::Failed(e) => Step::Failed(e),
            },
            StartupStageView::Framebuffers(creation) => match creation.resumed(reply) {
                Step::Next(creation, call) => Step::Next(
                    self.at(StartupStageView::Framebuffers(creation)),
                    call,
                ),
                Step::Done(swapchain) => self.with_framebuffers(swapchain),
                Step::Failed(e) => Step::Failed(e),
            },
            StartupStageView::Pipeline(creation) => match creation.resumed(reply) {
                Step::Next(creation, call) => Step::Next(
                    self.at(StartupStageView::Pipeline(creation)),
                    call,
                ),
                Step::Done(graphics_pipeline) => self.with(
                    RendererView { graphics_pipeline, ..self.renderer },
                ).proceed(StartupStageView::CommandPool),
                Step::Failed(e) => Step::Failed(e),
            },
            StartupStageView::CommandPool => match reply {
                Reply::Handle(graphics) => self.with(
                    RendererView { command_pools: CommandPools { graphics }, ..self.renderer },
                ).proceed(StartupStageView::CommandBuffers),
                _ => Step::Failed(rejection(self.pending(), reply)),
            },
            StartupStageView::CommandBuffers => match reply {
                Reply::Handles(buffers) => if buffers@.len() == self.renderer.swapchain.image_count {
                    self.with(
                        RendererView { graphics_command_buffers: buffers@, ..self.renderer },
                    ).proceed(StartupStageView::Model)
                } else {
                    Step::Failed(rejection(self.pending(), reply))
                },
                _ => Step::Failed(rejection(self.pending(), reply)),
            },
            StartupStageView::Model => match reply {
                Reply::Model { vertices, indices } => self.with_model(vertices, indices),
                _ => Step::Failed(rejection(self.pending(), reply)),
            },
            StartupStageView::Vertices(upload) => match upload.resumed(reply, types) {
                Step::Next(upload, call) => Step::Next(
                    self.at(StartupStageView::Vertices(upload)),
                    call,
                ),
                Step::Done(buffer) => self.with_vertices(buffer),
                Step::Failed(e) => Step::Failed(e),
            },
            StartupStageView::Indices(upload) => match upload.resumed(reply, types) {
                Step::Next(upload, call) => Step::Next(
                    self.at(StartupStageView::Indices(upload)),
                    call,
                ),
                Step::Done(buffer) => self.with_indices(buffer),
                Step::Failed(e) => Step::Failed(e),
            },
            StartupStageView::Recording(recording) => match recording.resumed(reply, self.renderer) {
                Step::Next(recording, call) => Step::Next(
                    self.at(StartupStageView::Recording(recording)),
                    call,
                ),
                Step::Done(_) => Step::Done(self.renderer),
                Step::Failed(e) => Step::Failed(e),
            },
        }
    }
}

/// The call that creates the render pass: in the first format the surface
/// reports. Without a format there is no render pass.
pub open spec fn render_pass_call(formats: Seq<SurfaceFormat>) -> Result<Call, RenderError> {
    if formats.len() == 0 {
        Err(RenderError::NoSurfaceFormat)
    } else {
        Ok(Call::CreateRenderPass { info: render_pass_info(formats[0].format) })
    }
}

impl Startup {
    /// Whether nested machines are well formed and the renderer is as far
    /// as the stage says.
    pub fn is_well_formed(&self) -> (r: bool)
        ensures
            r == self@.well_formed(),
    {
        let pool = self.renderer.command_pools.graphics;
        let queue = self.renderer.graphics_queue;
        match &self.stage {
            StartupStage::Formats => true,
            StartupStage::RenderPass { .. } => true,
            StartupStage::Swapchain(creation) => creation.is_well_formed(),
            StartupStage::Framebuffers(creation) => creation.is_well_formed()
                && creation.render_pass == self.renderer.render_pass,
            StartupStage::Pipeline(_) => self.renderer.swapchain.is_complete(),
            StartupStage::CommandPool => self.renderer.swapchain.is_complete(),
            StartupStage::CommandBuffers => self.renderer.swapchain.is_complete(),
            StartupStage::Model => self.renderer.is_well_formed(),
            StartupStage::Vertices(upload) => self.renderer.is_well_formed()
                && upload.is_well_formed() && upload.pool == pool && upload.queue == queue,
            StartupStage::Indices(upload) => self.renderer.is_well_formed()
                && upload.is_well_formed() && upload.pool == pool && upload.queue == queue,
            StartupStage::Recording(recording) => self.renderer.is_well_formed()
                && self.renderer.is_recording(recording),
        }
    }

    fn call(&self) -> (c: Call)
        requires
            self@.well_formed(),
            self.stage is CommandPool || self.stage is CommandBuffers || self.stage is Model,
        ensures
            c == self@.pending(),
    {
        match self.stage {
            StartupStage::CommandPool => Call::CreateCommandPool {
                queue_family: self.graphics_queue_family,
            },
            StartupStage::CommandBuffers => Call::AllocateCommandBuffers {
                pool: self.renderer.command_pools.graphics,
                level: CommandBufferLevel::Primary,
                count: self.renderer.swapchain.image_count,
            },
            _ => Call::LoadModel,
        }
    }

    fn with_swapchain(self, swapchain: RendererSwapchain) -> (r: Step<Startup, VulkanRenderer>)
        requires
            swapchain@.well_formed(),
        ensures
            r@ == self@.with_swapchain(swapchain@),
            r matches Step::Next(machine, _) ==> machine@.well_formed(),
    {
        let Startup { graphics_queue_family, renderer, stage } = self;
        match swapchain.create_framebuffers(renderer.render_pass) {
            Step::Next(creation, call) => Step::Next(
                Startup {
                    graphics_queue_family,
                    renderer,
                    stage: StartupStage::Framebuffers(creation),
                },
                call,
            ),
            Step::Done(swapchain) => Startup {
                graphics_queue_family,
                renderer,
                stage,
            }.with_framebuffers(swapchain),
            Step::Failed(e) => Step::Failed(e),
        }
    }

    fn with_framebuffers(self, swapchain: RendererSwapchain) -> (r: Step<Startup, VulkanRenderer>)
        requires
            swapchain@.complete(),
        ensures
            r@ == self@.with_framebuffers(swapchain@),
            r matches Step::Next(machine, _) ==> machine@.well_formed(),
    {
        let Startup { graphics_queue_family, renderer, stage } = self;
        let mut renderer = renderer;
        let (creation, call) = RendererPipeline::new(swapchain.extent, renderer.render_pass);
        renderer.swapchain = swapchain;
        Step::Next(
            Startup {
                graphics_queue_family,
                renderer,
                stage: StartupStage::Pipeline(creation),
            },
            call,
        )
    }

    fn with_model(self, vertices: usize, indices: usize) -> (r: Step<Startup, VulkanRenderer>)
        requires
            self@.well_formed(),
            self.stage is Model,
        ensures
            r@ == self@.with_model(vertices, indices),
            r matches Step::Next(machine, _) ==> machine@.well_formed(),
    {
        if indices > u32::MAX as usize {
            return Step::Failed(RenderError::BufferTooLarge);
        }
        let Startup { graphics_queue_family, renderer, stage } = self;
        let mut renderer = renderer;
        match Upload::start(
            renderer.command_pools.graphics,
            renderer.graphics_queue,
            usage_vertex_buffer(),
            vertices,
            VERTEX_STRIDE,
            VERTEX_ALIGNMENT,
        ) {
            Ok((upload, call)) => {
                renderer.model_index_count = indices as u32;
                Step::Next(
                    Startup {
                        graphics_queue_family,
                        renderer,
                        stage: StartupStage::Vertices(upload),
                    },
                    call,
                )
            },
            Err(e) => Step::Failed(e),
        }
    }

    fn with_vertices(self, buffer: Buffer) -> (r: Step<Startup, VulkanRenderer>)
        requires
            self@.renderer.well_formed(),
        ensures
            r@ == self@.with_vertices(buffer),
            r matches Step::Next(machine, _) ==> machine@.well_formed(),
    {
        let Startup { graphics_queue_family, renderer, stage } = self;
        let mut renderer = renderer;
        match Upload::start(
            renderer.command_pools.graphics,
            renderer.graphics_queue,
            usage_index_buffer(),
            renderer.model_index_count as usize,
            INDEX_SIZE,
            INDEX_ALIGNMENT,
        ) {
            Ok((upload, call)) => {
                renderer.vertex_buffer = buffer;
                Step::Next(
                    Startup {
                        graphics_queue_family,
                        renderer,
                        stage: StartupStage::Indices(upload),
                    },
                    call,
                )
            },
            Err(e) => Step::Failed(e),
        }
    }

    fn with_indices(self, buffer: Buffer) -> (r: Step<Startup, VulkanRenderer>)
        requires
            self@.renderer.well_formed(),
        ensures
            r@ == self@.with_indices(buffer),
            r matches Step::Next(machine, _) ==> machine@.well_formed(),
            r matches Step::Done(renderer) ==> renderer@.well_formed(),
    {
        let Startup { graphics_queue_family, renderer, stage } = self;
        let mut renderer = renderer;
        renderer.index_buffer = buffer;
        match renderer.fill_command_buffers() {
            Step::Next(recording, call) => Step::Next(
                Startup {
                    graphics_queue_family,
                    renderer,
                    stage: StartupStage::Recording(recording),
                },
                call,
            ),
            Step::Done(_) => Step::Done(renderer),
            Step::Failed(e) => Step::Failed(e),
        }
    }

    /// Takes the reply to the pending call and says what to do next.
    pub fn resume(self, reply: Reply, mem_properties: &MemoryProperties) -> (r: Step<
        Startup,
        VulkanRenderer,
    >)
        requires
            self@.well_formed(),
        ensures
            r@ == self@.resumed(reply, mem_properties.types()),
            r matches Step::Next(machine, _) ==> machine@.well_formed(),
            r matches Step::Done(renderer) ==> renderer@.well_formed(),
    {
        let Startup { graphics_queue_family, renderer, stage } = self;
        match stage {
            StartupStage::Formats => match reply {
                Reply::Formats(formats) => match VulkanRenderer::create_render_pass(&formats) {
                    Ok(call) => Step::Next(
                        Startup {
                            graphics_queue_family,
                            renderer,
                            stage: StartupStage::RenderPass { format: formats[0].format },
                        },
                        call,
                    ),
                    Err(e) => Step::Failed(e),
                },
                other => Step::Failed(
                    reject(Call::GetSurfaceFormats { surface: renderer.surface }, &other),
                ),
            },
            StartupStage::RenderPass { format } => match reply {
                Reply::Handle(render_pass) => {
                    let mut renderer = renderer;
                    renderer.render_pass = render_pass;
                    let (creation, call) = RendererSwapchain::new(
                        renderer.surface,
                        graphics_queue_family,
                    );
                    Step::Next(
                        Startup {
                            graphics_queue_family,
                            renderer,
                            stage: StartupStage::Swapchain(creation),
                        },
                        call,
                    )
                },
                other => Step::Failed(
                    reject(Call::CreateRenderPass { info: describe_render_pass(format) }, &other),
                ),
            },
            StartupStage::Swapchain(creation) => match creation.resume(reply) {
                Step::Next(creation, call) => Step::Next(
                    Startup {
                        graphics_queue_family,
                        renderer,
                        stage: StartupStage::Swapchain(creation),
                    },
                    call,
                ),
                Step::Done(swapchain) => Startup {
                    graphics_queue_family,
                    renderer,
                    stage: StartupStage::Formats,
                }.with_swapchain(swapchain),
                Step::Failed(e) => Step::Failed(e),
            },
            StartupStage::Framebuffers(creation) => match creation.resume(reply) {
                Step::Next(creation, call) => Step::Next(
                    Startup {
                        graphics_queue_family,
                        renderer,
                        stage: StartupStage::Framebuffers(creation),
                    },
                    call,
                ),
                Step::Done(swapchain) => Startup {
                    graphics_queue_family,
                    renderer,
                    stage: StartupStage::Formats,
                }.with_framebuffers(swapchain),
                Step::Failed(e) => Step::Failed(e),
            },
            StartupStage::Pipeline(creation) => match creation.resume(reply) {
                Step::Next(creation, call) => Step::Next(
                    Startup {
                        graphics_queue_family,
                        renderer,
                        stage: StartupStage::Pipeline(creation),
                    },
                    call,
                ),
                Step::Done(graphics_pipeline) => {
                    let mut renderer = renderer;
                    renderer.graphics_pipeline = graphics_pipeline;
                    let next = Startup {
                        graphics_queue_family,
                        renderer,
                        stage: StartupStage::CommandPool,
                    };
                    let call = next.call();
                    Step::Next(next, call)
                },
                Step::Failed(e) => Step::Failed(e),
            },
            StartupStage::CommandPool => match reply {
                Reply::Handle(graphics) => {
                    let mut renderer = renderer;
                    renderer.command_pools = CommandPools { graphics };
                    let next = Startup {
                        graphics_queue_family,
                        renderer,
                        stage: StartupStage::CommandBuffers,
                    };
                    let call = next.call();
                    Step::Next(next, call)
                },
                other => Step::Failed(
                    reject(Call::CreateCommandPool { queue_family: graphics_queue_family }, &other),
                ),
            },
            StartupStage::CommandBuffers => {
                let call = Call::AllocateCommandBuffers {
                    pool: renderer.command_pools.graphics,
                    level: CommandBufferLevel::Primary,
                    count: renderer.swapchain.image_count,
                };
                match reply {
                    Reply::Handles(buffers) => {
                        if buffers.len() == renderer.swapchain.image_count as usize {
                            let mut renderer = renderer;
                            renderer.graphics_command_buffers = buffers;
                            let next = Startup {
                                graphics_queue_family,
                                renderer,
                                stage: StartupStage::Model,
                            };
                            let call = next.call();
                            Step::Next(next, call)
                        } else {
                            Step::Failed(RenderError::UnexpectedReply { call })
                        }
                    },
                    other => Step::Failed(reject(call, &other)),
                }
            },
            StartupStage::Model => match reply {
                Reply::Model { vertices, indices } => Startup {
                    graphics_queue_family,
                    renderer,
                    stage: StartupStage::Model,
                }.with_model(vertices, indices),
                other => Step::Failed(reject(Call::LoadModel, &other)),
            },
            StartupStage::Vertices(upload) => match upload.resume(reply, mem_properties) {
                Step::Next(upload, call) => Step::Next(
                    Startup {
                        graphics_queue_family,
                        renderer,
                        stage: StartupStage::Vertices(upload),
                    },
                    call,
                ),
                Step::Done(buffer) => Startup {
                    graphics_queue_family,
                    renderer,
                    stage: StartupStage::Model,
                }.with_vertices(buffer),
                Step::Failed(e) => Step::Failed(e),
            },
            StartupStage::Indices(upload) => match upload.resume(reply, mem_properties) {
                Step::Next(upload, call) => Step::Next(
                    Startup {
                        graphics_queue_family,
                        renderer,
                        stage: StartupStage::Indices(upload),
                    },
                    call,
                ),
                Step::Done(buffer) => Startup {
                    graphics_queue_family,
                    renderer,
                    stage: StartupStage::Model,
                }.with_indices(buffer),
                Step::Failed(e) => Step::Failed(e),
            },
            StartupStage::Recording(recording) => match renderer.resume_recording(recording, reply) {
                Step::Next(recording, call) => Step::Next(
                    Startup {
                        graphics_queue_family,
                        renderer,
                        stage: StartupStage::Recording(recording),
                    },
                    call,
                ),
                Step::Done(_) => Step::Done(renderer),
                Step::Failed(e) => Step::Failed(e),
            },
        }
    }
}

impl VulkanRenderer {
    /// The call that creates the render pass for a surface that reports
    /// `formats`.
    pub fn create_render_pass(formats: &Vec<SurfaceFormat>) -> (r: Result<Call, RenderError>)
        ensures
            r == render_pass_call(formats@),
    {
        if formats.len() == 0 {
            Err(RenderError::NoSurfaceFormat)
        } else {
            Ok(Call::CreateRenderPass { info: describe_render_pass(formats[0].format) })
        }
    }

    /// Starts to bring the renderer up on a ready device and surface.
    pub fn new(bootstrap: Bootstrap) -> (r: (Startup, Call))
        ensures
            r.0@ == StartupView::begin(bootstrap),
            r.0@.well_formed(),
            r.1 == r.0@.pending(),
    {
        let renderer = VulkanRenderer {
            instance: bootstrap.instance,
            main_device: bootstrap.main_device,
            graphics_queue: bootstrap.graphics_queue,
            surface: bootstrap.surface,
            debug: bootstrap.debug,
            swapchain: RendererSwapchain {
                swapchain: 0,
                image_views: Vec::new(),
                framebuffers: Vec::new(),
                extent: Extent { width: 0, height: 0 },
                image_available: Vec::new(),
                rendering_finished: Vec::new(),
                may_begin_drawing: Vec::new(),
                image_count: 0,
                current_image: 0,
            },
            render_pass: 0,
            graphics_pipeline: RendererPipeline { pipeline: 0, pipeline_layout: 0 },
            command_pools: CommandPools { graphics: 0 },
            graphics_command_buffers: Vec::new(),
            vertex_buffer: Buffer { handle: 0, memory: 0, size: 0, capacity: 0 },
            index_buffer: Buffer { handle: 0, memory: 0, size: 0, capacity: 0 },
            model_index_count: 0,
        };
        let startup = Startup {
            graphics_queue_family: bootstrap.graphics_queue_family,
            renderer,
            stage: StartupStage::Formats,
        };
        (startup, Call::GetSurfaceFormats { surface: bootstrap.surface })
    }
}

/// The startup passes through well-formed states only, and the renderer it
/// ends with is well formed: its swapchain is complete and every image has
/// its command buffer.
pub proof fn lemma_startup_keeps_well_formed(
    startup: StartupView,
    reply: Reply,
    types: Seq<MemoryType>,
)
    requires
        startup.well_formed(),
    ensures
        match startup.resumed(reply, types) {
            Step::Next(next, call) => next.well_formed() && call == next.pending(),
            Step::Done(renderer) => renderer.well_formed(),
            Step::Failed(_) => true,
        },
{
}

/// The startup never goes back: every step stays at its stage or moves to
/// the next one, and only a swapchain without images passes over the
/// framebuffers.
pub proof fn lemma_startup_keeps_its_order(
    startup: StartupView,
    reply: Reply,
    types: Seq<MemoryType>,
)
    requires
        startup.well_formed(),
    ensures
        startup.resumed(reply, types) matches Step::Next(next, _) ==> {
            &&& startup.stage.rank() <= next.stage.rank()
            &&& next.stage.rank() <= startup.stage.rank() + 1 || (startup.stage is Swapchain
                && next.stage is Pipeline && next.renderer.swapchain.image_count == 0)
        },
        startup.resumed(reply, types) is Done ==> startup.stage is Recording || (
        startup.stage is Indices && startup.renderer.swapchain.image_count == 0),
{
}

} // verus!
