use pencilmake::flags::{DEVICE_LOCAL, HOST_COHERENT, HOST_VISIBLE};
use pencilmake::gpu::{
    Call, CommandBufferLevel, Extent, ObjectKind, PipelineStage, RenderError, Reply, ShaderStage,
    Step, SurfaceCapabilities, SurfaceFormat,
};
use pencilmake::state::{
    describe_render_pass, get_attribute_descriptions, get_binding_description, Attachment,
    AttachmentReference, BindPoint, Blend, BlendFactor, BlendOp, ColorAccess, ColorMask, CullMode,
    FrontFace, GraphicsPipelineInfo, ImageLayout, InputRate, LoadOp, PolygonMode, Rasterizer,
    RenderPassInfo, StoreOp, Subpass, SubpassDependency, Topology, VertexAttribute, VertexBinding,
    VertexFormat, Viewport,
};
use pencilmake::memory::{MemoryProperties, MemoryRequirements, MemoryType};
use pencilmake::pipeline::RendererPipeline;
use pencilmake::renderer::VulkanRenderer;
use pencilmake::startup::{Bootstrap, StartupStage};

fn bootstrap() -> Bootstrap {
    Bootstrap {
        instance: 1,
        main_device: 2,
        graphics_queue: 3,
        graphics_queue_family: 0,
        surface: 4,
        debug: 5,
    }
}

fn capabilities() -> SurfaceCapabilities {
    SurfaceCapabilities {
        current_extent: Extent { width: 320, height: 200 },
        current_transform: 1,
        composite_alpha: 1,
    }
}

fn formats() -> Vec<SurfaceFormat> {
    vec![SurfaceFormat { format: 44, color_space: 0 }, SurfaceFormat { format: 50, color_space: 0 }]
}

fn memory_types() -> MemoryProperties {
    MemoryProperties {
        memory_types: vec![
            MemoryType { property_flags: DEVICE_LOCAL, heap_index: 0 },
            MemoryType { property_flags: HOST_VISIBLE | HOST_COHERENT, heap_index: 1 },
        ],
    }
}

struct Driver {
    next: u64,
    formats: Vec<SurfaceFormat>,
    images: u64,
    vertices: usize,
    indices: usize,
    log: Vec<Call>,
}

impl Driver {
    fn perform(&mut self, call: Call) -> Reply {
        self.log.push(call);
        match call {
            Call::CreateRenderPass { .. }
            | Call::CreateSwapchain { .. }
            | Call::CreateImageView { .. }
            | Call::CreateSemaphore
            | Call::CreateFence { .. }
            | Call::CreateFramebuffer { .. }
            | Call::CreateShaderModule { .. }
            | Call::CreatePipelineLayout
            | Call::CreateGraphicsPipeline { .. }
            | Call::CreateCommandPool { .. }
            | Call::CreateBuffer { .. }
            | Call::AllocateMemory { .. }
            | Call::AllocateCommandBuffer { .. } => {
                self.next += 1;
                Reply::Handle(self.next)
            }
            Call::GetSurfaceCapabilities { surface } => {
                assert_eq!(surface, 4);
                Reply::Capabilities(capabilities())
            }
            Call::GetSurfaceFormats { surface } => {
                assert_eq!(surface, 4);
                Reply::Formats(self.formats.clone())
            }
            Call::GetSwapchainImages { .. } => Reply::Handles((0..self.images).map(|i| 9000 + i).collect()),
            Call::AllocateCommandBuffers { count, .. } => {
                Reply::Handles((0..count as u64).map(|i| 8000 + i).collect())
            }
            Call::GetBufferMemoryRequirements { .. } => {
                Reply::Requirements(MemoryRequirements { size: 1 << 20, alignment: 256, memory_type_bits: 0b11 })
            }
            Call::LoadModel => Reply::Model { vertices: self.vertices, indices: self.indices },
            _ => Reply::Done,
        }
    }
}

fn start(images: u64, vertices: usize, indices: usize) -> (Result<VulkanRenderer, RenderError>, Vec<Call>) {
    let mut driver = Driver { next: 10, formats: formats(), images, vertices, indices, log: Vec::new() };
    let types = memory_types();
    let (mut startup, mut call) = VulkanRenderer::new(bootstrap());
    loop {
        let reply = driver.perform(call);
        assert!(startup.is_well_formed());
        match startup.resume(reply, &types) {
            Step::Next(next, then) => {
                startup = next;
                call = then;
            }
            Step::Done(renderer) => {
                assert!(renderer.is_well_formed());
                return (Ok(renderer), driver.log);
            }
            Step::Failed(e) => return (Err(e), driver.log),
        }
    }
}

fn position(log: &[Call], wanted: impl Fn(&Call) -> bool) -> usize {
    log.iter().position(|call| wanted(call)).unwrap()
}

#[test]
fn render_pass_takes_the_first_format() {
    let Ok(Call::CreateRenderPass { info }) = VulkanRenderer::create_render_pass(&formats()) else {
        panic!()
    };
    assert_eq!(info, describe_render_pass(44));
    assert_eq!(
        info,
        RenderPassInfo {
            attachment: Attachment {
                format: 44,
                samples: 1,
                load: LoadOp::Clear,
                store: StoreOp::Store,
                stencil_load: LoadOp::DontCare,
                stencil_store: StoreOp::DontCare,
                initial_layout: ImageLayout::Undefined,
                final_layout: ImageLayout::PresentSource,
            },
            color: AttachmentReference { attachment: 0, layout: ImageLayout::ColorAttachmentOptimal },
            bind_point: BindPoint::Graphics,
            dependency: SubpassDependency {
                source: Subpass::External,
                source_stage: PipelineStage::ColorAttachmentOutput,
                destination: Subpass::Index(0),
                destination_stage: PipelineStage::ColorAttachmentOutput,
                destination_access: ColorAccess { read: true, write: true },
            },
        }
    );
    assert_eq!(VulkanRenderer::create_render_pass(&Vec::new()), Err(RenderError::NoSurfaceFormat));
}

#[test]
fn startup_needs_a_surface_format() {
    let (startup, call) = VulkanRenderer::new(bootstrap());
    assert_eq!(call, Call::GetSurfaceFormats { surface: 4 });
    assert_eq!(
        startup.resume(Reply::Formats(Vec::new()), &memory_types()),
        Step::Failed(RenderError::NoSurfaceFormat)
    );
}

#[test]
fn startup_begins_with_the_render_pass_in_the_first_format() {
    let (startup, _) = VulkanRenderer::new(bootstrap());
    assert_eq!(startup.stage, StartupStage::Formats);
    assert_eq!(startup.renderer.instance, 1);
    assert_eq!(startup.renderer.render_pass, 0);
    let Step::Next(startup, call) = startup.resume(Reply::Formats(formats()), &memory_types()) else {
        panic!()
    };
    assert_eq!(call, Call::CreateRenderPass { info: describe_render_pass(44) });
    assert_eq!(startup.stage, StartupStage::RenderPass { format: 44 });
    let Step::Next(startup, call) = startup.resume(Reply::Handle(70), &memory_types()) else { panic!() };
    assert_eq!(call, Call::GetSurfaceCapabilities { surface: 4 });
    assert_eq!(startup.renderer.render_pass, 70);
}

#[test]
fn startup_builds_a_complete_renderer() {
    let (renderer, log) = start(3, 100, 300);
    let renderer = renderer.unwrap();
    assert_eq!(renderer.swapchain.image_count, 3);
    assert_eq!(renderer.swapchain.extent, Extent { width: 320, height: 200 });
    assert_eq!(renderer.swapchain.image_views.len(), 3);
    assert_eq!(renderer.swapchain.framebuffers.len(), 3);
    assert_eq!(renderer.swapchain.image_available.len(), 3);
    assert_eq!(renderer.swapchain.rendering_finished.len(), 3);
    assert_eq!(renderer.swapchain.may_begin_drawing.len(), 3);
    assert_eq!(renderer.graphics_command_buffers, vec![8000, 8001, 8002]);
    assert_eq!(renderer.model_index_count, 300);
    assert_eq!(renderer.vertex_buffer.size, 3200);
    assert_eq!(renderer.index_buffer.size, 1200);
    assert_eq!(renderer.render_pass, 11);
    assert_ne!(renderer.graphics_pipeline, RendererPipeline { pipeline: 0, pipeline_layout: 0 });
    assert_eq!((renderer.instance, renderer.main_device, renderer.graphics_queue), (1, 2, 3));
    assert_eq!(log.len(), 2 + 16 + 3 + 6 + 1 + 1 + 1 + 20 + 20 + 24);
}

#[test]
fn startup_respects_what_each_object_needs() {
    let (renderer, log) = start(3, 100, 300);
    let renderer = renderer.unwrap();
    let render_pass = position(&log, |c| matches!(c, Call::CreateRenderPass { .. }));
    let swapchain = position(&log, |c| matches!(c, Call::CreateSwapchain { .. }));
    let framebuffer = position(&log, |c| matches!(c, Call::CreateFramebuffer { .. }));
    let pipeline = position(&log, |c| matches!(c, Call::CreateGraphicsPipeline { .. }));
    let pool = position(&log, |c| matches!(c, Call::CreateCommandPool { .. }));
    let buffers = position(&log, |c| matches!(c, Call::AllocateCommandBuffers { .. }));
    let model = position(&log, |c| matches!(c, Call::LoadModel));
    let upload = position(&log, |c| matches!(c, Call::CreateBuffer { .. }));
    let recording = position(&log, |c| matches!(c, Call::BeginCommandBuffer { one_time_submit: false, .. }));
    assert_eq!(render_pass, 1);
    assert_eq!(log[0], Call::GetSurfaceFormats { surface: 4 });
    assert!(render_pass < swapchain);
    assert!(swapchain < framebuffer);
    assert!(framebuffer < pipeline);
    assert!(pipeline < pool);
    assert!(pool < buffers);
    assert!(buffers < model);
    assert!(model < upload);
    assert!(upload < recording);
    assert_eq!(
        log[buffers],
        Call::AllocateCommandBuffers {
            pool: renderer.command_pools.graphics,
            level: CommandBufferLevel::Primary,
            count: 3,
        }
    );
}

#[test]
fn vertices_go_up_before_indices() {
    let (_, log) = start(2, 10, 30);
    let sizes: Vec<(u64, u32)> = log
        .iter()
        .filter_map(|call| match call {
            Call::CreateBuffer { size, usage, .. } => Some((*size, *usage)),
            _ => None,
        })
        .collect();
    assert_eq!(sizes, vec![(320, 0x1), (320, 0x82), (120, 0x1), (120, 0x42)]);
    let writes: Vec<u64> = log
        .iter()
        .filter_map(|call| match call {
            Call::WriteMapped { alignment, .. } => Some(*alignment),
            _ => None,
        })
        .collect();
    assert_eq!(writes, vec![4, 2]);
}

#[test]
fn shaders_are_released_once_the_pipeline_exists() {
    let (machine, call) = RendererPipeline::new(Extent { width: 4, height: 3 }, 70);
    assert_eq!(call, Call::CreateShaderModule { stage: ShaderStage::Vertex });
    let Step::Next(machine, call) = machine.resume(Reply::Handle(21)) else { panic!() };
    assert_eq!(call, Call::CreateShaderModule { stage: ShaderStage::Fragment });
    let Step::Next(machine, call) = machine.resume(Reply::Handle(22)) else { panic!() };
    assert_eq!(call, Call::CreatePipelineLayout);
    let Step::Next(machine, call) = machine.resume(Reply::Handle(23)) else { panic!() };
    let expected = GraphicsPipelineInfo {
        vertex_shader: 21,
        fragment_shader: 22,
        binding: VertexBinding { binding: 0, stride: 32, input_rate: InputRate::Vertex },
        position: VertexAttribute { binding: 0, location: 0, format: VertexFormat::Float3, offset: 0 },
        color: VertexAttribute { binding: 0, location: 1, format: VertexFormat::Float3, offset: 12 },
        coords: VertexAttribute { binding: 0, location: 2, format: VertexFormat::Float2, offset: 24 },
        topology: Topology::TriangleList,
        viewport: Viewport {
            extent: Extent { width: 4, height: 3 },
            min_depth: 0f32.to_bits(),
            max_depth: 0f32.to_bits(),
        },
        scissor: Extent { width: 4, height: 3 },
        rasterizer: Rasterizer {
            line_width: 1f32.to_bits(),
            front_face: FrontFace::CounterClockwise,
            cull_mode: CullMode::Nothing,
            polygon_mode: PolygonMode::Fill,
        },
        samples: 1,
        blend: Blend {
            enable: true,
            source_color: BlendFactor::SourceAlpha,
            destination_color: BlendFactor::OneMinusSourceAlpha,
            color_op: BlendOp::Add,
            source_alpha: BlendFactor::SourceAlpha,
            destination_alpha: BlendFactor::OneMinusSourceAlpha,
            alpha_op: BlendOp::Add,
            write_mask: ColorMask { red: true, green: true, blue: true, alpha: true },
        },
        layout: 23,
        render_pass: 70,
        subpass: 0,
    };
    assert_eq!(call, Call::CreateGraphicsPipeline { info: expected });
    assert_eq!(RendererPipeline::create_graphics_pipeline(70, Extent { width: 4, height: 3 }, 23, 21, 22), expected);
    assert_eq!(get_binding_description(), expected.binding);
    assert_eq!(get_attribute_descriptions(), [expected.position, expected.color, expected.coords]);
    let Step::Next(machine, call) = machine.resume(Reply::Handle(24)) else { panic!() };
    assert_eq!(call, Call::Destroy { kind: ObjectKind::ShaderModule, handle: 21 });
    let Step::Next(machine, call) = machine.resume(Reply::Done) else { panic!() };
    assert_eq!(call, Call::Destroy { kind: ObjectKind::ShaderModule, handle: 22 });
    assert_eq!(machine.resume(Reply::Done), Step::Done(RendererPipeline { pipeline: 24, pipeline_layout: 23 }));
}

#[test]
fn pipeline_cleanup_destroys_pipeline_then_layout() {
    let pipeline = RendererPipeline { pipeline: 24, pipeline_layout: 23 };
    assert_eq!(
        pipeline.cleanup(),
        vec![
            Call::Destroy { kind: ObjectKind::Pipeline, handle: 24 },
            Call::Destroy { kind: ObjectKind::PipelineLayout, handle: 23 },
        ]
    );
}

#[test]
fn model_without_vertices_is_refused() {
    let (renderer, log) = start(3, 0, 300);
    assert_eq!(renderer.unwrap_err(), RenderError::ZeroSizeBuffer);
    assert_eq!(*log.last().unwrap(), Call::LoadModel);
}

#[test]
fn model_without_indices_is_refused() {
    let (renderer, _) = start(3, 8, 0);
    assert_eq!(renderer.unwrap_err(), RenderError::ZeroSizeBuffer);
}

#[test]
fn wrong_number_of_command_buffers_is_refused() {
    let types = memory_types();
    let mut driver =
        Driver { next: 10, formats: formats(), images: 3, vertices: 4, indices: 6, log: Vec::new() };
    let (mut startup, mut call) = VulkanRenderer::new(bootstrap());
    let outcome = loop {
        let reply = match call {
            Call::AllocateCommandBuffers { .. } => Reply::Handles(vec![1, 2]),
            _ => driver.perform(call),
        };
        match startup.resume(reply, &types) {
            Step::Next(next, then) => {
                startup = next;
                call = then;
            }
            Step::Done(_) => panic!(),
            Step::Failed(e) => break e,
        }
    };
    assert_eq!(outcome, RenderError::UnexpectedReply { call });
    assert!(matches!(call, Call::AllocateCommandBuffers { count: 3, .. }));
}

#[test]
fn startup_without_images_records_nothing() {
    let (renderer, log) = start(0, 4, 6);
    let renderer = renderer.unwrap();
    assert_eq!(renderer.swapchain.image_count, 0);
    assert!(renderer.graphics_command_buffers.is_empty());
    assert!(!log.iter().any(|c| matches!(c, Call::CreateFramebuffer { .. })));
    assert!(!log.iter().any(|c| matches!(c, Call::BeginCommandBuffer { one_time_submit: false, .. })));
}

#[test]
fn shutdown_order() {
    let (renderer, _) = start(2, 4, 6);
    let renderer = renderer.unwrap();
    let destroy = |kind, handle| Call::Destroy { kind, handle };
    let mut expected = vec![
        Call::DeviceWaitIdle,
        destroy(ObjectKind::CommandPool, renderer.command_pools.graphics),
        destroy(ObjectKind::Pipeline, renderer.graphics_pipeline.pipeline),
        destroy(ObjectKind::PipelineLayout, renderer.graphics_pipeline.pipeline_layout),
        destroy(ObjectKind::RenderPass, renderer.render_pass),
        destroy(ObjectKind::Buffer, renderer.vertex_buffer.handle),
        destroy(ObjectKind::Memory, renderer.vertex_buffer.memory),
        destroy(ObjectKind::Buffer, renderer.index_buffer.handle),
        destroy(ObjectKind::Memory, renderer.index_buffer.memory),
        destroy(ObjectKind::DebugMessenger, 5),
    ];
    for semaphore in renderer.swapchain.image_available.iter().chain(&renderer.swapchain.rendering_finished) {
        expected.push(destroy(ObjectKind::Semaphore, *semaphore));
    }
    for fence in &renderer.swapchain.may_begin_drawing {
        expected.push(destroy(ObjectKind::Fence, *fence));
    }
    for framebuffer in &renderer.swapchain.framebuffers {
        expected.push(destroy(ObjectKind::Framebuffer, *framebuffer));
    }
    for view in &renderer.swapchain.image_views {
        expected.push(destroy(ObjectKind::ImageView, *view));
    }
    expected.push(destroy(ObjectKind::Swapchain, renderer.swapchain.swapchain));
    expected.push(destroy(ObjectKind::Surface, 4));
    expected.push(destroy(ObjectKind::Device, 2));
    expected.push(destroy(ObjectKind::Instance, 1));
    let calls = renderer.drop();
    assert_eq!(calls, expected);
    let mut handles: Vec<(ObjectKind, u64)> = Vec::new();
    for call in &calls[1..] {
        if let Call::Destroy { kind, handle } = call {
            assert!(!handles.contains(&(*kind, *handle)));
            handles.push((*kind, *handle));
        }
    }
}

#[test]
fn tampered_startup_is_not_well_formed() {
    let types = memory_types();
    let mut driver = Driver { next: 10, formats: formats(), images: 2, vertices: 4, indices: 6, log: Vec::new() };
    let (mut startup, mut call) = VulkanRenderer::new(bootstrap());
    while !matches!(startup.stage, StartupStage::Model) {
        let reply = driver.perform(call);
        match startup.resume(reply, &types) {
            Step::Next(next, then) => {
                startup = next;
                call = then;
            }
            other => panic!("{:?}", other),
        }
    }
    assert!(startup.is_well_formed());
    startup.renderer.graphics_command_buffers.pop();
    assert!(!startup.is_well_formed());
    assert!(!startup.renderer.is_well_formed());
}
