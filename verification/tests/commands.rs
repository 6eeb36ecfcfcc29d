use pencilmake::buffer::Buffer;
use pencilmake::commands::{RecordStep, Recording};
use pencilmake::gpu::{
    Call, ClearColor, Command, Extent, IndexType, RenderError, Reply, Step,
};
use pencilmake::pipeline::RendererPipeline;
use pencilmake::renderer::{CommandPools, VulkanRenderer};
use pencilmake::swapchain::RendererSwapchain;

fn renderer(images: u64, index_count: u32) -> VulkanRenderer {
    let range = |base: u64| (0..images).map(|i| base + i).collect::<Vec<u64>>();
    VulkanRenderer {
        instance: 1,
        main_device: 2,
        graphics_queue: 3,
        surface: 4,
        debug: 5,
        swapchain: RendererSwapchain {
            swapchain: 6,
            image_views: range(100),
            framebuffers: range(200),
            extent: Extent { width: 1280, height: 720 },
            image_available: range(300),
            rendering_finished: range(400),
            may_begin_drawing: range(500),
            image_count: images as u32,
            current_image: 0,
        },
        render_pass: 7,
        graphics_pipeline: RendererPipeline { pipeline: 8, pipeline_layout: 9 },
        command_pools: CommandPools { graphics: 10 },
        graphics_command_buffers: range(600),
        vertex_buffer: Buffer { handle: 11, memory: 12, size: 64, capacity: 64 },
        index_buffer: Buffer { handle: 13, memory: 14, size: 48, capacity: 64 },
        model_index_count: index_count,
    }
}

fn record(renderer: &VulkanRenderer) -> Vec<Call> {
    let mut log = Vec::new();
    let mut step = renderer.fill_command_buffers();
    loop {
        match step {
            Step::Next(recording, call) => {
                log.push(call);
                assert!(renderer.is_recording(&recording));
                step = renderer.resume_recording(recording, Reply::Done);
            }
            Step::Done(()) => return log,
            Step::Failed(e) => panic!("{:?}", e),
        }
    }
}

fn commands_of(log: &[Call], command_buffer: u64) -> Vec<Command> {
    log.iter()
        .filter_map(|call| match call {
            Call::Record { command_buffer: target, command } if *target == command_buffer => Some(*command),
            _ => None,
        })
        .collect()
}

#[test]
fn three_images_and_a_duck() {
    let renderer = renderer(3, 12636);
    let log = record(&renderer);
    assert_eq!(log.len(), 24);
    let begun: Vec<u64> = log
        .iter()
        .filter_map(|call| match call {
            Call::BeginCommandBuffer { command_buffer, .. } => Some(*command_buffer),
            _ => None,
        })
        .collect();
    assert_eq!(begun, vec![600, 601, 602]);
    let mut framebuffers = Vec::new();
    for (i, command_buffer) in begun.iter().enumerate() {
        let commands = commands_of(&log, *command_buffer);
        assert_eq!(commands.len(), 6);
        match commands[0] {
            Command::BeginRenderPass { framebuffer, .. } => framebuffers.push(framebuffer),
            other => panic!("{:?}", other),
        }
        assert_eq!(commands[2], Command::BindVertexBuffer { binding: 0, buffer: 11, offset: 0 });
        assert_eq!(
            commands[3],
            Command::BindIndexBuffer { buffer: 13, offset: 0, index_type: IndexType::Uint32 }
        );
        assert_eq!(
            commands[4],
            Command::DrawIndexed {
                index_count: 12636,
                instance_count: 1,
                first_index: 0,
                vertex_offset: 0,
                first_instance: 0,
            }
        );
        assert_eq!(framebuffers[i], 200 + i as u64);
    }
    framebuffers.dedup();
    assert_eq!(framebuffers.len(), 3);
}

#[test]
fn one_command_buffer_call_by_call() {
    let renderer = renderer(1, 6);
    assert_eq!(
        record(&renderer),
        vec![
            Call::BeginCommandBuffer { command_buffer: 600, one_time_submit: false },
            Call::Record {
                command_buffer: 600,
                command: Command::BeginRenderPass {
                    render_pass: 7,
                    framebuffer: 200,
                    extent: Extent { width: 1280, height: 720 },
                    clear: ClearColor::OpaqueBlack,
                },
            },
            Call::Record { command_buffer: 600, command: Command::BindPipeline { pipeline: 8 } },
            Call::Record {
                command_buffer: 600,
                command: Command::BindVertexBuffer { binding: 0, buffer: 11, offset: 0 },
            },
            Call::Record {
                command_buffer: 600,
                command: Command::BindIndexBuffer { buffer: 13, offset: 0, index_type: IndexType::Uint32 },
            },
            Call::Record {
                command_buffer: 600,
                command: Command::DrawIndexed {
                    index_count: 6,
                    instance_count: 1,
                    first_index: 0,
                    vertex_offset: 0,
                    first_instance: 0,
                },
            },
            Call::Record { command_buffer: 600, command: Command::EndRenderPass },
            Call::EndCommandBuffer { command_buffer: 600 },
        ]
    );
}

#[test]
fn command_buffers_are_not_one_time() {
    let log = record(&renderer(4, 3));
    let marks: Vec<bool> = log
        .iter()
        .filter_map(|call| match call {
            Call::BeginCommandBuffer { one_time_submit, .. } => Some(*one_time_submit),
            _ => None,
        })
        .collect();
    assert_eq!(marks, vec![false; 4]);
}

#[test]
fn nothing_to_record_without_images() {
    let renderer = renderer(0, 3);
    assert_eq!(renderer.fill_command_buffers(), Step::Done(()));
}

#[test]
fn recording_stops_at_the_first_failure() {
    let renderer = renderer(3, 3);
    let Step::Next(recording, call) = renderer.fill_command_buffers() else { panic!() };
    assert_eq!(recording, Recording { image: 0, step: RecordStep::Begin });
    assert_eq!(
        renderer.resume_recording(recording, Reply::Failed(-1)),
        Step::Failed(RenderError::CallFailed { call, code: -1 })
    );
    let last = Recording { image: 2, step: RecordStep::End };
    assert_eq!(renderer.resume_recording(last, Reply::Done), Step::Done(()));
    assert_eq!(
        renderer.resume_recording(last, Reply::Handle(1)),
        Step::Failed(RenderError::UnexpectedReply { call: Call::EndCommandBuffer { command_buffer: 602 } })
    );
}

#[test]
fn recording_beyond_the_images_is_not_well_formed() {
    let renderer = renderer(3, 3);
    assert!(renderer.is_recording(&Recording { image: 2, step: RecordStep::Draw }));
    assert!(!renderer.is_recording(&Recording { image: 3, step: RecordStep::Begin }));
}
