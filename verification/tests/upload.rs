use std::collections::HashMap;

use pencilmake::buffer::{Buffer, BufferStage};
use pencilmake::flags::{
    DEVICE_LOCAL, HOST_COHERENT, HOST_VISIBLE, INDEX_BUFFER, TRANSFER_DST, TRANSFER_SRC,
    VERTEX_BUFFER,
};
use pencilmake::gpu::{
    Call, Command, CommandBufferLevel, ErrorClass, ObjectKind, RenderError, Reply, SharingMode,
    Step,
};
use pencilmake::memory::{MemoryProperties, MemoryRequirements, MemoryType};
use pencilmake::renderer::VulkanRenderer;
use pencilmake::submit::{OneTimeCommands, OneTimeStage};
use pencilmake::upload::{Upload, UploadStage};

/// A device that keeps buffers and memory as bytes and runs copies when a
/// command buffer is submitted.
struct Device {
    next: u64,
    log: Vec<Call>,
    host_data: Vec<u8>,
    buffer_sizes: HashMap<u64, u64>,
    bound: HashMap<u64, u64>,
    memories: HashMap<u64, Vec<u8>>,
    recorded: HashMap<u64, Vec<Command>>,
    fail_at: Option<(usize, i32)>,
    padding: u64,
    mapped: Option<(u64, u64)>,
}

impl Device {
    fn new(host_data: Vec<u8>) -> Device {
        Device {
            next: 100,
            log: Vec::new(),
            host_data,
            buffer_sizes: HashMap::new(),
            bound: HashMap::new(),
            memories: HashMap::new(),
            recorded: HashMap::new(),
            fail_at: None,
            padding: 24,
            mapped: None,
        }
    }

    fn fresh(&mut self) -> u64 {
        self.next += 1;
        self.next
    }

    fn perform(&mut self, call: Call) -> Reply {
        let position = self.log.len();
        self.log.push(call);
        if let Some((at, code)) = self.fail_at {
            if at == position {
                return Reply::Failed(code);
            }
        }
        match call {
            Call::CreateBuffer { size, .. } => {
                let handle = self.fresh();
                self.buffer_sizes.insert(handle, size);
                Reply::Handle(handle)
            }
            Call::GetBufferMemoryRequirements { buffer } => Reply::Requirements(MemoryRequirements {
                size: self.buffer_sizes[&buffer] + self.padding,
                alignment: 8,
                memory_type_bits: 0b0110,
            }),
            Call::AllocateMemory { size, .. } => {
                let handle = self.fresh();
                self.memories.insert(handle, vec![0xAA; size as usize]);
                Reply::Handle(handle)
            }
            Call::BindBufferMemory { buffer, memory, offset } => {
                assert_eq!(offset, 0);
                self.bound.insert(buffer, memory);
                Reply::Done
            }
            Call::MapMemory { memory, offset, size } => {
                assert!(self.mapped.is_none());
                assert_eq!(size as usize, self.host_data.len());
                assert!((offset + size) as usize <= self.memories[&memory].len());
                self.mapped = Some((memory, offset));
                Reply::Done
            }
            Call::WriteMapped { memory, capacity, .. } => {
                let (mapped, offset) = self.mapped.unwrap();
                assert_eq!(mapped, memory);
                let target = self.memories.get_mut(&memory).unwrap();
                assert_eq!(capacity as usize, target.len());
                let start = offset as usize;
                target[start..start + self.host_data.len()].copy_from_slice(&self.host_data);
                Reply::Done
            }
            Call::UnmapMemory { memory } => {
                assert_eq!(self.mapped.map(|(mapped, _)| mapped), Some(memory));
                self.mapped = None;
                Reply::Done
            }
            Call::AllocateCommandBuffer { .. } => {
                let handle = self.fresh();
                self.recorded.insert(handle, Vec::new());
                Reply::Handle(handle)
            }
            Call::Record { command_buffer, command } => {
                self.recorded.get_mut(&command_buffer).unwrap().push(command);
                Reply::Done
            }
            Call::Submit { command_buffer, .. } => {
                for command in self.recorded[&command_buffer].clone() {
                    if let Command::CopyBuffer { src, dst, src_offset, dst_offset, size } = command {
                        let from = self.memories[&self.bound[&src]].clone();
                        let into = self.memories.get_mut(&self.bound[&dst]).unwrap();
                        let (s, d, n) = (src_offset as usize, dst_offset as usize, size as usize);
                        into[d..d + n].copy_from_slice(&from[s..s + n]);
                    }
                }
                Reply::Done
            }
            Call::Destroy { kind: ObjectKind::Memory, handle } => {
                self.memories.remove(&handle);
                Reply::Done
            }
            Call::Destroy { kind: ObjectKind::Buffer, handle } => {
                self.buffer_sizes.remove(&handle);
                Reply::Done
            }
            _ => Reply::Done,
        }
    }

    fn read_back(&self, buffer: &Buffer) -> Vec<u8> {
        self.memories[&buffer.memory][..buffer.size as usize].to_vec()
    }
}

fn memory_types() -> MemoryProperties {
    MemoryProperties {
        memory_types: vec![
            MemoryType { property_flags: DEVICE_LOCAL, heap_index: 0 },
            MemoryType { property_flags: DEVICE_LOCAL, heap_index: 0 },
            MemoryType { property_flags: HOST_VISIBLE | HOST_COHERENT, heap_index: 1 },
        ],
    }
}

fn run(
    started: Result<(Upload, Call), RenderError>,
    device: &mut Device,
    types: &MemoryProperties,
) -> Result<Buffer, RenderError> {
    let (mut upload, mut call) = started?;
    loop {
        let reply = device.perform(call);
        assert!(upload.is_well_formed());
        assert_eq!(upload.call(), call);
        match upload.resume(reply, types) {
            Step::Next(next, then) => {
                upload = next;
                call = then;
            }
            Step::Done(buffer) => return Ok(buffer),
            Step::Failed(e) => return Err(e),
        }
    }
}

fn bytes_of(words: &[u32]) -> Vec<u8> {
    words.iter().flat_map(|w| w.to_ne_bytes()).collect()
}

#[test]
fn empty_data_is_a_configuration_error() {
    let nothing: [u32; 0] = [];
    let started = VulkanRenderer::create_device_local_buffer_with_data::<u32, u32>(1, 2, VERTEX_BUFFER, &nothing);
    assert_eq!(started, Err(RenderError::ZeroSizeBuffer));
    assert!(RenderError::ZeroSizeBuffer.is_configuration());
    assert_eq!(VulkanRenderer::create_index_buffer(1, 2, &nothing), Err(RenderError::ZeroSizeBuffer));
    assert_eq!(VulkanRenderer::create_vertex_buffer::<u64>(1, 2, &[]), Err(RenderError::ZeroSizeBuffer));
}

#[test]
fn empty_data_issues_no_call() {
    let mut device = Device::new(Vec::new());
    let nothing: [u32; 0] = [];
    let result = run(VulkanRenderer::create_index_buffer(1, 2, &nothing), &mut device, &memory_types());
    assert_eq!(result, Err(RenderError::ZeroSizeBuffer));
    assert!(device.log.is_empty());
}

#[test]
fn elements_without_size_are_an_empty_upload() {
    let units = [(); 5];
    let started = VulkanRenderer::create_device_local_buffer_with_data::<u8, ()>(1, 2, 0, &units);
    assert_eq!(started, Err(RenderError::ZeroSizeBuffer));
}

#[test]
fn oversized_upload_is_a_configuration_error() {
    let started = Upload::start(1, 2, VERTEX_BUFFER, usize::MAX, 2, 1);
    assert_eq!(started, Err(RenderError::BufferTooLarge));
    assert!(RenderError::BufferTooLarge.is_configuration());
    assert!(Upload::start(1, 2, VERTEX_BUFFER, usize::MAX, 1, 1).is_ok());
}

#[test]
fn upload_starts_with_the_staging_buffer() {
    let data = [7u32, 8, 9];
    let (upload, call) = VulkanRenderer::create_index_buffer(11, 22, &data).unwrap();
    assert_eq!(call, Call::CreateBuffer { size: 12, usage: 0x1, sharing: SharingMode::Exclusive });
    assert_eq!(upload.size, 12);
    assert_eq!(upload.usage, 0x40);
    assert_eq!(upload.alignment, 2);
    assert_eq!(upload.pool, 11);
    assert_eq!(upload.queue, 22);
    match upload.stage {
        UploadStage::Staging { creation } => {
            assert_eq!(creation.size, 12);
            assert_eq!(creation.usage, TRANSFER_SRC);
            assert_eq!(creation.properties, 0x6);
            assert_eq!(creation.stage, BufferStage::Creating);
        }
        other => panic!("unexpected stage {:?}", other),
    }
}

#[test]
fn vertex_upload_uses_word_alignment_and_vertex_usage() {
    let data = [[0u32; 8]; 5];
    let (upload, call) = VulkanRenderer::create_vertex_buffer(1, 2, &data).unwrap();
    assert_eq!(call, Call::CreateBuffer { size: 160, usage: TRANSFER_SRC, sharing: SharingMode::Exclusive });
    assert_eq!(upload.usage, 0x80);
    assert_eq!(upload.alignment, 4);
}

#[test]
fn flag_words_are_those_of_the_graphics_api() {
    assert_eq!(TRANSFER_SRC, ash::vk::BufferUsageFlags::TRANSFER_SRC.as_raw());
    assert_eq!(TRANSFER_DST, ash::vk::BufferUsageFlags::TRANSFER_DST.as_raw());
    assert_eq!(VERTEX_BUFFER, ash::vk::BufferUsageFlags::VERTEX_BUFFER.as_raw());
    assert_eq!(INDEX_BUFFER, ash::vk::BufferUsageFlags::INDEX_BUFFER.as_raw());
    assert_eq!(DEVICE_LOCAL, ash::vk::MemoryPropertyFlags::DEVICE_LOCAL.as_raw());
    assert_eq!(HOST_VISIBLE, ash::vk::MemoryPropertyFlags::HOST_VISIBLE.as_raw());
    assert_eq!(HOST_COHERENT, ash::vk::MemoryPropertyFlags::HOST_COHERENT.as_raw());
}

#[test]
fn upload_issues_its_calls_in_order() {
    let data = [1u32, 2, 3, 4];
    let mut device = Device::new(bytes_of(&data));
    let buffer = run(VulkanRenderer::create_index_buffer(7, 9, &data), &mut device, &memory_types()).unwrap();
    let (staging, staging_memory, destination, destination_memory, commands) = (101, 102, 103, 104, 105);
    assert_eq!(buffer, Buffer { handle: destination, memory: destination_memory, size: 16, capacity: 40 });
    let expected = vec![
        Call::CreateBuffer { size: 16, usage: 0x1, sharing: SharingMode::Exclusive },
        Call::GetBufferMemoryRequirements { buffer: staging },
        Call::AllocateMemory { size: 40, memory_type: 2 },
        Call::BindBufferMemory { buffer: staging, memory: staging_memory, offset: 0 },
        Call::MapMemory { memory: staging_memory, offset: 0, size: 16 },
        Call::WriteMapped { memory: staging_memory, alignment: 2, capacity: 40 },
        Call::UnmapMemory { memory: staging_memory },
        Call::CreateBuffer { size: 16, usage: 0x42, sharing: SharingMode::Exclusive },
        Call::GetBufferMemoryRequirements { buffer: destination },
        Call::AllocateMemory { size: 40, memory_type: 1 },
        Call::BindBufferMemory { buffer: destination, memory: destination_memory, offset: 0 },
        Call::AllocateCommandBuffer { pool: 7, level: CommandBufferLevel::Primary },
        Call::BeginCommandBuffer { command_buffer: commands, one_time_submit: true },
        Call::Record {
            command_buffer: commands,
            command: Command::CopyBuffer { src: staging, dst: destination, src_offset: 0, dst_offset: 0, size: 16 },
        },
        Call::EndCommandBuffer { command_buffer: commands },
        Call::Submit { queue: 9, command_buffer: commands, sync: None },
        Call::QueueWaitIdle { queue: 9 },
        Call::FreeCommandBuffer { pool: 7, command_buffer: commands },
        Call::Destroy { kind: ObjectKind::Buffer, handle: staging },
        Call::Destroy { kind: ObjectKind::Memory, handle: staging_memory },
    ];
    assert_eq!(device.log, expected);
}

#[test]
fn uploaded_bytes_read_back_equal() {
    let data: Vec<u32> = (0..1000u32).map(|i| i.wrapping_mul(2654435761)).collect();
    let mut device = Device::new(bytes_of(&data));
    let buffer = run(
        VulkanRenderer::create_device_local_buffer_with_data::<u32, u32>(1, 2, VERTEX_BUFFER, &data),
        &mut device,
        &memory_types(),
    )
    .unwrap();
    assert_eq!(buffer.size as usize, data.len() * std::mem::size_of::<u32>());
    assert_eq!(device.read_back(&buffer), bytes_of(&data));
}

#[test]
fn staging_is_released_and_the_destination_kept() {
    let data = [5u8; 33];
    let mut device = Device::new(data.to_vec());
    let buffer = run(
        VulkanRenderer::create_device_local_buffer_with_data::<u8, u8>(1, 2, 0x20, &data),
        &mut device,
        &memory_types(),
    )
    .unwrap();
    assert_eq!(buffer.size, 33);
    assert_eq!(device.memories.len(), 1);
    assert!(device.memories.contains_key(&buffer.memory));
    assert_eq!(device.buffer_sizes.len(), 1);
    assert_eq!(device.buffer_sizes[&buffer.handle], 33);
    assert!(device.log.contains(&Call::CreateBuffer {
        size: 33,
        usage: 0x20 | ash::vk::BufferUsageFlags::TRANSFER_DST.as_raw(),
        sharing: SharingMode::Exclusive,
    }));
}

#[test]
fn missing_memory_type_stops_the_upload() {
    let data = [1u32];
    let only_device_local = MemoryProperties {
        memory_types: vec![MemoryType { property_flags: DEVICE_LOCAL, heap_index: 0 }; 3],
    };
    let mut device = Device::new(bytes_of(&data));
    let result = run(VulkanRenderer::create_index_buffer(1, 2, &data), &mut device, &only_device_local);
    assert_eq!(result, Err(RenderError::NoSuitableMemoryType));
    assert_eq!(device.log.len(), 2);
    assert!(RenderError::NoSuitableMemoryType.is_configuration());
}

#[test]
fn device_failure_carries_the_call_and_the_code() {
    let data = [1u32, 2];
    for at in 0..20 {
        let mut device = Device::new(bytes_of(&data));
        device.fail_at = Some((at, -2));
        let result = run(VulkanRenderer::create_index_buffer(1, 2, &data), &mut device, &memory_types());
        let failed = *device.log.last().unwrap();
        assert_eq!(device.log.len(), at + 1);
        assert_eq!(result, Err(RenderError::CallFailed { call: failed, code: -2 }));
        assert!(!result.unwrap_err().is_configuration());
    }
}

#[test]
fn reply_of_the_wrong_shape_is_refused() {
    let (creation, call) = VulkanRenderer::create_buffer(64, 0x80, DEVICE_LOCAL);
    assert_eq!(creation.resume(Reply::Done, &memory_types()), Step::Failed(RenderError::UnexpectedReply { call }));
    assert_eq!(
        creation.resume(Reply::ImageIndex(1), &memory_types()),
        Step::Failed(RenderError::UnexpectedReply { call })
    );
}

#[test]
fn buffer_creation_steps() {
    let types = memory_types();
    let (creation, call) = VulkanRenderer::create_buffer(64, 0x80, DEVICE_LOCAL);
    assert_eq!(call, Call::CreateBuffer { size: 64, usage: 0x80, sharing: SharingMode::Exclusive });
    let Step::Next(creation, call) = creation.resume(Reply::Handle(5), &types) else { panic!() };
    assert_eq!(call, Call::GetBufferMemoryRequirements { buffer: 5 });
    let needs = MemoryRequirements { size: 128, alignment: 64, memory_type_bits: 0b010 };
    let Step::Next(creation, call) = creation.resume(Reply::Requirements(needs), &types) else { panic!() };
    assert_eq!(call, Call::AllocateMemory { size: 128, memory_type: 1 });
    let Step::Next(creation, call) = creation.resume(Reply::Handle(6), &types) else { panic!() };
    assert_eq!(call, Call::BindBufferMemory { buffer: 5, memory: 6, offset: 0 });
    assert_eq!(
        creation.resume(Reply::Done, &types),
        Step::Done(Buffer { handle: 5, memory: 6, size: 64, capacity: 128 })
    );
}

fn run_one_time(commands: &Vec<Command>) -> Vec<Call> {
    let (mut machine, mut call) = VulkanRenderer::execute_one_time_commands(3, 4);
    let mut log = Vec::new();
    loop {
        log.push(call);
        let reply = match call {
            Call::AllocateCommandBuffer { .. } => Reply::Handle(50),
            _ => Reply::Done,
        };
        assert!(machine.is_well_formed(commands));
        assert_eq!(machine.call(commands), call);
        match machine.resume(reply, commands) {
            Step::Next(next, then) => {
                machine = next;
                call = then;
            }
            Step::Done(()) => return log,
            Step::Failed(e) => panic!("{:?}", e),
        }
    }
}

#[test]
fn one_time_submission_without_commands() {
    assert_eq!(
        run_one_time(&Vec::new()),
        vec![
            Call::AllocateCommandBuffer { pool: 3, level: CommandBufferLevel::Primary },
            Call::BeginCommandBuffer { command_buffer: 50, one_time_submit: true },
            Call::EndCommandBuffer { command_buffer: 50 },
            Call::Submit { queue: 4, command_buffer: 50, sync: None },
            Call::QueueWaitIdle { queue: 4 },
            Call::FreeCommandBuffer { pool: 3, command_buffer: 50 },
        ]
    );
}

#[test]
fn one_time_submission_records_every_command_in_order() {
    let commands = vec![
        Command::CopyBuffer { src: 1, dst: 2, src_offset: 0, dst_offset: 0, size: 8 },
        Command::CopyBuffer { src: 2, dst: 3, src_offset: 4, dst_offset: 0, size: 4 },
        Command::EndRenderPass,
    ];
    let log = run_one_time(&commands);
    assert_eq!(log.len(), 9);
    for (i, command) in commands.iter().enumerate() {
        assert_eq!(log[2 + i], Call::Record { command_buffer: 50, command: *command });
    }
    assert_eq!(log[5], Call::EndCommandBuffer { command_buffer: 50 });
}

#[test]
fn copy_buffer_copies_the_whole_range() {
    let (machine, commands, call) = VulkanRenderer::copy_buffer(3, 4, 10, 20, 4096);
    assert_eq!(call, Call::AllocateCommandBuffer { pool: 3, level: CommandBufferLevel::Primary });
    assert_eq!(
        commands,
        vec![Command::CopyBuffer { src: 10, dst: 20, src_offset: 0, dst_offset: 0, size: 4096 }]
    );
    assert_eq!(
        machine,
        OneTimeCommands { pool: 3, queue: 4, command_buffer: 0, stage: OneTimeStage::Allocating }
    );
}

#[test]
fn errors_say_what_failed() {
    let call = Call::CreateBuffer { size: 8, usage: 1, sharing: SharingMode::Exclusive };
    let failed = RenderError::CallFailed { call, code: -2 };
    assert_eq!(failed.message(), "buffer");
    assert_eq!(failed.code(), Some(-2));
    assert_eq!(call.name(), "buffer");
    assert_eq!(RenderError::UnexpectedReply { call: Call::CreateSemaphore }.message(), "semaphore");
    assert_eq!(RenderError::UnexpectedReply { call: Call::CreateSemaphore }.code(), None);
    assert_eq!(RenderError::ZeroSizeBuffer.message(), "upload of no bytes");
    assert_eq!(RenderError::BufferTooLarge.message(), "upload too large");
    assert_eq!(RenderError::NoSuitableMemoryType.message(), "no suitable memory type");
    assert_eq!(RenderError::NoSurfaceFormat.message(), "no surface format");
    assert_eq!(RenderError::ImageIndexOutOfRange { index: 4 }.message(), "image without command buffer");
    assert_eq!(Call::AllocateMemory { size: 1, memory_type: 0 }.name(), "device memory");
    assert_eq!(Call::DeviceWaitIdle.name(), "device wait");
}

#[test]
fn tampered_machines_are_not_well_formed() {
    let data = [1u32, 2];
    let (mut upload, _) = VulkanRenderer::create_index_buffer(1, 2, &data).unwrap();
    assert!(upload.is_well_formed());
    upload.size = 9;
    assert!(!upload.is_well_formed());
    let recording = OneTimeCommands {
        pool: 1,
        queue: 2,
        command_buffer: 3,
        stage: OneTimeStage::Recording { next: 1 },
    };
    let one = vec![Command::EndRenderPass];
    assert!(!recording.is_well_formed(&one));
    assert!(recording.is_well_formed(&vec![Command::EndRenderPass; 2]));
}

#[test]
fn errors_fall_into_classes() {
    let create = Call::CreateSemaphore;
    let acquire = Call::AcquireNextImage { swapchain: 1, semaphore: 2, timeout: u64::MAX };
    let present = Call::Present { queue: 1, swapchain: 2, image_index: 0, wait: 3 };
    assert_eq!(RenderError::ZeroSizeBuffer.class(), ErrorClass::Configuration);
    assert_eq!(RenderError::BufferTooLarge.class(), ErrorClass::Configuration);
    assert_eq!(RenderError::NoSuitableMemoryType.class(), ErrorClass::Configuration);
    assert_eq!(RenderError::NoSurfaceFormat.class(), ErrorClass::Configuration);
    assert_eq!(RenderError::CallFailed { call: create, code: -1 }.class(), ErrorClass::DeviceCall);
    assert_eq!(RenderError::CallFailed { call: acquire, code: -1 }.class(), ErrorClass::Presentation);
    assert_eq!(RenderError::CallFailed { call: present, code: -1 }.class(), ErrorClass::Presentation);
    assert_eq!(RenderError::UnexpectedReply { call: acquire }.class(), ErrorClass::Protocol);
    assert_eq!(RenderError::ImageIndexOutOfRange { index: 9 }.class(), ErrorClass::Protocol);
    for error in [
        RenderError::ZeroSizeBuffer,
        RenderError::CallFailed { call: create, code: -1 },
        RenderError::UnexpectedReply { call: create },
    ] {
        assert_eq!(error.is_configuration(), error.class() == ErrorClass::Configuration);
    }
}
