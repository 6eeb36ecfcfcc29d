//! The staged upload of host data into device-local memory.

use vstd::prelude::*;
use crate::buffer::{Buffer, BufferCreation};
use crate::flags::{
    memory_device_local, memory_host_coherent, memory_host_visible, usage_index_buffer,
    usage_transfer_dst, usage_transfer_src, usage_vertex_buffer, DEVICE_LOCAL, HOST_COHERENT,
    HOST_VISIBLE, INDEX_BUFFER, TRANSFER_DST, TRANSFER_SRC, VERTEX_BUFFER,
};
use crate::gpu::{
    rejection, reject, Call, Command, CommandBufferLevel, ObjectKind, RenderError, Reply,
    SharingMode, Step,
};
use crate::memory::{memory_type_choice, MemoryProperties, MemoryRequirements, MemoryType};
use crate::renderer::VulkanRenderer;
use crate::submit::{whole_copy, OneTimeCommands, OneTimeStage};

verus! {

/// How far an upload has come.
#[derive(Clone, Copy, Debug, PartialEq, Eq)]
pub enum UploadStage {
    /// The staging buffer is being created.
    Staging { creation: BufferCreation },
    /// The staging memory is being mapped.
    Mapping { staging: Buffer },
    /// The data is being written into the mapped staging memory.
    Writing { staging: Buffer },
    /// The staging memory is being unmapped.
    Unmapping { staging: Buffer },
    /// The device-local buffer is being created.
    Destination { staging: Buffer, creation: BufferCreation },
    /// The transfer from staging to device-local memory is under way.
    Copying { staging: Buffer, buffer: Buffer, copy: OneTimeCommands },
    /// The staging buffer is being destroyed.
    Destroying { staging: Buffer, buffer: Buffer },
    /// The staging memory is being freed.
    Freeing { staging: Buffer, buffer: Buffer },
}

/// Brings `size` bytes of host data into a device-local buffer: through a
/// host-visible staging buffer and one transfer on `queue`, after which the
/// staging buffer and its memory are released.
#[derive(Clone, Copy, Debug, PartialEq, Eq)]
pub struct Upload {
    /// Bytes to upload; never zero.
    pub size: u64,
    /// Raw usage flags asked for the device-local buffer.
    pub usage: u32,
    /// Alignment of the elements in the staging memory.
    pub alignment: u64,
    pub pool: u64,
    pub queue: u64,
    pub stage: UploadStage,
}

impl Upload {
    /// An upload that has not received any reply yet.
    pub open spec fn begin(size: u64, usage: u32, alignment: u64, pool: u64, queue: u64) -> Upload {
        Upload {
            size,
            usage,
            alignment,
            pool,
            queue,
            stage: UploadStage::Staging {
                creation: BufferCreation::begin(size, TRANSFER_SRC, HOST_VISIBLE | HOST_COHERENT),
            },
        }
    }

    /// The commands of the transfer: one copy of the whole staging buffer.
    pub open spec fn transfer(self, staging: Buffer, buffer: Buffer) -> Seq<Command> {
        seq![whole_copy(staging.handle, buffer.handle, self.size)]
    }

    /// Both buffers have the size of the data, and the transfer is well
    /// formed.
    pub open spec fn well_formed(self) -> bool {
        match self.stage {
            UploadStage::Staging { creation } => creation.size == self.size,
            UploadStage::Mapping { staging } => staging.size == self.size,
            UploadStage::Writing { staging } => staging.size == self.size,
            UploadStage::Unmapping { staging } => staging.size == self.size,
            UploadStage::Destination { staging, creation } => staging.size == self.size
                && creation.size == self.size,
            UploadStage::Copying { staging, buffer, copy } => staging.size == self.size
                && buffer.size == self.size && copy.well_formed(self.transfer(staging, buffer)),
            UploadStage::Destroying { staging, buffer } => staging.size == self.size && buffer.size
                == self.size,
            UploadStage::Freeing { staging, buffer } => staging.size == self.size && buffer.size
                == self.size,
        }
    }

    /// The call whose reply this machine waits for.
    pub open spec fn pending(self) -> Call {
        match self.stage {
            UploadStage::Staging { creation } => creation.pending(),
            UploadStage::Mapping { staging } => Call::MapMemory {
                memory: staging.memory,
                offset: 0,
                size: self.size,
            },
            UploadStage::Writing { staging } => Call::WriteMapped {
                memory: staging.memory,
                alignment: self.alignment,
                capacity: staging.capacity,
            },
            UploadStage::Unmapping { staging } => Call::UnmapMemory { memory: staging.memory },
            UploadStage::Destination { staging, creation } => creation.pending(),
            UploadStage::Copying { staging, buffer, copy } => copy.pending(
                self.transfer(staging, buffer),
            ),
            UploadStage::Destroying { staging, buffer } => Call::Destroy {
                kind: ObjectKind::Buffer,
                handle: staging.handle,
            },
            UploadStage::Freeing { staging, buffer } => Call::Destroy {
                kind: ObjectKind::Memory,
                handle: staging.memory,
            },
        }
    }

    /// This machine at another stage.
    pub open spec fn at(self, stage: UploadStage) -> Upload {
        Upload { stage, ..self }
    }

    /// The machine at `stage`, waiting for the reply to the call of that stage.
    pub open spec fn proceed(self, stage: UploadStage) -> Step<Upload, Buffer> {
        Step::Next(self.at(stage), self.at(stage).pending())
    }

    /// What follows when the pending call is answered with `reply` on a
    /// device with memory types `types`.
    pub open spec fn resumed(self, reply: Reply, types: Seq<MemoryType>) -> Step<Upload, Buffer> {
        match self.stage {
            UploadStage::Staging { creation } => match creation.resumed(reply, types) {
                Step::Next(creation, _) => self.proceed(UploadStage::Staging { creation }),
                Step::Done(staging) => self.proceed(UploadStage::Mapping { staging }),
                Step::Failed(e) => Step::Failed(e),
            },
            UploadStage::Mapping { staging } => match reply {
                Reply::Done => self.proceed(UploadStage::Writing { staging }),
                _ => Step::Failed(rejection(self.pending(), reply)),
            },
            UploadStage::Writing { staging } => match reply {
                Reply::Done => self.proceed(UploadStage::Unmapping { staging }),
                _ => Step::Failed(rejection(self.pending(), reply)),
            },
            UploadStage::Unmapping { staging } => match reply {
                Reply::Done => self.proceed(
                    UploadStage::Destination {
                        staging,
                        creation: BufferCreation::begin(
                            self.size,
                            TRANSFER_DST | self.usage,
                            DEVICE_LOCAL,
                        ),
                    },
                ),
                _ => Step::Failed(rejection(self.pending(), reply)),
            },
            UploadStage::Destination { staging, creation } => match creation.resumed(reply, types) {
                Step::Next(creation, _) => self.proceed(
                    UploadStage::Destination { staging, creation },
                ),
                Step::Done(buffer) => self.proceed(
                    UploadStage::Copying {
                        staging,
                        buffer,
                        copy: OneTimeCommands::begin(self.pool, self.queue),
                    },
                ),
                Step::Failed(e) => Step::Failed(e),
            },
            UploadStage::Copying { staging, buffer, copy } => match copy.resumed(
                reply,
                self.transfer(staging, buffer),
            ) {
                Step::Next(copy, _) => self.proceed(UploadStage::Copying { staging, buffer, copy }),
                Step::Done(_) => self.proceed(UploadStage::Destroying { staging, buffer }),
                Step::Failed(e) => Step::Failed(e),
            },
            UploadStage::Destroying { staging, buffer } => match reply {
                Reply::Done => self.proceed(UploadStage::Freeing { staging, buffer }),
                _ => Step::Failed(rejection(self.pending(), reply)),
            },
            UploadStage::Freeing { staging, buffer } => match reply {
                Reply::Done => Step::Done(buffer),
                _ => Step::Failed(rejection(self.pending(), reply)),
            },
        }
    }

    fn transfer_commands(&self, staging: &Buffer, buffer: &Buffer) -> (commands: Vec<Command>)
        ensures
            commands@ == self.transfer(*staging, *buffer),
    {
        let mut commands: Vec<Command> = Vec::new();
        commands.push(
            Command::CopyBuffer {
                src: staging.handle,
                dst: buffer.handle,
                src_offset: 0,
                dst_offset: 0,
                size: self.size,
            },
        );
        commands
    }

    /// Whether both buffers have the size of the data and the transfer is
    /// well formed.
    pub fn is_well_formed(&self) -> (r: bool)
        ensures
            r == self.well_formed(),
    {
        match self.stage {
            UploadStage::Staging { creation } => creation.size == self.size,
            UploadStage::Mapping { staging } => staging.size == self.size,
            UploadStage::Writing { staging } => staging.size == self.size,
            UploadStage::Unmapping { staging } => staging.size == self.size,
            UploadStage::Destination { staging, creation } => staging.size == self.size
                && creation.size == self.size,
            UploadStage::Copying { staging, buffer, copy } => {
                let commands = self.transfer_commands(&staging, &buffer);
                staging.size == self.size && buffer.size == self.size && copy.is_well_formed(
                    &commands,
                )
            },
            UploadStage::Destroying { staging, buffer } => staging.size == self.size && buffer.size
                == self.size,
            UploadStage::Freeing { staging, buffer } => staging.size == self.size && buffer.size
                == self.size,
        }
    }

    /// The call whose reply this machine waits for.
    pub fn call(&self) -> (c: Call)
        requires
            self.well_formed(),
        ensures
            c == self.pending(),
    {
        match self.stage {
            UploadStage::Staging { creation } => creation.call(),
            UploadStage::Mapping { staging } => Call::MapMemory {
                memory: staging.memory,
                offset: 0,
                size: self.size,
            },
            UploadStage::Writing { staging } => Call::WriteMapped {
                memory: staging.memory,
                alignment: self.alignment,
                capacity: staging.capacity,
            },
            UploadStage::Unmapping { staging } => Call::UnmapMemory { memory: staging.memory },
            UploadStage::Destination { staging, creation } => creation.call(),
            UploadStage::Copying { staging, buffer, copy } => {
                let commands = self.transfer_commands(&staging, &buffer);
                copy.call(&commands)
            },
            UploadStage::Destroying { staging, buffer } => Call::Destroy {
                kind: ObjectKind::Buffer,
                handle: staging.handle,
            },
            UploadStage::Freeing { staging, buffer } => Call::Destroy {
                kind: ObjectKind::Memory,
                handle: staging.memory,
            },
        }
    }

    fn advance(self, stage: UploadStage) -> (r: Step<Upload, Buffer>)
        requires
            self.at(stage).well_formed(),
        ensures
            r == self.proceed(stage),
    {
        let next = Upload { stage, ..self };
        let call = next.call();
        Step::Next(next, call)
    }

    /// Takes the reply to the pending call and says what to do next.
    pub fn resume(self, reply: Reply, mem_properties: &MemoryProperties) -> (r: Step<Upload, Buffer>)
        requires
            self.well_formed(),
        ensures
            r == self.resumed(reply, mem_properties.types()),
            r matches Step::Next(machine, _) ==> machine.well_formed() && machine.size == self.size,
            r matches Step::Done(buffer) ==> buffer.size == self.size,
    {
        match self.stage {
            UploadStage::Staging { creation } => match creation.resume(reply, mem_properties) {
                Step::Next(creation, _) => self.advance(UploadStage::Staging { creation }),
                Step::Done(staging) => self.advance(UploadStage::Mapping { staging }),
                Step::Failed(e) => Step::Failed(e),
            },
            UploadStage::Mapping { staging } => match reply {
                Reply::Done => self.advance(UploadStage::Writing { staging }),
                _ => Step::Failed(reject(self.call(), &reply)),
            },
            UploadStage::Writing { staging } => match reply {
                Reply::Done => self.advance(UploadStage::Unmapping { staging }),
                _ => Step::Failed(reject(self.call(), &reply)),
            },
            UploadStage::Unmapping { staging } => match reply {
                Reply::Done => {
                    let usage = usage_transfer_dst() | self.usage;
                    let (creation, _) = VulkanRenderer::create_buffer(
                        self.size,
                        usage,
                        memory_device_local(),
                    );
                    self.advance(UploadStage::Destination { staging, creation })
                },
                _ => Step::Failed(reject(self.call(), &reply)),
            },
            UploadStage::Destination { staging, creation } => match creation.resume(
                reply,
                mem_properties,
            ) {
                Step::Next(creation, _) => self.advance(
                    UploadStage::Destination { staging, creation },
                ),
                Step::Done(buffer) => {
                    let copy = OneTimeCommands {
                        pool: self.pool,
                        queue: self.queue,
                        command_buffer: 0,
                        stage: OneTimeStage::Allocating,
                    };
                    self.advance(UploadStage::Copying { staging, buffer, copy })
                },
                Step::Failed(e) => Step::Failed(e),
            },
            UploadStage::Copying { staging, buffer, copy } => {
                let commands = self.transfer_commands(&staging, &buffer);
                match copy.resume(reply, &commands) {
                    Step::Next(copy, _) => self.advance(
                        UploadStage::Copying { staging, buffer, copy },
                    ),
                    Step::Done(_) => self.advance(UploadStage::Destroying { staging, buffer }),
                    Step::Failed(e) => Step::Failed(e),
                }
            },
            UploadStage::Destroying { staging, buffer } => match reply {
                Reply::Done => self.advance(UploadStage::Freeing { staging, buffer }),
                _ => Step::Failed(reject(self.call(), &reply)),
            },
            UploadStage::Freeing { staging, buffer } => match reply {
                Reply::Done => Step::Done(buffer),
                _ => Step::Failed(reject(self.call(), &reply)),
            },
        }
    }
}

/// How an upload of `count` elements of `element_size` bytes starts: refused
/// when it has no bytes or more than a `usize` counts, otherwise with the
/// creation of the staging buffer.
pub open spec fn upload_plan(
    pool: u64,
    queue: u64,
    usage: u32,
    count: nat,
    element_size: nat,
    alignment: usize,
) -> Result<(Upload, Call), RenderError> {
    let bytes = count * element_size;
    if bytes == 0 {
        Err(RenderError::ZeroSizeBuffer)
    } else if bytes > usize::MAX {
        Err(RenderError::BufferTooLarge)
    } else {
        let upload = Upload::begin(bytes as u64, usage, alignment as u64, pool, queue);
        Ok((upload, upload.pending()))
    }
}

/// How an upload of `count` elements of type `T` starts, with elements
/// aligned like `A`.
pub open spec fn upload_start<A, T>(pool: u64, queue: u64, usage: u32, count: nat) -> Result<
    (Upload, Call),
    RenderError,
> {
    upload_plan(
        pool,
        queue,
        usage,
        count,
        vstd::layout::size_of::<T>(),
        vstd::layout::align_of::<A>() as usize,
    )
}

impl Upload {
    /// Starts the upload of `count` elements of `element_size` bytes each
    /// into a new device-local buffer with raw usage flags `usage`. An
    /// upload of no bytes is refused.
    pub fn start(
        command_pool: u64,
        transfer_queue: u64,
        usage: u32,
        count: usize,
        element_size: usize,
        alignment: usize,
    ) -> (r: Result<(Upload, Call), RenderError>)
        ensures
            r == upload_plan(
                command_pool,
                transfer_queue,
                usage,
                count as nat,
                element_size as nat,
                alignment,
            ),
            r matches Ok(started) ==> started.0.well_formed(),
    {
        let bytes = match count.checked_mul(element_size) {
            Some(bytes) => bytes,
            None => { return Err(RenderError::BufferTooLarge); },
        };
        if bytes == 0 {
            return Err(RenderError::ZeroSizeBuffer);
        }
        let (creation, call) = VulkanRenderer::create_buffer(
            bytes as u64,
            usage_transfer_src(),
            memory_host_visible() | memory_host_coherent(),
        );
        let upload = Upload {
            size: bytes as u64,
            usage,
            alignment: alignment as u64,
            pool: command_pool,
            queue: transfer_queue,
            stage: UploadStage::Staging { creation },
        };
        Ok((upload, call))
    }
}

impl VulkanRenderer {
    /// Starts the upload of `data` into a new device-local buffer with raw
    /// usage flags `usage`. `A` gives the alignment of the elements in the
    /// staging memory. An upload of no bytes is refused.
    pub fn create_device_local_buffer_with_data<A, T: Copy>(
        command_pool: u64,
        transfer_queue: u64,
        usage: u32,
        data: &[T],
    ) -> (r: Result<(Upload, Call), RenderError>)
        ensures
            r == upload_start::<A, T>(command_pool, transfer_queue, usage, data@.len()),
            r matches Ok(started) ==> started.0.well_formed(),
    {
        Upload::start(
            command_pool,
            transfer_queue,
            usage,
            data.len(),
            core::mem::size_of::<T>(),
            core::mem::align_of::<A>(),
        )
    }

    /// Starts the upload of vertex data into a vertex buffer.
    pub fn create_vertex_buffer<V: Copy>(command_pool: u64, transfer_queue: u64, vertices: &[V]) -> (r:
        Result<(Upload, Call), RenderError>)
        ensures
            r == upload_start::<u32, V>(command_pool, transfer_queue, VERTEX_BUFFER, vertices@.len()),
            r matches Ok(started) ==> started.0.well_formed(),
    {
        Self::create_device_local_buffer_with_data::<u32, V>(
            command_pool,
            transfer_queue,
            usage_vertex_buffer(),
            vertices,
        )
    }

    /// Starts the upload of 32-bit indices into an index buffer.
    pub fn create_index_buffer(command_pool: u64, transfer_queue: u64, indices: &[u32]) -> (r: Result<
        (Upload, Call),
        RenderError,
    >)
        ensures
            r == upload_start::<u16, u32>(command_pool, transfer_queue, INDEX_BUFFER, indices@.len()),
            r matches Ok(started) ==> started.0.well_formed(),
    {
        Self::create_device_local_buffer_with_data::<u16, u32>(
            command_pool,
            transfer_queue,
            usage_index_buffer(),
            indices,
        )
    }
}

impl Upload {
    /// The calls issued when the driver answers with `replies[at..]` in
    /// turn: the pending call first, then one call per reply for as long as
    /// the upload goes on.
    #[verifier::opaque]
    pub open spec fn calls(self, replies: Seq<Reply>, at: int, types: Seq<MemoryType>) -> Seq<Call>
        decreases replies.len() - at,
    {
        if 0 <= at < replies.len() {
            match self.resumed(replies[at], types) {
                Step::Next(next, _) => seq![self.pending()] + next.calls(replies, at + 1, types),
                _ => seq![self.pending()],
            }
        } else {
            seq![self.pending()]
        }
    }

    /// How the upload ends when the driver answers with `replies[at..]` in
    /// turn, if it ends within them.
    #[verifier::opaque]
    pub open spec fn outcome(self, replies: Seq<Reply>, at: int, types: Seq<MemoryType>) -> Option<
        Result<Buffer, RenderError>,
    >
        decreases replies.len() - at,
    {
        if 0 <= at < replies.len() {
            match self.resumed(replies[at], types) {
                Step::Next(next, _) => next.outcome(replies, at + 1, types),
                Step::Done(buffer) => Some(Ok(buffer)),
                Step::Failed(e) => Some(Err(e)),
            }
        } else {
            None
        }
    }
}

/// The replies of a device on which every call of an upload succeeds.
pub open spec fn upload_replies(
    staging: Buffer,
    staging_type_bits: u32,
    buffer: Buffer,
    buffer_type_bits: u32,
    command_buffer: u64,
) -> Seq<Reply> {
    seq![
        Reply::Handle(staging.handle),
        Reply::Requirements(
            MemoryRequirements {
                size: staging.capacity,
                alignment: 1,
                memory_type_bits: staging_type_bits,
            },
        ),
        Reply::Handle(staging.memory),
        Reply::Done,
        Reply::Done,
        Reply::Done,
        Reply::Done,
        Reply::Handle(buffer.handle),
        Reply::Requirements(
            MemoryRequirements {
                size: buffer.capacity,
                alignment: 1,
                memory_type_bits: buffer_type_bits,
            },
        ),
        Reply::Handle(buffer.memory),
        Reply::Done,
        Reply::Handle(command_buffer),
        Reply::Done,
        Reply::Done,
        Reply::Done,
        Reply::Done,
        Reply::Done,
        Reply::Done,
        Reply::Done,
        Reply::Done,
    ]
}

/// The calls of an upload on which every call succeeds: the staging buffer
/// is created and given host-visible memory, which is mapped, filled and
/// unmapped; the device-local
/// buffer is created with the transfer-destination usage added; one
/// one-time submission copies the whole staging buffer over and is waited
/// for; the staging buffer and its memory are released.
pub open spec fn upload_script(
    upload: Upload,
    staging: Buffer,
    staging_type: u32,
    buffer: Buffer,
    buffer_type: u32,
    command_buffer: u64,
) -> Seq<Call> {
    seq![
        Call::CreateBuffer { size: upload.size, usage: TRANSFER_SRC, sharing: SharingMode::Exclusive },
        Call::GetBufferMemoryRequirements { buffer: staging.handle },
        Call::AllocateMemory { size: staging.capacity, memory_type: staging_type },
        Call::BindBufferMemory { buffer: staging.handle, memory: staging.memory, offset: 0 },
        Call::MapMemory { memory: staging.memory, offset: 0, size: upload.size },
        Call::WriteMapped {
            memory: staging.memory,
            alignment: upload.alignment,
            capacity: staging.capacity,
        },
        Call::UnmapMemory { memory: staging.memory },
        Call::CreateBuffer {
            size: upload.size,
            usage: TRANSFER_DST | upload.usage,
            sharing: SharingMode::Exclusive,
        },
        Call::GetBufferMemoryRequirements { buffer: buffer.handle },
        Call::AllocateMemory { size: buffer.capacity, memory_type: buffer_type },
        Call::BindBufferMemory { buffer: buffer.handle, memory: buffer.memory, offset: 0 },
        Call::AllocateCommandBuffer { pool: upload.pool, level: CommandBufferLevel::Primary },
        Call::BeginCommandBuffer { command_buffer, one_time_submit: true },
        Call::Record {
            command_buffer,
            command: whole_copy(staging.handle, buffer.handle, upload.size),
        },
        Call::EndCommandBuffer { command_buffer },
        Call::Submit { queue: upload.queue, command_buffer, sync: None },
        Call::QueueWaitIdle { queue: upload.queue },
        Call::FreeCommandBuffer { pool: upload.pool, command_buffer },
        Call::Destroy { kind: ObjectKind::Buffer, handle: staging.handle },
        Call::Destroy { kind: ObjectKind::Memory, handle: staging.memory },
    ]
}

proof fn lemma_upload_staging_phase(
    upload: Upload,
    types: Seq<MemoryType>,
    replies: Seq<Reply>,
    staging: Buffer,
    staging_type_bits: u32,
    staging_type: u32,
)
    requires
        upload == Upload::begin(upload.size, upload.usage, upload.alignment, upload.pool, upload.queue),
        memory_type_choice(types, staging_type_bits, HOST_VISIBLE | HOST_COHERENT) == Ok::<
            u32,
            RenderError,
        >(staging_type),
        staging.size == upload.size,
        replies.len() >= 4,
        replies[0] == Reply::Handle(staging.handle),
        replies[1] == Reply::Requirements(
            MemoryRequirements {
                size: staging.capacity,
                alignment: 1,
                memory_type_bits: staging_type_bits,
            },
        ),
        replies[2] == Reply::Handle(staging.memory),
        replies[3] == Reply::Done,
    ensures
        upload.calls(replies, 0, types) == seq![
            Call::CreateBuffer {
                size: upload.size,
                usage: TRANSFER_SRC,
                sharing: SharingMode::Exclusive,
            },
            Call::GetBufferMemoryRequirements { buffer: staging.handle },
            Call::AllocateMemory { size: staging.capacity, memory_type: staging_type },
            Call::BindBufferMemory { buffer: staging.handle, memory: staging.memory, offset: 0 },
        ] + upload.at(UploadStage::Mapping { staging }).calls(replies, 4, types),
        upload.outcome(replies, 0, types) == upload.at(UploadStage::Mapping { staging }).outcome(
            replies,
            4,
            types,
        ),
{
    reveal_with_fuel(Upload::calls, 5);
    reveal_with_fuel(Upload::outcome, 5);
    let rest = upload.at(UploadStage::Mapping { staging }).calls(replies, 4, types);
    assert(upload.calls(replies, 0, types) =~= seq![
        Call::CreateBuffer { size: upload.size, usage: TRANSFER_SRC, sharing: SharingMode::Exclusive },
        Call::GetBufferMemoryRequirements { buffer: staging.handle },
        Call::AllocateMemory { size: staging.capacity, memory_type: staging_type },
        Call::BindBufferMemory { buffer: staging.handle, memory: staging.memory, offset: 0 },
    ] + rest);
}

proof fn lemma_upload_destination_phase(
    upload: Upload,
    types: Seq<MemoryType>,
    replies: Seq<Reply>,
    staging: Buffer,
    buffer: Buffer,
    buffer_type_bits: u32,
    buffer_type: u32,
)
    requires
        memory_type_choice(types, buffer_type_bits, DEVICE_LOCAL) == Ok::<u32, RenderError>(
            buffer_type,
        ),
        buffer.size == upload.size,
        upload.stage == (UploadStage::Mapping { staging }),
        replies.len() >= 11,
        replies[4] == Reply::Done,
        replies[5] == Reply::Done,
        replies[6] == Reply::Done,
        replies[7] == Reply::Handle(buffer.handle),
        replies[8] == Reply::Requirements(
            MemoryRequirements {
                size: buffer.capacity,
                alignment: 1,
                memory_type_bits: buffer_type_bits,
            },
        ),
        replies[9] == Reply::Handle(buffer.memory),
        replies[10] == Reply::Done,
    ensures
        upload.calls(replies, 4, types) == seq![
            Call::MapMemory { memory: staging.memory, offset: 0, size: upload.size },
            Call::WriteMapped {
                memory: staging.memory,
                alignment: upload.alignment,
                capacity: staging.capacity,
            },
            Call::UnmapMemory { memory: staging.memory },
            Call::CreateBuffer {
                size: upload.size,
                usage: TRANSFER_DST | upload.usage,
                sharing: SharingMode::Exclusive,
            },
            Call::GetBufferMemoryRequirements { buffer: buffer.handle },
            Call::AllocateMemory { size: buffer.capacity, memory_type: buffer_type },
            Call::BindBufferMemory { buffer: buffer.handle, memory: buffer.memory, offset: 0 },
        ] + upload.at(
            UploadStage::Copying {
                staging,
                buffer,
                copy: OneTimeCommands::begin(upload.pool, upload.queue),
            },
        ).calls(replies, 11, types),
        upload.outcome(replies, 4, types) == upload.at(
            UploadStage::Copying {
                staging,
                buffer,
                copy: OneTimeCommands::begin(upload.pool, upload.queue),
            },
        ).outcome(replies, 11, types),
{
    reveal_with_fuel(Upload::calls, 8);
    reveal_with_fuel(Upload::outcome, 8);
    let rest = upload.at(
        UploadStage::Copying {
            staging,
            buffer,
            copy: OneTimeCommands::begin(upload.pool, upload.queue),
        },
    ).calls(replies, 11, types);
    assert(upload.calls(replies, 4, types) =~= seq![
        Call::MapMemory { memory: staging.memory, offset: 0, size: upload.size },
        Call::WriteMapped {
            memory: staging.memory,
            alignment: upload.alignment,
            capacity: staging.capacity,
        },
        Call::UnmapMemory { memory: staging.memory },
        Call::CreateBuffer {
            size: upload.size,
            usage: TRANSFER_DST | upload.usage,
            sharing: SharingMode::Exclusive,
        },
        Call::GetBufferMemoryRequirements { buffer: buffer.handle },
        Call::AllocateMemory { size: buffer.capacity, memory_type: buffer_type },
        Call::BindBufferMemory { buffer: buffer.handle, memory: buffer.memory, offset: 0 },
    ] + rest);
}

proof fn lemma_upload_transfer_phase(
    upload: Upload,
    types: Seq<MemoryType>,
    replies: Seq<Reply>,
    staging: Buffer,
    buffer: Buffer,
    command_buffer: u64,
)
    requires
        upload.stage == (UploadStage::Copying {
            staging,
            buffer,
            copy: OneTimeCommands::begin(upload.pool, upload.queue),
        }),
        replies.len() >= 18,
        replies[11] == Reply::Handle(command_buffer),
        replies[12] == Reply::Done,
        replies[13] == Reply::Done,
        replies[14] == Reply::Done,
        replies[15] == Reply::Done,
        replies[16] == Reply::Done,
        replies[17] == Reply::Done,
    ensures
        upload.calls(replies, 11, types) == seq![
            Call::AllocateCommandBuffer { pool: upload.pool, level: CommandBufferLevel::Primary },
            Call::BeginCommandBuffer { command_buffer, one_time_submit: true },
            Call::Record {
                command_buffer,
                command: whole_copy(staging.handle, buffer.handle, upload.size),
            },
            Call::EndCommandBuffer { command_buffer },
            Call::Submit { queue: upload.queue, command_buffer, sync: None },
            Call::QueueWaitIdle { queue: upload.queue },
            Call::FreeCommandBuffer { pool: upload.pool, command_buffer },
        ] + upload.at(UploadStage::Destroying { staging, buffer }).calls(replies, 18, types),
        upload.outcome(replies, 11, types) == upload.at(
            UploadStage::Destroying { staging, buffer },
        ).outcome(replies, 18, types),
{
    reveal_with_fuel(Upload::calls, 8);
    reveal_with_fuel(Upload::outcome, 8);
    let rest = upload.at(UploadStage::Destroying { staging, buffer }).calls(replies, 18, types);
    assert(upload.calls(replies, 11, types) =~= seq![
        Call::AllocateCommandBuffer { pool: upload.pool, level: CommandBufferLevel::Primary },
        Call::BeginCommandBuffer { command_buffer, one_time_submit: true },
        Call::Record {
            command_buffer,
            command: whole_copy(staging.handle, buffer.handle, upload.size),
        },
        Call::EndCommandBuffer { command_buffer },
        Call::Submit { queue: upload.queue, command_buffer, sync: None },
        Call::QueueWaitIdle { queue: upload.queue },
        Call::FreeCommandBuffer { pool: upload.pool, command_buffer },
    ] + rest);
}

proof fn lemma_upload_release_phase(
    upload: Upload,
    types: Seq<MemoryType>,
    replies: Seq<Reply>,
    staging: Buffer,
    buffer: Buffer,
)
    requires
        upload.stage == (UploadStage::Destroying { staging, buffer }),
        replies.len() == 20,
        replies[18] == Reply::Done,
        replies[19] == Reply::Done,
    ensures
        upload.calls(replies, 18, types) == seq![
            Call::Destroy { kind: ObjectKind::Buffer, handle: staging.handle },
            Call::Destroy { kind: ObjectKind::Memory, handle: staging.memory },
        ],
        upload.outcome(replies, 18, types) == Some(Ok::<Buffer, RenderError>(buffer)),
{
    reveal_with_fuel(Upload::calls, 3);
    reveal_with_fuel(Upload::outcome, 3);
    assert(upload.calls(replies, 18, types) =~= seq![
        Call::Destroy { kind: ObjectKind::Buffer, handle: staging.handle },
        Call::Destroy { kind: ObjectKind::Memory, handle: staging.memory },
    ]);
}

/// On a device that serves every call, an upload issues exactly the calls
/// of [`upload_script`], in that order, and ends with the device-local
/// buffer.
pub proof fn lemma_upload_order(
    upload: Upload,
    types: Seq<MemoryType>,
    staging: Buffer,
    staging_type_bits: u32,
    staging_type: u32,
    buffer: Buffer,
    buffer_type_bits: u32,
    buffer_type: u32,
    command_buffer: u64,
)
    requires
        upload == Upload::begin(upload.size, upload.usage, upload.alignment, upload.pool, upload.queue),
        memory_type_choice(types, staging_type_bits, HOST_VISIBLE | HOST_COHERENT) == Ok::<
            u32,
            RenderError,
        >(staging_type),
        memory_type_choice(types, buffer_type_bits, DEVICE_LOCAL) == Ok::<u32, RenderError>(
            buffer_type,
        ),
        staging.size == upload.size,
        buffer.size == upload.size,
    ensures
        upload.calls(
            upload_replies(staging, staging_type_bits, buffer, buffer_type_bits, command_buffer),
            0,
            types,
        ) == upload_script(upload, staging, staging_type, buffer, buffer_type, command_buffer),
        upload.outcome(
            upload_replies(staging, staging_type_bits, buffer, buffer_type_bits, command_buffer),
            0,
            types,
        ) == Some(Ok::<Buffer, RenderError>(buffer)),
{
    let replies = upload_replies(staging, staging_type_bits, buffer, buffer_type_bits, command_buffer);
    let mapping = upload.at(UploadStage::Mapping { staging });
    let copying = upload.at(
        UploadStage::Copying {
            staging,
            buffer,
            copy: OneTimeCommands::begin(upload.pool, upload.queue),
        },
    );
    let destroying = upload.at(UploadStage::Destroying { staging, buffer });
    lemma_upload_staging_phase(upload, types, replies, staging, staging_type_bits, staging_type);
    lemma_upload_destination_phase(
        mapping,
        types,
        replies,
        staging,
        buffer,
        buffer_type_bits,
        buffer_type,
    );
    lemma_upload_transfer_phase(copying, types, replies, staging, buffer, command_buffer);
    lemma_upload_release_phase(destroying, types, replies, staging, buffer);
    let release = destroying.calls(replies, 18, types);
    let transfer = copying.calls(replies, 11, types);
    let destination = mapping.calls(replies, 4, types);
    assert(release.len() == 2);
    assert(transfer.len() == 9);
    assert(destination.len() == 16);
    assert(upload.calls(replies, 0, types).len() == 20);
    assert(upload.calls(replies, 0, types) =~= upload_script(
        upload,
        staging,
        staging_type,
        buffer,
        buffer_type,
        command_buffer,
    ));
}

/// Memory after the host has written `data` into it from `offset` on.
pub open spec fn written(memory: Seq<u8>, offset: int, data: Seq<u8>) -> Seq<u8> {
    Seq::new(
        memory.len(),
        |i: int|
            if offset <= i < offset + data.len() {
                data[i - offset]
            } else {
                memory[i]
            },
    )
}

/// The memory of the destination after `command` has run, when the source's
/// memory is `src`; only a copy changes it.
pub open spec fn copied(src: Seq<u8>, dst: Seq<u8>, command: Command) -> Seq<u8> {
    match command {
        Command::CopyBuffer { src_offset, dst_offset, size, .. } => Seq::new(
            dst.len(),
            |i: int|
                if dst_offset <= i < dst_offset + size {
                    src[i - dst_offset + src_offset]
                } else {
                    dst[i]
                },
        ),
        _ => dst,
    }
}

/// An upload never changes its size, and the buffer it ends with has that
/// size: the byte size of the data.
pub proof fn lemma_upload_keeps_size(upload: Upload, reply: Reply, types: Seq<MemoryType>)
    requires
        upload.well_formed(),
    ensures
        match upload.resumed(reply, types) {
            Step::Next(next, call) => next.well_formed() && next.size == upload.size && call
                == next.pending(),
            Step::Done(buffer) => buffer.size == upload.size,
            Step::Failed(_) => true,
        },
{
}

/// The data arrives intact: after the write into the mapping that an upload
/// asks for and the copy that it records, the device-local memory starts with the bytes of
/// the data, whatever the two memories held before.
pub proof fn lemma_upload_round_trip(
    upload: Upload,
    staging: Buffer,
    buffer: Buffer,
    data: Seq<u8>,
    staging_memory: Seq<u8>,
    buffer_memory: Seq<u8>,
)
    requires
        data.len() == upload.size,
        staging_memory.len() >= upload.size,
        buffer_memory.len() >= upload.size,
    ensures
        upload.at(UploadStage::Mapping { staging }).pending() == (Call::MapMemory {
            memory: staging.memory,
            offset: 0,
            size: upload.size,
        }),
        upload.transfer(staging, buffer) == seq![
            whole_copy(staging.handle, buffer.handle, upload.size),
        ],
        copied(
            written(staging_memory, 0, data),
            buffer_memory,
            upload.transfer(staging, buffer)[0],
        ).subrange(0, upload.size as int) == data,
{
    assert(copied(
        written(staging_memory, 0, data),
        buffer_memory,
        upload.transfer(staging, buffer)[0],
    ).subrange(0, upload.size as int) =~= data);
}

} // verus!
