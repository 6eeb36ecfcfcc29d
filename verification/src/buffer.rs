//! Buffers and the memory bound to them.

use vstd::prelude::*;
use crate::gpu::{rejection, reject, Call, Reply, SharingMode, Step};
use crate::memory::{find_memory_type, memory_type_choice, MemoryProperties, MemoryType};
use crate::renderer::VulkanRenderer;

verus! {

/// A buffer with the memory bound to it.
#[derive(Clone, Copy, Debug, PartialEq, Eq)]
pub struct Buffer {
    pub handle: u64,
    pub memory: u64,
    /// Bytes the buffer was created with.
    pub size: u64,
    /// Bytes of the allocation behind it.
    pub capacity: u64,
}

/// How far the creation of a buffer has come.
#[derive(Clone, Copy, Debug, PartialEq, Eq)]
pub enum BufferStage {
    /// The buffer object is being created.
    Creating,
    /// The buffer's memory requirements are being queried.
    Querying { buffer: u64 },
    /// Memory of the chosen type is being allocated.
    Allocating { buffer: u64, capacity: u64, memory_type: u32 },
    /// The memory is being bound to the buffer.
    Binding { buffer: u64, memory: u64, capacity: u64 },
}

/// Creates a buffer and binds freshly allocated memory to it.
#[derive(Clone, Copy, Debug, PartialEq, Eq)]
pub struct BufferCreation {
    pub size: u64,
    pub usage: u32,
    /// Raw memory property flags the memory must have.
    pub properties: u32,
    pub stage: BufferStage,
}

impl BufferCreation {
    /// A creation that has not received any reply yet.
    pub open spec fn begin(size: u64, usage: u32, properties: u32) -> BufferCreation {
        BufferCreation { size, usage, properties, stage: BufferStage::Creating }
    }

    /// The call whose reply this machine waits for.
    pub open spec fn pending(self) -> Call {
        match self.stage {
            BufferStage::Creating => Call::CreateBuffer {
                size: self.size,
                usage: self.usage,
                sharing: SharingMode::Exclusive,
            },
            BufferStage::Querying { buffer } => Call::GetBufferMemoryRequirements { buffer },
            BufferStage::Allocating { buffer, capacity, memory_type } => Call::AllocateMemory {
                size: capacity,
                memory_type,
            },
            BufferStage::Binding { buffer, memory, capacity } => Call::BindBufferMemory {
                buffer,
                memory,
                offset: 0,
            },
        }
    }

    /// This machine at another stage.
    pub open spec fn at(self, stage: BufferStage) -> BufferCreation {
        BufferCreation { stage, ..self }
    }

    /// The machine at `stage`, waiting for the reply to the call of that stage.
    pub open spec fn proceed(self, stage: BufferStage) -> Step<BufferCreation, Buffer> {
        Step::Next(self.at(stage), self.at(stage).pending())
    }

    /// What follows when the pending call is answered with `reply` on a
    /// device with memory types `types`.
    pub open spec fn resumed(self, reply: Reply, types: Seq<MemoryType>) -> Step<
        BufferCreation,
        Buffer,
    > {
        match (self.stage, reply) {
            (BufferStage::Creating, Reply::Handle(buffer)) => self.proceed(
                BufferStage::Querying { buffer },
            ),
            (BufferStage::Querying { buffer }, Reply::Requirements(needs)) => match memory_type_choice(
                types,
                needs.memory_type_bits,
                self.properties,
            ) {
                Ok(memory_type) => self.proceed(
                    BufferStage::Allocating { buffer, capacity: needs.size, memory_type },
                ),
                Err(e) => Step::Failed(e),
            },
            (BufferStage::Allocating { buffer, capacity, memory_type }, Reply::Handle(memory)) => self.proceed(
                BufferStage::Binding { buffer, memory, capacity },
            ),
            (BufferStage::Binding { buffer, memory, capacity }, Reply::Done) => Step::Done(
                Buffer { handle: buffer, memory, size: self.size, capacity },
            ),
            _ => Step::Failed(rejection(self.pending(), reply)),
        }
    }

    /// The call whose reply this machine waits for.
    pub fn call(&self) -> (c: Call)
        ensures
            c == self.pending(),
    {
        match self.stage {
            BufferStage::Creating => Call::CreateBuffer {
                size: self.size,
                usage: self.usage,
                sharing: SharingMode::Exclusive,
            },
            BufferStage::Querying { buffer } => Call::GetBufferMemoryRequirements { buffer },
            BufferStage::Allocating { buffer, capacity, memory_type } => Call::AllocateMemory {
                size: capacity,
                memory_type,
            },
            BufferStage::Binding { buffer, memory, capacity } => Call::BindBufferMemory {
                buffer,
                memory,
                offset: 0,
            },
        }
    }

    fn advance(self, stage: BufferStage) -> (r: Step<BufferCreation, Buffer>)
        ensures
            r == self.proceed(stage),
    {
        let next = BufferCreation { stage, ..self };
        let call = next.call();
        Step::Next(next, call)
    }

    /// Takes the reply to the pending call and says what to do next.
    pub fn resume(self, reply: Reply, mem_properties: &MemoryProperties) -> (r: Step<
        BufferCreation,
        Buffer,
    >)
        ensures
            r == self.resumed(reply, mem_properties.types()),
    {
        match (self.stage, &reply) {
            (BufferStage::Creating, Reply::Handle(buffer)) => self.advance(
                BufferStage::Querying { buffer: *buffer },
            ),
            (BufferStage::Querying { buffer }, Reply::Requirements(needs)) => {
                match find_memory_type(needs, mem_properties, self.properties) {
                    Ok(memory_type) => self.advance(
                        BufferStage::Allocating { buffer, capacity: needs.size, memory_type },
                    ),
                    Err(e) => Step::Failed(e),
                }
            },
            (BufferStage::Allocating { buffer, capacity, memory_type }, Reply::Handle(memory)) => self.advance(
                BufferStage::Binding { buffer, memory: *memory, capacity },
            ),
            (BufferStage::Binding { buffer, memory, capacity }, Reply::Done) => Step::Done(
                Buffer { handle: buffer, memory, size: self.size, capacity },
            ),
            _ => Step::Failed(reject(self.call(), &reply)),
        }
    }
}

impl VulkanRenderer {
    /// Starts the creation of a buffer of `size` bytes with raw usage flags
    /// `usage`, backed by memory that has all of `mem_properties`.
    pub fn create_buffer(size: u64, usage: u32, mem_properties: u32) -> (r: (BufferCreation, Call))
        ensures
            r.0 == BufferCreation::begin(size, usage, mem_properties),
            r.1 == r.0.pending(),
    {
        let creation = BufferCreation {
            size,
            usage,
            properties: mem_properties,
            stage: BufferStage::Creating,
        };
        let call = creation.call();
        (creation, call)
    }
}

} // verus!
