//! Command buffers that are recorded, submitted once and thrown away.

use vstd::prelude::*;
use crate::gpu::{rejection, reject, Call, Command, CommandBufferLevel, Reply, Step};
use crate::renderer::VulkanRenderer;

verus! {

/// How far a one-time submission has come.
#[derive(Clone, Copy, Debug, PartialEq, Eq)]
pub enum OneTimeStage {
    /// A command buffer is being allocated from the pool.
    Allocating,
    /// Recording is being opened.
    Beginning,
    /// Command `next` is being recorded.
    Recording { next: usize },
    /// Recording is being closed.
    Ending,
    /// The command buffer is being submitted.
    Submitting,
    /// The queue is being drained.
    Draining,
    /// The command buffer is being handed back to the pool.
    Freeing,
}

/// Records the caller's commands into a fresh primary command buffer marked
/// for a single submission, submits it without semaphores or fence, waits
/// until the queue is idle and frees the command buffer.
///
/// The commands stay with the caller, who presents the same list at every
/// step.
#[derive(Clone, Copy, Debug, PartialEq, Eq)]
pub struct OneTimeCommands {
    pub pool: u64,
    pub queue: u64,
    /// The command buffer, once it is allocated; null before.
    pub command_buffer: u64,
    pub stage: OneTimeStage,
}

impl OneTimeCommands {
    /// A submission that has not received any reply yet.
    pub open spec fn begin(pool: u64, queue: u64) -> OneTimeCommands {
        OneTimeCommands { pool, queue, command_buffer: 0, stage: OneTimeStage::Allocating }
    }

    /// A recording stage names one of `commands`.
    pub open spec fn well_formed(self, commands: Seq<Command>) -> bool {
        self.stage matches OneTimeStage::Recording { next } ==> next < commands.len()
    }

    /// The call whose reply this machine waits for.
    pub open spec fn pending(self, commands: Seq<Command>) -> Call {
        match self.stage {
            OneTimeStage::Allocating => Call::AllocateCommandBuffer {
                pool: self.pool,
                level: CommandBufferLevel::Primary,
            },
            OneTimeStage::Beginning => Call::BeginCommandBuffer {
                command_buffer: self.command_buffer,
                one_time_submit: true,
            },
            OneTimeStage::Recording { next } => Call::Record {
                command_buffer: self.command_buffer,
                command: commands[next as int],
            },
            OneTimeStage::Ending => Call::EndCommandBuffer { command_buffer: self.command_buffer },
            OneTimeStage::Submitting => Call::Submit {
                queue: self.queue,
                command_buffer: self.command_buffer,
                sync: None,
            },
            OneTimeStage::Draining => Call::QueueWaitIdle { queue: self.queue },
            OneTimeStage::Freeing => Call::FreeCommandBuffer {
                pool: self.pool,
                command_buffer: self.command_buffer,
            },
        }
    }

    /// This machine at another stage.
    pub open spec fn at(self, stage: OneTimeStage) -> OneTimeCommands {
        OneTimeCommands { stage, ..self }
    }

    /// The stage once `recorded` of the commands are in the buffer.
    pub open spec fn after_recording(commands: Seq<Command>, recorded: int) -> OneTimeStage {
        if recorded < commands.len() {
            OneTimeStage::Recording { next: recorded as usize }
        } else {
            OneTimeStage::Ending
        }
    }

    /// The machine at `stage`, waiting for the reply to the call of that stage.
    pub open spec fn proceed(self, stage: OneTimeStage, commands: Seq<Command>) -> Step<
        OneTimeCommands,
        (),
    > {
        Step::Next(self.at(stage), self.at(stage).pending(commands))
    }

    /// What follows when the pending call is answered with `reply`.
    pub open spec fn resumed(self, reply: Reply, commands: Seq<Command>) -> Step<
        OneTimeCommands,
        (),
    > {
        match (self.stage, reply) {
            (OneTimeStage::Allocating, Reply::Handle(command_buffer)) => OneTimeCommands {
                command_buffer,
                ..self
            }.proceed(OneTimeStage::Beginning, commands),
            (OneTimeStage::Beginning, Reply::Done) => self.proceed(
                Self::after_recording(commands, 0),
                commands,
            ),
            (OneTimeStage::Recording { next }, Reply::Done) => self.proceed(
                Self::after_recording(commands, next + 1),
                commands,
            ),
            (OneTimeStage::Ending, Reply::Done) => self.proceed(OneTimeStage::Submitting, commands),
            (OneTimeStage::Submitting, Reply::Done) => self.proceed(
                OneTimeStage::Draining,
                commands,
            ),
            (OneTimeStage::Draining, Reply::Done) => self.proceed(OneTimeStage::Freeing, commands),
            (OneTimeStage::Freeing, Reply::Done) => Step::Done(()),
            _ => Step::Failed(rejection(self.pending(commands), reply)),
        }
    }

    /// Whether a recording stage names one of `commands`.
    pub fn is_well_formed(&self, commands: &Vec<Command>) -> (r: bool)
        ensures
            r == self.well_formed(commands@),
    {
        match self.stage {
            OneTimeStage::Recording { next } => next < commands.len(),
            _ => true,
        }
    }

    /// The call whose reply this machine waits for.
    pub fn call(&self, commands: &Vec<Command>) -> (c: Call)
        requires
            self.well_formed(commands@),
        ensures
            c == self.pending(commands@),
    {
        match self.stage {
            OneTimeStage::Allocating => Call::AllocateCommandBuffer {
                pool: self.pool,
                level: CommandBufferLevel::Primary,
            },
            OneTimeStage::Beginning => Call::BeginCommandBuffer {
                command_buffer: self.command_buffer,
                one_time_submit: true,
            },
            OneTimeStage::Recording { next } => Call::Record {
                command_buffer: self.command_buffer,
                command: commands[next],
            },
            OneTimeStage::Ending => Call::EndCommandBuffer { command_buffer: self.command_buffer },
            OneTimeStage::Submitting => Call::Submit {
                queue: self.queue,
                command_buffer: self.command_buffer,
                sync: None,
            },
            OneTimeStage::Draining => Call::QueueWaitIdle { queue: self.queue },
            OneTimeStage::Freeing => Call::FreeCommandBuffer {
                pool: self.pool,
                command_buffer: self.command_buffer,
            },
        }
    }

    fn advance(self, stage: OneTimeStage, commands: &Vec<Command>) -> (r: Step<OneTimeCommands, ()>)
        requires
            self.at(stage).well_formed(commands@),
        ensures
            r == self.proceed(stage, commands@),
    {
        let next = OneTimeCommands { stage, ..self };
        let call = next.call(commands);
        Step::Next(next, call)
    }

    fn stage_after(&self, commands: &Vec<Command>, recorded: usize) -> (stage: OneTimeStage)
        ensures
            stage == Self::after_recording(commands@, recorded as int),
            self.at(stage).well_formed(commands@),
    {
        if recorded < commands.len() {
            OneTimeStage::Recording { next: recorded }
        } else {
            OneTimeStage::Ending
        }
    }

    /// Takes the reply to the pending call and says what to do next.
    /// `commands` is the list the submission was started with.
    pub fn resume(self, reply: Reply, commands: &Vec<Command>) -> (r: Step<OneTimeCommands, ()>)
        requires
            self.well_formed(commands@),
        ensures
            r == self.resumed(reply, commands@),
            r matches Step::Next(machine, _) ==> machine.well_formed(commands@),
    {
        match (self.stage, &reply) {
            (OneTimeStage::Allocating, Reply::Handle(command_buffer)) => {
                let allocated = OneTimeCommands { command_buffer: *command_buffer, ..self };
                allocated.advance(OneTimeStage::Beginning, commands)
            },
            (OneTimeStage::Beginning, Reply::Done) => {
                let stage = self.stage_after(commands, 0);
                self.advance(stage, commands)
            },
            (OneTimeStage::Recording { next }, Reply::Done) => {
                let count = commands.len();
                assert(next < count);
                let stage = self.stage_after(commands, next + 1);
                self.advance(stage, commands)
            },
            (OneTimeStage::Ending, Reply::Done) => self.advance(OneTimeStage::Submitting, commands),
            (OneTimeStage::Submitting, Reply::Done) => self.advance(
                OneTimeStage::Draining,
                commands,
            ),
            (OneTimeStage::Draining, Reply::Done) => self.advance(OneTimeStage::Freeing, commands),
            (OneTimeStage::Freeing, Reply::Done) => Step::Done(()),
            _ => Step::Failed(reject(self.call(commands), &reply)),
        }
    }
}

/// The command that copies the first `size` bytes of `src` to the start of
/// `dst`.
pub open spec fn whole_copy(src: u64, dst: u64, size: u64) -> Command {
    Command::CopyBuffer { src, dst, src_offset: 0, dst_offset: 0, size }
}

impl VulkanRenderer {
    /// Starts a one-time submission on `queue`, with a command buffer from
    /// `command_pool`. The commands to record are handed to every
    /// [`OneTimeCommands::resume`].
    pub fn execute_one_time_commands(command_pool: u64, queue: u64) -> (r: (OneTimeCommands, Call))
        ensures
            r.0 == OneTimeCommands::begin(command_pool, queue),
            r.1 == (Call::AllocateCommandBuffer {
                pool: command_pool,
                level: CommandBufferLevel::Primary,
            }),
    {
        let machine = OneTimeCommands {
            pool: command_pool,
            queue,
            command_buffer: 0,
            stage: OneTimeStage::Allocating,
        };
        (machine, Call::AllocateCommandBuffer {
                pool: command_pool,
                level: CommandBufferLevel::Primary,
            })
    }

    /// Starts a one-time submission that copies the first `size` bytes of
    /// `src` to the start of `dst`; the commands to resume it with come back
    /// with the machine.
    pub fn copy_buffer(command_pool: u64, transfer_queue: u64, src: u64, dst: u64, size: u64) -> (r: (
        OneTimeCommands,
        Vec<Command>,
        Call,
    ))
        ensures
            r.0 == OneTimeCommands::begin(command_pool, transfer_queue),
            r.1@ == seq![whole_copy(src, dst, size)],
            r.0.well_formed(r.1@),
            r.2 == r.0.pending(r.1@),
    {
        let mut commands: Vec<Command> = Vec::new();
        commands.push(Command::CopyBuffer { src, dst, src_offset: 0, dst_offset: 0, size });
        let (machine, call) = Self::execute_one_time_commands(command_pool, transfer_queue);
        (machine, commands, call)
    }
}

} // verus!
