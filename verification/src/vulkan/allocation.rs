//! Allocating a buffer with its memory.

use super::abi::{vk_result_message, MEMORY_DEVICE_LOCAL, SHARING_EXCLUSIVE};
use super::command::{Command, Outcome, Progress, Reply};
use super::memory::{
    find_host_memory_type, find_memory_type_index, no_memory_type, MemoryProperties,
};
use crate::error::{failure_text, vk_failure_message, DeviceError, ErrorView};
use vstd::prelude::*;

verus! {

/// Which memory a buffer lives in.
#[derive(Debug, Clone, Copy, PartialEq, Eq, Structural)]
pub enum Placement {
    /// Memory that the host sees, mapped for as long as the buffer lives.
    Host,
    /// Device-local memory, not mapped.
    DeviceLocal,
}

/// A buffer with its memory.
#[derive(Debug, Clone, Copy, PartialEq, Eq, Structural)]
pub struct Allocated {
    /// `VkBuffer` handle.
    pub buffer: u64,
    /// `VkDeviceMemory` handle.
    pub memory: u64,
    /// Host address of the mapping; zero where the memory is not mapped.
    pub mapped: u64,
}

/// How far an allocation has come.
#[derive(Debug, Clone, Copy, PartialEq, Eq, Structural)]
pub enum AllocationPhase {
    /// The buffer is to be created.
    Creating,
    /// The buffer's memory requirements are to be asked for.
    Measuring {
        /// The buffer.
        buffer: u64,
    },
    /// The memory is to be allocated.
    Allocating {
        /// The buffer.
        buffer: u64,
        /// How much memory it needs.
        size: u64,
        /// The memory type that was found for it.
        type_index: u32,
    },
    /// The memory is to be bound to the buffer.
    Binding {
        /// The buffer.
        buffer: u64,
        /// Its memory.
        memory: u64,
    },
    /// The memory is to be mapped.
    Mapping {
        /// The buffer.
        buffer: u64,
        /// Its memory.
        memory: u64,
    },
}

/// The allocation of a buffer: create it, ask what memory it needs, allocate
/// the memory, bind it and, for the host, map it.
#[derive(Debug, Clone, Copy)]
pub struct Allocation {
    /// The memory that the device has.
    pub memory: MemoryProperties,
    /// The memory that the buffer is to have.
    pub placement: Placement,
    /// Size in bytes.
    pub size: u64,
    /// `VkBufferUsageFlags`.
    pub usage: u32,
    /// How far the allocation has come.
    pub phase: AllocationPhase,
}

/// The allocation that [`allocate_buffer`] and [`allocate_device_local_buffer`]
/// start.
pub open spec fn new_allocation(
    memory: MemoryProperties,
    placement: Placement,
    size: u64,
    usage: u32,
) -> Allocation {
    Allocation { memory, placement, size, usage, phase: AllocationPhase::Creating }
}

/// Starts the allocation of a host-visible, host-coherent, mapped buffer of
/// `size` bytes.
pub fn allocate_buffer(memory: &MemoryProperties, size: u64, usage: u32) -> (allocation: Allocation)
    ensures
        allocation == new_allocation(*memory, Placement::Host, size, usage),
{
    Allocation {
        memory: *memory,
        placement: Placement::Host,
        size,
        usage,
        phase: AllocationPhase::Creating,
    }
}

/// Starts the allocation of a device-local buffer of `size` bytes. It is not
/// mapped: transfers go through staging.
pub fn allocate_device_local_buffer(
    memory: &MemoryProperties,
    size: u64,
    usage: u32,
) -> (allocation: Allocation)
    ensures
        allocation == new_allocation(*memory, Placement::DeviceLocal, size, usage),
{
    Allocation {
        memory: *memory,
        placement: Placement::DeviceLocal,
        size,
        usage,
        phase: AllocationPhase::Creating,
    }
}

impl Allocation {
    /// The same allocation at another phase.
    pub open spec fn at(self, phase: AllocationPhase) -> Allocation {
        Allocation { phase, ..self }
    }

    /// The call that this allocation waits for.
    pub open spec fn wanted<'a>(self) -> Command<'a> {
        match self.phase {
            AllocationPhase::Creating => Command::CreateBuffer {
                size: self.size,
                usage: self.usage,
                sharing: SHARING_EXCLUSIVE,
            },
            AllocationPhase::Measuring { buffer } => Command::MeasureBuffer { buffer },
            AllocationPhase::Allocating { size, type_index, .. } => Command::AllocateMemory {
                size,
                type_index,
            },
            AllocationPhase::Binding { buffer, memory } => Command::BindMemory {
                buffer,
                memory,
                offset: 0,
            },
            AllocationPhase::Mapping { memory, .. } => Command::MapMemory {
                memory,
                offset: 0,
                size: self.size,
            },
        }
    }

    /// The call that this allocation waits for, as an error names it.
    pub open spec fn call_name(self) -> Seq<char> {
        match self.placement {
            Placement::Host => match self.phase {
                AllocationPhase::Creating => "vkCreateBuffer"@,
                AllocationPhase::Measuring { .. } => "vkGetBufferMemoryRequirements"@,
                AllocationPhase::Allocating { .. } => "vkAllocateMemory"@,
                AllocationPhase::Binding { .. } => "vkBindBufferMemory"@,
                AllocationPhase::Mapping { .. } => "vkMapMemory"@,
            },
            Placement::DeviceLocal => match self.phase {
                AllocationPhase::Creating => "vkCreateBuffer(device-local)"@,
                AllocationPhase::Measuring { .. } => "vkGetBufferMemoryRequirements(device-local)"@,
                AllocationPhase::Allocating { .. } => "vkAllocateMemory(device-local)"@,
                AllocationPhase::Binding { .. } => "vkBindBufferMemory(device-local)"@,
                AllocationPhase::Mapping { .. } => "vkMapMemory(device-local)"@,
            },
        }
    }

    /// The memory type for a buffer that may live in the types of `type_bits`.
    pub open spec fn memory_type(self, type_bits: u32) -> Option<u32> {
        match self.placement {
            Placement::Host => self.memory.host_memory_type(type_bits),
            Placement::DeviceLocal => self.memory.memory_type(type_bits, MEMORY_DEVICE_LOCAL),
        }
    }

    /// Where the allocation stands after `reply`. A failed call ends it with an
    /// error that names the call; a reply to another call changes nothing.
    pub open spec fn step(self, reply: Reply) -> Outcome<Allocation, Allocated> {
        if !self.wanted().answered_by(reply) {
            Outcome::Pending(self)
        } else if let Reply::Failed(code) = reply {
            Outcome::Finished(
                Err(
                    ErrorView::BufferCreationFailed {
                        message: failure_text(self.call_name(), vk_result_message(code)),
                    },
                ),
            )
        } else {
            match self.phase {
                AllocationPhase::Creating => Outcome::Pending(
                    self.at(AllocationPhase::Measuring { buffer: reply->Handle_0 }),
                ),
                AllocationPhase::Measuring { buffer } => match self.memory_type(
                    reply->type_bits,
                ) {
                    Some(type_index) => Outcome::Pending(
                        self.at(
                            AllocationPhase::Allocating { buffer, size: reply->size, type_index },
                        ),
                    ),
                    None => Outcome::Finished(Err(no_memory_type())),
                },
                AllocationPhase::Allocating { buffer, .. } => Outcome::Pending(
                    self.at(AllocationPhase::Binding { buffer, memory: reply->Handle_0 }),
                ),
                AllocationPhase::Binding { buffer, memory } => match self.placement {
                    Placement::Host => Outcome::Pending(
                        self.at(AllocationPhase::Mapping { buffer, memory }),
                    ),
                    Placement::DeviceLocal => Outcome::Finished(
                        Ok(Allocated { buffer, memory, mapped: 0 }),
                    ),
                },
                AllocationPhase::Mapping { buffer, memory } => Outcome::Finished(
                    Ok(Allocated { buffer, memory, mapped: reply->Handle_0 }),
                ),
            }
        }
    }

    /// The call to make next.
    pub fn command<'a>(&self) -> (command: Command<'a>)
        ensures
            command == self.wanted(),
    {
        match self.phase {
            AllocationPhase::Creating => Command::CreateBuffer {
                size: self.size,
                usage: self.usage,
                sharing: SHARING_EXCLUSIVE,
            },
            AllocationPhase::Measuring { buffer } => Command::MeasureBuffer { buffer },
            AllocationPhase::Allocating { size, type_index, .. } => Command::AllocateMemory {
                size,
                type_index,
            },
            AllocationPhase::Binding { buffer, memory } => Command::BindMemory {
                buffer,
                memory,
                offset: 0,
            },
            AllocationPhase::Mapping { memory, .. } => Command::MapMemory {
                memory,
                offset: 0,
                size: self.size,
            },
        }
    }

    /// The name of the call to make next, for an error.
    fn name_of_call(&self) -> (name: &'static str)
        ensures
            name@ == self.call_name(),
    {
        match self.placement {
            Placement::Host => match self.phase {
                AllocationPhase::Creating => "vkCreateBuffer",
                AllocationPhase::Measuring { .. } => "vkGetBufferMemoryRequirements",
                AllocationPhase::Allocating { .. } => "vkAllocateMemory",
                AllocationPhase::Binding { .. } => "vkBindBufferMemory",
                AllocationPhase::Mapping { .. } => "vkMapMemory",
            },
            Placement::DeviceLocal => match self.phase {
                AllocationPhase::Creating => "vkCreateBuffer(device-local)",
                AllocationPhase::Measuring { .. } => "vkGetBufferMemoryRequirements(device-local)",
                AllocationPhase::Allocating { .. } => "vkAllocateMemory(device-local)",
                AllocationPhase::Binding { .. } => "vkBindBufferMemory(device-local)",
                AllocationPhase::Mapping { .. } => "vkMapMemory(device-local)",
            },
        }
    }

    /// Finds the memory type for a buffer that may live in the types of
    /// `type_bits`.
    fn find_memory_type(&self, type_bits: u32) -> (index: Result<u32, DeviceError>)
        requires
            self.memory.wf(),
        ensures
            match index {
                Ok(i) => self.memory_type(type_bits) == Some(i),
                Err(error) => self.memory_type(type_bits) is None && error@ == no_memory_type(),
            },
    {
        match self.placement {
            Placement::Host => find_host_memory_type(&self.memory, type_bits),
            Placement::DeviceLocal => find_memory_type_index(
                &self.memory,
                type_bits,
                MEMORY_DEVICE_LOCAL,
            ),
        }
    }

    /// Goes on with the outcome of the call.
    pub fn resume(self, reply: Reply) -> (progress: Progress<Allocation, Allocated>)
        requires
            self.memory.wf(),
        ensures
            progress@ == self.step(reply),
    {
        match (self.phase, reply) {
            (AllocationPhase::Measuring { buffer }, Reply::Requirements { size, type_bits }) => {
                match self.find_memory_type(type_bits) {
                    Ok(type_index) => Progress::Pending(
                        Allocation {
                            phase: AllocationPhase::Allocating { buffer, size, type_index },
                            ..self
                        },
                    ),
                    Err(error) => Progress::Finished(Err(error)),
                }
            },
            (AllocationPhase::Measuring { .. }, _) => Progress::Pending(self),
            (_, Reply::Failed(code)) => {
                let message = vk_failure_message(self.name_of_call(), code);
                Progress::Finished(Err(DeviceError::BufferCreationFailed { message }))
            },
            (AllocationPhase::Creating, Reply::Handle(buffer)) => Progress::Pending(
                Allocation { phase: AllocationPhase::Measuring { buffer }, ..self },
            ),
            (AllocationPhase::Allocating { buffer, .. }, Reply::Handle(memory)) => {
                Progress::Pending(
                    Allocation { phase: AllocationPhase::Binding { buffer, memory }, ..self },
                )
            },
            (AllocationPhase::Binding { buffer, memory }, Reply::Completed) => {
                match self.placement {
                    Placement::Host => Progress::Pending(
                        Allocation { phase: AllocationPhase::Mapping { buffer, memory }, ..self },
                    ),
                    Placement::DeviceLocal => Progress::Finished(
                        Ok(Allocated { buffer, memory, mapped: 0 }),
                    ),
                }
            },
            (AllocationPhase::Mapping { buffer, memory }, Reply::Handle(mapped)) => {
                Progress::Finished(Ok(Allocated { buffer, memory, mapped }))
            },
            _ => Progress::Pending(self),
        }
    }
}

} // verus!
