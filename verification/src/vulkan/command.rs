//! What a buffer operation asks of the driver, one call at a time.
//!
//! A buffer operation is a value that knows the next call: its `command` says
//! what to do, the caller does it and hands the outcome to `resume`, and so on
//! until the operation is finished.

use crate::error::{DeviceError, ErrorView};
use vstd::prelude::*;

verus! {

/// One call on the logical device, with its arguments.
#[derive(Debug, Clone, Copy)]
pub enum Command<'a> {
    /// `vkCreateBuffer`.
    CreateBuffer {
        /// Size in bytes.
        size: u64,
        /// `VkBufferUsageFlags`.
        usage: u32,
        /// `VkSharingMode`.
        sharing: i32,
    },
    /// `vkGetBufferMemoryRequirements`.
    MeasureBuffer {
        /// The buffer asked about.
        buffer: u64,
    },
    /// `vkAllocateMemory`.
    AllocateMemory {
        /// Size in bytes.
        size: u64,
        /// The memory type to allocate from.
        type_index: u32,
    },
    /// `vkBindBufferMemory`.
    BindMemory {
        /// The buffer to give memory to.
        buffer: u64,
        /// The memory it gets.
        memory: u64,
        /// Where in the memory the buffer starts.
        offset: u64,
    },
    /// `vkMapMemory`, without flags.
    MapMemory {
        /// The memory to map.
        memory: u64,
        /// Where the mapping starts.
        offset: u64,
        /// How many bytes it covers.
        size: u64,
    },
    /// Copy host data to the start of a mapping.
    Upload {
        /// The host address of the mapping.
        mapped: u64,
        /// What to copy.
        data: &'a [u8],
    },
    /// `vkAllocateCommandBuffers`, for a single one.
    AllocateCommandBuffer {
        /// The pool to take it from.
        pool: u64,
        /// `VkCommandBufferLevel`.
        level: i32,
    },
    /// `vkBeginCommandBuffer`.
    BeginCommandBuffer {
        /// The command buffer.
        recorder: u64,
        /// `VkCommandBufferUsageFlags`.
        usage: u32,
    },
    /// `vkCmdCopyBuffer` of one region that starts both buffers.
    CopyBuffer {
        /// The command buffer that records the copy.
        recorder: u64,
        /// The buffer read from.
        source: u64,
        /// The buffer written to.
        target: u64,
        /// How many bytes are copied.
        size: u64,
    },
    /// `vkEndCommandBuffer`.
    EndCommandBuffer {
        /// The command buffer.
        recorder: u64,
    },
    /// `vkQueueSubmit` of a single command buffer, without a fence.
    Submit {
        /// The queue.
        queue: u64,
        /// The command buffer.
        recorder: u64,
    },
    /// `vkQueueWaitIdle`.
    WaitIdle {
        /// The queue.
        queue: u64,
    },
    /// `vkFreeCommandBuffers`, for a single one.
    FreeCommandBuffer {
        /// The pool it was taken from.
        pool: u64,
        /// The command buffer.
        recorder: u64,
    },
    /// Copy bytes from the start of a mapping to the host.
    Download {
        /// The host address of the mapping.
        mapped: u64,
        /// How many bytes to copy.
        len: usize,
    },
}

/// How a call went.
#[derive(Debug)]
pub enum Reply {
    /// The call made an object or a mapping: its handle or its host address.
    Handle(u64),
    /// The memory that a buffer needs: how much, and the memory types that may
    /// hold it, one bit each.
    Requirements {
        /// Size in bytes.
        size: u64,
        /// One bit for each memory type.
        type_bits: u32,
    },
    /// The call did its work.
    Completed,
    /// The bytes that were copied to the host.
    Bytes(Vec<u8>),
    /// The call failed with this `VkResult` number.
    Failed(i32),
}

impl<'a> Command<'a> {
    /// `reply` is of the kind that this call can answer with.
    pub open spec fn answered_by(self, reply: Reply) -> bool {
        match self {
            Command::CreateBuffer { .. } | Command::AllocateMemory { .. }
            | Command::MapMemory { .. } | Command::AllocateCommandBuffer {
                ..
            } => reply is Handle || reply is Failed,
            Command::BindMemory { .. } | Command::BeginCommandBuffer { .. }
            | Command::EndCommandBuffer { .. } | Command::Submit { .. } | Command::WaitIdle {
                ..
            } => reply is Completed || reply is Failed,
            Command::MeasureBuffer { .. } => reply is Requirements,
            Command::Upload { .. } | Command::CopyBuffer { .. } | Command::FreeCommandBuffer {
                ..
            } => reply is Completed,
            Command::Download { len, .. } => reply matches Reply::Bytes(bytes) && bytes@.len()
                == len,
        }
    }

    /// Whether `reply` is of the kind that this call can answer with.
    pub fn is_answered_by(&self, reply: &Reply) -> (fits: bool)
        ensures
            fits == self.answered_by(*reply),
    {
        match self {
            Command::CreateBuffer { .. } | Command::AllocateMemory { .. }
            | Command::MapMemory { .. } | Command::AllocateCommandBuffer { .. } => matches!(
                reply,
                Reply::Handle(_) | Reply::Failed(_)
            ),
            Command::BindMemory { .. } | Command::BeginCommandBuffer { .. }
            | Command::EndCommandBuffer { .. } | Command::Submit { .. } | Command::WaitIdle {
                ..
            } => matches!(reply, Reply::Completed | Reply::Failed(_)),
            Command::MeasureBuffer { .. } => matches!(reply, Reply::Requirements { .. }),
            Command::Upload { .. } | Command::CopyBuffer { .. } | Command::FreeCommandBuffer {
                ..
            } => matches!(reply, Reply::Completed),
            Command::Download { len, .. } => match reply {
                Reply::Bytes(bytes) => bytes.len() == *len,
                _ => false,
            },
        }
    }
}

/// Where an operation stands: waiting for its next call, or finished.
pub enum Progress<S, T> {
    /// The operation goes on from here.
    Pending(S),
    /// The operation is over, with its result.
    Finished(Result<T, DeviceError>),
}

/// A [`Progress`] with the error by what it says.
pub enum Outcome<S, T> {
    /// The operation goes on from here.
    Pending(S),
    /// The operation is over, with its result.
    Finished(Result<T, ErrorView>),
}

impl<S, T> View for Progress<S, T> {
    type V = Outcome<S, T>;

    open spec fn view(&self) -> Outcome<S, T> {
        match *self {
            Progress::Pending(state) => Outcome::Pending(state),
            Progress::Finished(Ok(value)) => Outcome::Finished(Ok(value)),
            Progress::Finished(Err(error)) => Outcome::Finished(Err(error@)),
        }
    }
}

} // verus!
