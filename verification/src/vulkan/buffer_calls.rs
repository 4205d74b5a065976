//! Which calls the buffer operations make, in which order and with which
//! arguments, what they end in, and when they fail.

use super::allocation::{
    allocate_buffer, allocate_device_local_buffer, new_allocation, Allocated, Allocation,
    AllocationPhase, Placement,
};
use super::buffer::{
    allocation_size, byte_len, can_allocate, creation_start, new_creation, new_read, whole_elements,
    Buffer, BufferCreation, BufferRead, BufferRelease, CreationPhase, ReadPhase,
};
use super::command::{Command, Outcome, Progress, Reply};
use super::conversation::{lemma_talk_goes_on, talk};
use super::device::VulkanDevice;
use super::hardware_laws::{
    is_host_type, is_local_type, is_rounded_up, lemma_memory_types, usable, COHERENT,
};
use super::memory::{aligned_up, law_align_up_is_least_multiple, MemoryProperties};
use super::transfer::{new_transfer, one_shot_transfer, Transfer, TransferPhase};
use crate::error::{DeviceError, ErrorView};
use vstd::prelude::*;

verus! {

/// Storage, vertex and both transfer usages, as `VkBufferUsageFlags`: a buffer
/// that serves compute and graphics.
pub const SERVES_ALL: u32 = 0xa3;

/// Both transfer usages, as `VkBufferUsageFlags`.
pub const SERVES_TRANSFERS: u32 = 0x3;

/// What the driver grants to an allocation.
pub struct Grant {
    /// The buffer.
    pub buffer: u64,
    /// How much memory the buffer needs.
    pub needed: u64,
    /// The memory types that it may live in, one bit each.
    pub type_bits: u32,
    /// The memory.
    pub memory: u64,
    /// Where the memory is mapped, if it is.
    pub mapped: u64,
}

/// `said`, then the calls that allocate a buffer and bind memory to it.
pub open spec fn said_bound<'a>(
    said: Seq<(Command<'a>, Reply)>,
    size: u64,
    usage: u32,
    grant: Grant,
    type_index: u32,
) -> Seq<(Command<'a>, Reply)> {
    said.push(
        (Command::CreateBuffer { size, usage, sharing: 0 }, Reply::Handle(grant.buffer)),
    ).push(
        (
            Command::MeasureBuffer { buffer: grant.buffer },
            Reply::Requirements { size: grant.needed, type_bits: grant.type_bits },
        ),
    ).push(
        (
            Command::AllocateMemory { size: grant.needed, type_index },
            Reply::Handle(grant.memory),
        ),
    ).push(
        (
            Command::BindMemory { buffer: grant.buffer, memory: grant.memory, offset: 0 },
            Reply::Completed,
        ),
    )
}

/// `said`, then the calls that allocate a buffer, bind memory to it and map
/// that.
pub open spec fn said_mapped<'a>(
    said: Seq<(Command<'a>, Reply)>,
    size: u64,
    usage: u32,
    grant: Grant,
    type_index: u32,
) -> Seq<(Command<'a>, Reply)> {
    said_bound(said, size, usage, grant, type_index).push(
        (
            Command::MapMemory { memory: grant.memory, offset: 0, size },
            Reply::Handle(grant.mapped),
        ),
    )
}

/// `said`, then the calls that copy the first `size` bytes of `source` to
/// `target` on the queue, wait for that, and give back what they took from the
/// pool.
pub open spec fn said_copied<'a>(
    said: Seq<(Command<'a>, Reply)>,
    pool: u64,
    queue: u64,
    source: u64,
    target: u64,
    size: u64,
    recorder: u64,
) -> Seq<(Command<'a>, Reply)> {
    said.push(
        (Command::AllocateCommandBuffer { pool, level: 0 }, Reply::Handle(recorder)),
    ).push((Command::BeginCommandBuffer { recorder, usage: 0x1 }, Reply::Completed)).push(
        (Command::CopyBuffer { recorder, source, target, size }, Reply::Completed),
    ).push((Command::EndCommandBuffer { recorder }, Reply::Completed)).push(
        (Command::Submit { queue, recorder }, Reply::Completed),
    ).push((Command::WaitIdle { queue }, Reply::Completed)).push(
        (Command::FreeCommandBuffer { pool, recorder }, Reply::Completed),
    )
}

/// What the search for a memory type gives, where `index` is the right one.
proof fn lemma_right_type(memory: MemoryProperties, type_bits: u32, index: u32)
    requires
        memory.wf(),
    ensures
        is_host_type(memory, type_bits, index) ==> memory.host_memory_type(type_bits) == Some(
            index,
        ),
        is_local_type(memory, type_bits, index) ==> memory.memory_type(type_bits, 0x1) == Some(
            index,
        ),
{
    lemma_memory_types(memory, type_bits);
    if is_host_type(memory, type_bits, index) {
        let flags = memory.memory_types[index as int].property_flags;
        assert(flags & 0xeu32 == 0xeu32 ==> flags & 0x6u32 == 0x6u32) by (bit_vector);
        assert(usable(memory, type_bits, COHERENT, index));
        let found = memory.host_memory_type(type_bits).unwrap();
        assert(found <= index && index <= found);
    }
    if is_local_type(memory, type_bits, index) {
        assert(usable(memory, type_bits, 0x1, index));
        let found = memory.memory_type(type_bits, 0x1).unwrap();
        assert(found <= index && index <= found);
    }
}

/// The allocation of a buffer that the host sees: it is created with the size
/// and the usage asked for, measured, given as much memory as it needs of the
/// right type, bound at the start and mapped whole.
pub proof fn law_host_allocation_makes_these_calls(
    memory: &MemoryProperties,
    size: u64,
    usage: u32,
    start: Allocation,
    grant: Grant,
    type_index: u32,
)
    requires
        memory.wf(),
        call_ensures(allocate_buffer, (memory, size, usage), start),
        is_host_type(*memory, grant.type_bits, type_index),
    ensures
        talk(start, said_mapped(Seq::empty(), size, usage, grant, type_index)) == Some(
            Outcome::<Allocation, Allocated>::Finished(
                Ok(
                    Allocated {
                        buffer: grant.buffer,
                        memory: grant.memory,
                        mapped: grant.mapped,
                    },
                ),
            ),
        ),
{
    let (buffer, bound) = (grant.buffer, grant.memory);
    lemma_right_type(*memory, grant.type_bits, type_index);
    let said = Seq::<(Command<'static>, Reply)>::empty();
    let s1 = start.at(AllocationPhase::Measuring { buffer });
    let s2 = start.at(AllocationPhase::Allocating { buffer, size: grant.needed, type_index });
    let s3 = start.at(AllocationPhase::Binding { buffer, memory: bound });
    let s4 = start.at(AllocationPhase::Mapping { buffer, memory: bound });
    let all = said_mapped(said, size, usage, grant, type_index);
    lemma_talk_goes_on(start, said, start, all[0].0, all[0].1);
    let said = said.push(all[0]);
    lemma_talk_goes_on(start, said, s1, all[1].0, all[1].1);
    let said = said.push(all[1]);
    lemma_talk_goes_on(start, said, s2, all[2].0, all[2].1);
    let said = said.push(all[2]);
    lemma_talk_goes_on(start, said, s3, all[3].0, all[3].1);
    let said = said.push(all[3]);
    lemma_talk_goes_on(start, said, s4, all[4].0, all[4].1);
}

/// The allocation of a device-local buffer: as for one that the host sees, but
/// in device-local memory, and it is not mapped.
pub proof fn law_local_allocation_makes_these_calls(
    memory: &MemoryProperties,
    size: u64,
    usage: u32,
    start: Allocation,
    grant: Grant,
    type_index: u32,
)
    requires
        memory.wf(),
        call_ensures(allocate_device_local_buffer, (memory, size, usage), start),
        is_local_type(*memory, grant.type_bits, type_index),
    ensures
        talk(start, said_bound(Seq::empty(), size, usage, grant, type_index)) == Some(
            Outcome::<Allocation, Allocated>::Finished(
                Ok(Allocated { buffer: grant.buffer, memory: grant.memory, mapped: 0 }),
            ),
        ),
{
    let (buffer, bound) = (grant.buffer, grant.memory);
    lemma_right_type(*memory, grant.type_bits, type_index);
    let said = Seq::<(Command<'static>, Reply)>::empty();
    let s1 = start.at(AllocationPhase::Measuring { buffer });
    let s2 = start.at(AllocationPhase::Allocating { buffer, size: grant.needed, type_index });
    let s3 = start.at(AllocationPhase::Binding { buffer, memory: bound });
    let all = said_bound(said, size, usage, grant, type_index);
    lemma_talk_goes_on(start, said, start, all[0].0, all[0].1);
    let said = said.push(all[0]);
    lemma_talk_goes_on(start, said, s1, all[1].0, all[1].1);
    let said = said.push(all[1]);
    lemma_talk_goes_on(start, said, s2, all[2].0, all[2].1);
    let said = said.push(all[2]);
    lemma_talk_goes_on(start, said, s3, all[3].0, all[3].1);
}

/// A transfer is one copy on its queue that is waited for, recorded in a primary
/// command buffer for a single submission, which comes from the pool and goes
/// back to it.
pub proof fn law_transfer_makes_these_calls(
    pool: u64,
    queue: u64,
    source: u64,
    target: u64,
    size: u64,
    start: Transfer,
    recorder: u64,
)
    requires
        call_ensures(one_shot_transfer, (pool, queue, source, target, size), start),
    ensures
        talk(start, said_copied(Seq::empty(), pool, queue, source, target, size, recorder))
            == Some(Outcome::<Transfer, ()>::Finished(Ok(()))),
{
    let said = Seq::<(Command<'static>, Reply)>::empty();
    let all = said_copied(said, pool, queue, source, target, size, recorder);
    let s1 = start.at(TransferPhase::Beginning { recorder });
    let s2 = start.at(TransferPhase::Recording { recorder });
    let s3 = start.at(TransferPhase::Ending { recorder });
    let s4 = start.at(TransferPhase::Submitting { recorder });
    let s5 = start.at(TransferPhase::Waiting { recorder });
    let s6 = start.at(TransferPhase::Freeing { recorder });
    lemma_talk_goes_on(start, said, start, all[0].0, all[0].1);
    let said = said.push(all[0]);
    lemma_talk_goes_on(start, said, s1, all[1].0, all[1].1);
    let said = said.push(all[1]);
    lemma_talk_goes_on(start, said, s2, all[2].0, all[2].1);
    let said = said.push(all[2]);
    lemma_talk_goes_on(start, said, s3, all[3].0, all[3].1);
    let said = said.push(all[3]);
    lemma_talk_goes_on(start, said, s4, all[4].0, all[4].1);
    let said = said.push(all[4]);
    lemma_talk_goes_on(start, said, s5, all[5].0, all[5].1);
    let said = said.push(all[5]);
    lemma_talk_goes_on(start, said, s6, all[6].0, all[6].1);
}

/// A creation that allocates its device-local buffer goes on to its staging
/// buffer, which serves transfers alone.
proof fn lemma_creation_binds<'a>(
    start: BufferCreation<'a>,
    said: Seq<(Command<'a>, Reply)>,
    now: BufferCreation<'a>,
    usage: u32,
    grant: Grant,
    type_index: u32,
)
    requires
        now.memory.wf(),
        talk(start, said) == Some(Outcome::<BufferCreation<'a>, Buffer>::Pending(now)),
        now.phase == CreationPhase::Local(
            new_allocation(now.memory, Placement::DeviceLocal, now.size, usage),
        ),
        is_local_type(now.memory, grant.type_bits, type_index),
    ensures
        talk(start, said_bound(said, now.size, usage, grant, type_index)) == Some(
            Outcome::<BufferCreation<'a>, Buffer>::Pending(
                now.at(
                    CreationPhase::Staging {
                        target: Allocated {
                            buffer: grant.buffer,
                            memory: grant.memory,
                            mapped: 0,
                        },
                        allocation: new_allocation(
                            now.memory,
                            Placement::Host,
                            now.size,
                            SERVES_TRANSFERS,
                        ),
                    },
                ),
            ),
        ),
{
    let (buffer, memory) = (grant.buffer, grant.memory);
    lemma_right_type(now.memory, grant.type_bits, type_index);
    assert(0x1u32 | 0x2u32 == 0x3u32) by (bit_vector);
    let a0 = new_allocation(now.memory, Placement::DeviceLocal, now.size, usage);
    let a1 = a0.at(AllocationPhase::Measuring { buffer });
    let a2 = a0.at(AllocationPhase::Allocating { buffer, size: grant.needed, type_index });
    let a3 = a0.at(AllocationPhase::Binding { buffer, memory });
    let s1 = now.at(CreationPhase::Local(a1));
    let s2 = now.at(CreationPhase::Local(a2));
    let s3 = now.at(CreationPhase::Local(a3));
    let n = said.len() as int;
    let all = said_bound(said, now.size, usage, grant, type_index);
    lemma_talk_goes_on(start, said, now, all[n + 0].0, all[n + 0].1);
    let said = said.push(all[n + 0]);
    lemma_talk_goes_on(start, said, s1, all[n + 1].0, all[n + 1].1);
    let said = said.push(all[n + 1]);
    lemma_talk_goes_on(start, said, s2, all[n + 2].0, all[n + 2].1);
    let said = said.push(all[n + 2]);
    lemma_talk_goes_on(start, said, s3, all[n + 3].0, all[n + 3].1);
}

/// A creation that allocates its staging buffer maps it, and goes on to the
/// upload where there is data.
proof fn lemma_creation_stages<'a>(
    start: BufferCreation<'a>,
    said: Seq<(Command<'a>, Reply)>,
    now: BufferCreation<'a>,
    target: Allocated,
    usage: u32,
    grant: Grant,
    type_index: u32,
)
    requires
        now.memory.wf(),
        talk(start, said) == Some(Outcome::<BufferCreation<'a>, Buffer>::Pending(now)),
        now.phase == (CreationPhase::Staging {
            target,
            allocation: new_allocation(now.memory, Placement::Host, now.size, usage),
        }),
        is_host_type(now.memory, grant.type_bits, type_index),
    ensures
        talk(start, said_mapped(said, now.size, usage, grant, type_index)) == Some(
            match now.data {
                Some(data) => Outcome::<BufferCreation<'a>, Buffer>::Pending(
                    now.at(
                        CreationPhase::FillingStaging {
                            target,
                            staging: Allocated {
                                buffer: grant.buffer,
                                memory: grant.memory,
                                mapped: grant.mapped,
                            },
                            data,
                        },
                    ),
                ),
                None => Outcome::Finished(
                    Ok(
                        Buffer {
                            buffer: target.buffer,
                            memory: target.memory,
                            size: now.size,
                            mapped: grant.mapped,
                            staging_buffer: Some(grant.buffer),
                            staging_memory: Some(grant.memory),
                            len: now.len,
                        },
                    ),
                ),
            },
        ),
{
    let (buffer, memory) = (grant.buffer, grant.memory);
    lemma_right_type(now.memory, grant.type_bits, type_index);
    let a0 = new_allocation(now.memory, Placement::Host, now.size, usage);
    let a1 = a0.at(AllocationPhase::Measuring { buffer });
    let a2 = a0.at(AllocationPhase::Allocating { buffer, size: grant.needed, type_index });
    let a3 = a0.at(AllocationPhase::Binding { buffer, memory });
    let a4 = a0.at(AllocationPhase::Mapping { buffer, memory });
    let s1 = now.at(CreationPhase::Staging { target, allocation: a1 });
    let s2 = now.at(CreationPhase::Staging { target, allocation: a2 });
    let s3 = now.at(CreationPhase::Staging { target, allocation: a3 });
    let s4 = now.at(CreationPhase::Staging { target, allocation: a4 });
    let n = said.len() as int;
    let all = said_mapped(said, now.size, usage, grant, type_index);
    lemma_talk_goes_on(start, said, now, all[n + 0].0, all[n + 0].1);
    let said = said.push(all[n + 0]);
    lemma_talk_goes_on(start, said, s1, all[n + 1].0, all[n + 1].1);
    let said = said.push(all[n + 1]);
    lemma_talk_goes_on(start, said, s2, all[n + 2].0, all[n + 2].1);
    let said = said.push(all[n + 2]);
    lemma_talk_goes_on(start, said, s3, all[n + 3].0, all[n + 3].1);
    let said = said.push(all[n + 3]);
    lemma_talk_goes_on(start, said, s4, all[n + 4].0, all[n + 4].1);
}

/// A creation that allocates its host-visible buffer maps it, and goes on to
/// the upload where there is data.
proof fn lemma_creation_maps<'a>(
    start: BufferCreation<'a>,
    said: Seq<(Command<'a>, Reply)>,
    now: BufferCreation<'a>,
    usage: u32,
    grant: Grant,
    type_index: u32,
)
    requires
        now.memory.wf(),
        talk(start, said) == Some(Outcome::<BufferCreation<'a>, Buffer>::Pending(now)),
        now.phase == CreationPhase::Unified(
            new_allocation(now.memory, Placement::Host, now.size, usage),
        ),
        is_host_type(now.memory, grant.type_bits, type_index),
    ensures
        talk(start, said_mapped(said, now.size, usage, grant, type_index)) == Some(
            match now.data {
                Some(data) => Outcome::<BufferCreation<'a>, Buffer>::Pending(
                    now.at(
                        CreationPhase::FillingUnified {
                            host: Allocated {
                                buffer: grant.buffer,
                                memory: grant.memory,
                                mapped: grant.mapped,
                            },
                            data,
                        },
                    ),
                ),
                None => Outcome::Finished(
                    Ok(
                        Buffer {
                            buffer: grant.buffer,
                            memory: grant.memory,
                            size: now.size,
                            mapped: grant.mapped,
                            staging_buffer: None,
                            staging_memory: None,
                            len: now.len,
                        },
                    ),
                ),
            },
        ),
{
    let (buffer, memory) = (grant.buffer, grant.memory);
    lemma_right_type(now.memory, grant.type_bits, type_index);
    let a0 = new_allocation(now.memory, Placement::Host, now.size, usage);
    let a1 = a0.at(AllocationPhase::Measuring { buffer });
    let a2 = a0.at(AllocationPhase::Allocating { buffer, size: grant.needed, type_index });
    let a3 = a0.at(AllocationPhase::Binding { buffer, memory });
    let a4 = a0.at(AllocationPhase::Mapping { buffer, memory });
    let s1 = now.at(CreationPhase::Unified(a1));
    let s2 = now.at(CreationPhase::Unified(a2));
    let s3 = now.at(CreationPhase::Unified(a3));
    let s4 = now.at(CreationPhase::Unified(a4));
    let n = said.len() as int;
    let all = said_mapped(said, now.size, usage, grant, type_index);
    lemma_talk_goes_on(start, said, now, all[n + 0].0, all[n + 0].1);
    let said = said.push(all[n + 0]);
    lemma_talk_goes_on(start, said, s1, all[n + 1].0, all[n + 1].1);
    let said = said.push(all[n + 1]);
    lemma_talk_goes_on(start, said, s2, all[n + 2].0, all[n + 2].1);
    let said = said.push(all[n + 2]);
    lemma_talk_goes_on(start, said, s3, all[n + 3].0, all[n + 3].1);
    let said = said.push(all[n + 3]);
    lemma_talk_goes_on(start, said, s4, all[n + 4].0, all[n + 4].1);
}

/// A creation that moves its data copies it from the staging buffer and is done
/// then.
proof fn lemma_creation_moves<'a>(
    start: BufferCreation<'a>,
    said: Seq<(Command<'a>, Reply)>,
    now: BufferCreation<'a>,
    target: Allocated,
    staging: Allocated,
    transfer: Transfer,
    recorder: u64,
)
    requires
        talk(start, said) == Some(Outcome::<BufferCreation<'a>, Buffer>::Pending(now)),
        now.phase == (CreationPhase::Moving { target, staging, transfer }),
        transfer.phase is Allocating,
    ensures
        talk(
            start,
            said_copied(
                said,
                transfer.pool,
                transfer.queue,
                transfer.source,
                transfer.target,
                transfer.size,
                recorder,
            ),
        ) == Some(
            Outcome::<BufferCreation<'a>, Buffer>::Finished(
                Ok(
                    Buffer {
                        buffer: target.buffer,
                        memory: target.memory,
                        size: now.size,
                        mapped: staging.mapped,
                        staging_buffer: Some(staging.buffer),
                        staging_memory: Some(staging.memory),
                        len: now.len,
                    },
                ),
            ),
        ),
{
    let all = said_copied(
        said,
        transfer.pool,
        transfer.queue,
        transfer.source,
        transfer.target,
        transfer.size,
        recorder,
    );
    let t1 = transfer.at(TransferPhase::Beginning { recorder });
    let t2 = transfer.at(TransferPhase::Recording { recorder });
    let t3 = transfer.at(TransferPhase::Ending { recorder });
    let t4 = transfer.at(TransferPhase::Submitting { recorder });
    let t5 = transfer.at(TransferPhase::Waiting { recorder });
    let t6 = transfer.at(TransferPhase::Freeing { recorder });
    let s1 = now.at(CreationPhase::Moving { target, staging, transfer: t1 });
    let s2 = now.at(CreationPhase::Moving { target, staging, transfer: t2 });
    let s3 = now.at(CreationPhase::Moving { target, staging, transfer: t3 });
    let s4 = now.at(CreationPhase::Moving { target, staging, transfer: t4 });
    let s5 = now.at(CreationPhase::Moving { target, staging, transfer: t5 });
    let s6 = now.at(CreationPhase::Moving { target, staging, transfer: t6 });
    let n = said.len() as int;
    lemma_talk_goes_on(start, said, now, all[n + 0].0, all[n + 0].1);
    let said = said.push(all[n + 0]);
    lemma_talk_goes_on(start, said, s1, all[n + 1].0, all[n + 1].1);
    let said = said.push(all[n + 1]);
    lemma_talk_goes_on(start, said, s2, all[n + 2].0, all[n + 2].1);
    let said = said.push(all[n + 2]);
    lemma_talk_goes_on(start, said, s3, all[n + 3].0, all[n + 3].1);
    let said = said.push(all[n + 3]);
    lemma_talk_goes_on(start, said, s4, all[n + 4].0, all[n + 4].1);
    let said = said.push(all[n + 4]);
    lemma_talk_goes_on(start, said, s5, all[n + 5].0, all[n + 5].1);
    let said = said.push(all[n + 5]);
    lemma_talk_goes_on(start, said, s6, all[n + 6].0, all[n + 6].1);
}

/// `size` is what is allocated for `len` bytes: `len` rounded up to the
/// alignment, and one alignment for no bytes.
pub open spec fn is_allocated_for(len: int, alignment: u64, size: u64) -> bool {
    if len == 0 {
        size == alignment
    } else {
        is_rounded_up(len, alignment as int, size as int)
    }
}

/// A buffer of `len` bytes can be sized: the length can be addressed, and
/// rounding it up stays within 64 bits.
pub open spec fn can_be_sized(len: int, alignment: u64) -> bool {
    &&& len <= usize::MAX
    &&& len == 0 || alignment == 0 || len + alignment - 1 <= u64::MAX
}

/// The memory types that a creation takes: device-local for the buffer itself
/// where the device places it so, and what the host sees for the rest.
pub open spec fn are_right_types(
    device: VulkanDevice,
    local: Grant,
    local_type: u32,
    host: Grant,
    host_type: u32,
) -> bool {
    &&& device.uses_device_local ==> is_local_type(
        device.memory_properties,
        local.type_bits,
        local_type,
    )
    &&& is_host_type(device.memory_properties, host.type_bits, host_type)
}

/// What is said when a buffer is created. In device-local memory: a buffer
/// there that serves all, and a mapped staging buffer; data goes to the
/// mapping, and from the staging buffer to the buffer, on the compute queue. In
/// unified memory: one mapped buffer that serves all, and data goes to the
/// mapping.
pub open spec fn said_created<'a>(
    device: VulkanDevice,
    size: u64,
    data: Option<&'a [u8]>,
    local: Grant,
    local_type: u32,
    host: Grant,
    host_type: u32,
    recorder: u64,
) -> Seq<(Command<'a>, Reply)> {
    if device.uses_device_local {
        let allocated = said_mapped(
            said_bound(Seq::empty(), size, SERVES_ALL, local, local_type),
            size,
            SERVES_TRANSFERS,
            host,
            host_type,
        );
        match data {
            Some(data) => said_copied(
                allocated.push((Command::Upload { mapped: host.mapped, data }, Reply::Completed)),
                device.command_pool,
                device.compute_queue,
                host.buffer,
                local.buffer,
                size,
                recorder,
            ),
            None => allocated,
        }
    } else {
        let allocated = said_mapped(Seq::empty(), size, SERVES_ALL, host, host_type);
        match data {
            Some(data) => allocated.push(
                (Command::Upload { mapped: host.mapped, data }, Reply::Completed),
            ),
            None => allocated,
        }
    }
}

/// The buffer that a creation ends in.
pub open spec fn granted(
    device: VulkanDevice,
    len: usize,
    size: u64,
    local: Grant,
    host: Grant,
) -> Buffer {
    if device.uses_device_local {
        Buffer {
            buffer: local.buffer,
            memory: local.memory,
            size,
            mapped: host.mapped,
            staging_buffer: Some(host.buffer),
            staging_memory: Some(host.memory),
            len,
        }
    } else {
        Buffer {
            buffer: host.buffer,
            memory: host.memory,
            size,
            mapped: host.mapped,
            staging_buffer: None,
            staging_memory: None,
            len,
        }
    }
}

/// The size that a creation allocates.
proof fn lemma_size(len: int, alignment: u64, size: u64)
    requires
        0 <= len,
        can_be_sized(len, alignment),
        is_allocated_for(len, alignment, size),
    ensures
        allocation_size(len as u64, alignment) == size,
        can_allocate(len as u64, alignment),
{
    if len != 0 && alignment != 0 {
        law_align_up_is_least_multiple(len as u64, alignment);
        let (one, other) = (aligned_up(len as u64, alignment), size as int);
        let a = alignment as int;
        vstd::arithmetic::div_mod::lemma_fundamental_div_mod(one, a);
        vstd::arithmetic::div_mod::lemma_fundamental_div_mod(other, a);
        let (p, q) = (one / a, other / a);
        assert(one == other) by (nonlinear_arith)
            requires
                one == a * p,
                other == a * q,
                a > 0,
                len <= one < len + a,
                len <= other < len + a,
        ;
    }
}

/// A creation that starts with `data` to upload makes the calls that belong to
/// it and ends in the buffer.
proof fn lemma_creation_calls<'a>(
    device: VulkanDevice,
    len: usize,
    data: Option<&'a [u8]>,
    size: u64,
    local: Grant,
    local_type: u32,
    host: Grant,
    host_type: u32,
    recorder: u64,
)
    requires
        device.wf(),
        can_be_sized(len as int, device.limits.min_storage_buffer_offset_alignment),
        is_allocated_for(len as int, device.limits.min_storage_buffer_offset_alignment, size),
        are_right_types(device, local, local_type, host, host_type),
    ensures
        creation_start(&device, len as int, data) matches Outcome::<
            BufferCreation<'a>,
            Buffer,
        >::Pending(start) && talk(
            start,
            said_created(device, size, data, local, local_type, host, host_type, recorder),
        ) == Some(
            Outcome::<BufferCreation<'a>, Buffer>::Finished(
                Ok(granted(device, len, size, local, host)),
            ),
        ),
{
    lemma_size(len as int, device.limits.min_storage_buffer_offset_alignment, size);
    assert(0x20u32 | 0x80u32 | 0x1u32 | 0x2u32 == 0xa3u32) by (bit_vector);
    let start = new_creation(&device, len, data);
    let none = Seq::<(Command<'a>, Reply)>::empty();
    assert(talk(start, none) == Some(Outcome::<BufferCreation<'a>, Buffer>::Pending(start)));
    let staging = Allocated { buffer: host.buffer, memory: host.memory, mapped: host.mapped };
    if device.uses_device_local {
        let target = Allocated { buffer: local.buffer, memory: local.memory, mapped: 0 };
        lemma_creation_binds(start, none, start, SERVES_ALL, local, local_type);
        let said = said_bound(none, size, SERVES_ALL, local, local_type);
        let allocation = new_allocation(start.memory, Placement::Host, size, SERVES_TRANSFERS);
        let now = start.at(CreationPhase::Staging { target, allocation });
        lemma_creation_stages(start, said, now, target, SERVES_TRANSFERS, host, host_type);
        if let Some(data) = data {
            let said = said_mapped(said, size, SERVES_TRANSFERS, host, host_type);
            let now = start.at(CreationPhase::FillingStaging { target, staging, data });
            let upload = Command::Upload { mapped: host.mapped, data };
            lemma_talk_goes_on(start, said, now, upload, Reply::Completed);
            let said = said.push((upload, Reply::Completed));
            let transfer = new_transfer(
                device.command_pool,
                device.compute_queue,
                host.buffer,
                local.buffer,
                size,
            );
            let now = start.at(CreationPhase::Moving { target, staging, transfer });
            lemma_creation_moves(start, said, now, target, staging, transfer, recorder);
        }
    } else {
        lemma_creation_maps(start, none, start, SERVES_ALL, host, host_type);
        if let Some(data) = data {
            let said = said_mapped(none, size, SERVES_ALL, host, host_type);
            let now = start.at(CreationPhase::FillingUnified { host: staging, data });
            let upload = Command::Upload { mapped: host.mapped, data };
            lemma_talk_goes_on(start, said, now, upload, Reply::Completed);
        }
    }
}

/// The data to upload: none where it is empty.
pub open spec fn if_any<'a>(data: &'a [u8]) -> Option<&'a [u8]> {
    if data@.len() == 0 {
        None
    } else {
        Some(data)
    }
}

/// Whatever the driver grants, the creation of a buffer with data makes these
/// calls and no others, and ends in the buffer that they made, as long as the
/// data.
pub proof fn law_creation_with_data_makes_these_calls<'a>(
    device: &VulkanDevice,
    data: &'a [u8],
    progress: Progress<BufferCreation<'a>, Buffer>,
    size: u64,
    local: Grant,
    local_type: u32,
    host: Grant,
    host_type: u32,
    recorder: u64,
)
    requires
        device.wf(),
        call_ensures(VulkanDevice::create_buffer, (device, data), progress),
        can_be_sized(data@.len() as int, device.limits.min_storage_buffer_offset_alignment),
        is_allocated_for(
            data@.len() as int,
            device.limits.min_storage_buffer_offset_alignment,
            size,
        ),
        are_right_types(*device, local, local_type, host, host_type),
    ensures
        progress matches Progress::Pending(start) && talk(
            start,
            said_created(
                *device,
                size,
                if_any(data),
                local,
                local_type,
                host,
                host_type,
                recorder,
            ),
        ) == Some(
            Outcome::<BufferCreation<'a>, Buffer>::Finished(
                Ok(granted(*device, data@.len() as usize, size, local, host)),
            ),
        ),
{
    lemma_creation_calls(
        *device,
        data@.len() as usize,
        if_any(data),
        size,
        local,
        local_type,
        host,
        host_type,
        recorder,
    );
}

/// Whatever the driver grants, the creation of an uninitialised buffer makes
/// these calls and no others, and ends in the buffer that they made, with room
/// for the elements.
pub proof fn law_creation_without_data_makes_these_calls<'a>(
    device: &VulkanDevice,
    len: usize,
    element_size: usize,
    progress: Progress<BufferCreation<'a>, Buffer>,
    size: u64,
    local: Grant,
    local_type: u32,
    host: Grant,
    host_type: u32,
    recorder: u64,
)
    requires
        device.wf(),
        call_ensures(VulkanDevice::create_buffer_uninit, (device, len, element_size), progress),
        can_be_sized(len * element_size, device.limits.min_storage_buffer_offset_alignment),
        is_allocated_for(
            len * element_size,
            device.limits.min_storage_buffer_offset_alignment,
            size,
        ),
        are_right_types(*device, local, local_type, host, host_type),
    ensures
        progress matches Progress::Pending(start) && talk(
            start,
            said_created(*device, size, None, local, local_type, host, host_type, recorder),
        ) == Some(
            Outcome::<BufferCreation<'a>, Buffer>::Finished(
                Ok(granted(*device, (len * element_size) as usize, size, local, host)),
            ),
        ),
{
    vstd::arithmetic::mul::lemma_mul_nonnegative(len as int, element_size as int);
    lemma_creation_calls(
        *device,
        (len * element_size) as usize,
        None,
        size,
        local,
        local_type,
        host,
        host_type,
        recorder,
    );
}

/// Every buffer that is handed out can be bound as a storage buffer and as a
/// vertex buffer and copied in both directions, and is as large as its length
/// demands, with or without data: the first call of every creation makes it so.
pub proof fn law_every_buffer_serves_compute_and_graphics<'a>(
    device: &VulkanDevice,
    data: &'a [u8],
    with_data: Progress<BufferCreation<'a>, Buffer>,
    len: usize,
    element_size: usize,
    without_data: Progress<BufferCreation<'a>, Buffer>,
)
    requires
        device.wf(),
        call_ensures(VulkanDevice::create_buffer, (device, data), with_data),
        call_ensures(VulkanDevice::create_buffer_uninit, (device, len, element_size), without_data),
    ensures
        with_data matches Progress::Pending(start) ==> makes_shared_buffer(
            start,
            data@.len() as int,
            device.limits.min_storage_buffer_offset_alignment,
        ),
        without_data matches Progress::Pending(start) ==> makes_shared_buffer(
            start,
            len * element_size,
            device.limits.min_storage_buffer_offset_alignment,
        ),
{
    vstd::arithmetic::mul::lemma_mul_nonnegative(len as int, element_size as int);
    if with_data is Pending {
        lemma_makes_shared_buffer(device, data@.len() as int, if_any(data));
    }
    if without_data is Pending {
        lemma_makes_shared_buffer(device, len * element_size, None);
    }
}

/// The next call creates a buffer for `len` bytes that has the storage (0x20),
/// vertex (0x80), transfer source (0x1) and transfer target (0x2) usages.
pub open spec fn makes_shared_buffer(creation: BufferCreation, len: int, alignment: u64) -> bool {
    creation.wanted() matches Command::CreateBuffer { size, usage, .. } && {
        &&& usage & 0x20 == 0x20
        &&& usage & 0x80 == 0x80
        &&& usage & 0x1 == 0x1
        &&& usage & 0x2 == 0x2
        &&& is_allocated_for(len, alignment, size)
    }
}

proof fn lemma_makes_shared_buffer<'a>(
    device: &VulkanDevice,
    len: int,
    data: Option<&'a [u8]>,
)
    requires
        0 <= len,
        creation_start(device, len, data) is Pending,
    ensures
        makes_shared_buffer(
            creation_start(device, len, data)->Pending_0,
            len,
            device.limits.min_storage_buffer_offset_alignment,
        ),
{
    let alignment = device.limits.min_storage_buffer_offset_alignment;
    let usage = 0x20u32 | 0x80u32 | 0x1u32 | 0x2u32;
    assert(usage & 0x20 == 0x20 && usage & 0x80 == 0x80 && usage & 0x1 == 0x1 && usage & 0x2
        == 0x2) by (bit_vector)
        requires
            usage == 0x20u32 | 0x80u32 | 0x1u32 | 0x2u32,
    ;
    if len != 0 && alignment != 0 {
        law_align_up_is_least_multiple(len as u64, alignment);
        vstd::arithmetic::div_mod::lemma_fundamental_div_mod(len + alignment - 1, alignment as int);
        vstd::arithmetic::div_mod::lemma_mod_bound(len + alignment - 1, alignment as int);
        vstd::arithmetic::mul::lemma_mul_is_commutative(
            alignment as int,
            (len + alignment - 1) / (alignment as int),
        );
    }
}

/// A creation is refused at once exactly where the buffer cannot be sized.
pub proof fn law_creation_is_refused_only_for_its_size<'a>(
    device: &VulkanDevice,
    data: &'a [u8],
    with_data: Progress<BufferCreation<'a>, Buffer>,
    len: usize,
    element_size: usize,
    without_data: Progress<BufferCreation<'a>, Buffer>,
)
    requires
        device.wf(),
        call_ensures(VulkanDevice::create_buffer, (device, data), with_data),
        call_ensures(VulkanDevice::create_buffer_uninit, (device, len, element_size), without_data),
    ensures
        with_data is Pending <==> can_be_sized(
            data@.len() as int,
            device.limits.min_storage_buffer_offset_alignment,
        ),
        without_data is Pending <==> can_be_sized(
            len * element_size,
            device.limits.min_storage_buffer_offset_alignment,
        ),
        with_data matches Progress::Finished(result) ==> result matches Err(error) && error@ == (
        ErrorView::BufferCreationFailed { message: "buffer size overflows"@ }),
        without_data matches Progress::Finished(result) ==> result matches Err(error) && error@ == (
        ErrorView::BufferCreationFailed { message: "buffer size overflows"@ }),
{
    vstd::arithmetic::mul::lemma_mul_nonnegative(len as int, element_size as int);
}

/// `bytes` is as many whole elements as `len` bytes hold; elements without a
/// size are not read.
pub open spec fn are_whole_elements(len: usize, element_size: usize, bytes: usize) -> bool {
    if element_size == 0 {
        bytes == 0
    } else {
        bytes as int % element_size as int == 0 && bytes <= len < bytes + element_size
    }
}

/// What is said when a buffer is read: where it has a staging buffer, the whole
/// buffer is copied there on the compute queue; then the mapping is read.
pub open spec fn said_fetched(
    device: VulkanDevice,
    buffer: Buffer,
    recorder: u64,
) -> Seq<(Command<'static>, Reply)> {
    match buffer.staging_buffer {
        Some(staging) => said_copied(
            Seq::empty(),
            device.command_pool,
            device.compute_queue,
            buffer.buffer,
            staging,
            buffer.size,
            recorder,
        ),
        None => Seq::empty(),
    }
}

/// How many bytes a reading reads.
proof fn lemma_whole_elements(len: usize, element_size: usize, bytes: usize)
    requires
        are_whole_elements(len, element_size, bytes),
    ensures
        whole_elements(len, element_size) == bytes,
{
    if element_size != 0 {
        let (l, e, b) = (len as int, element_size as int, bytes as int);
        vstd::arithmetic::div_mod::lemma_fundamental_div_mod(l, e);
        vstd::arithmetic::div_mod::lemma_fundamental_div_mod(b, e);
        vstd::arithmetic::div_mod::lemma_mod_bound(l, e);
        let (p, q, r) = (l / e, b / e, l % e);
        assert(p * e == b) by (nonlinear_arith)
            requires
                l == e * p + r,
                0 <= r < e,
                b == e * q,
                b <= l < b + e,
        ;
    }
}

/// Where a reading stands once the mapping holds what the buffer holds.
proof fn lemma_fetched(
    device: VulkanDevice,
    buffer: Buffer,
    element_size: usize,
    len: usize,
    recorder: u64,
    start: BufferRead,
)
    requires
        are_whole_elements(buffer.len, element_size, len),
        new_read(device, buffer, element_size) == Outcome::<BufferRead, Vec<u8>>::Pending(start),
    ensures
        talk(start, said_fetched(device, buffer, recorder)) == Some(
            if buffer.mapped == 0 {
                Outcome::<BufferRead, Vec<u8>>::Finished(
                    Err(
                        ErrorView::BufferReadFailed {
                            message: "buffer is not host-visible (no staging mapping)"@,
                        },
                    ),
                )
            } else {
                Outcome::Pending(
                    BufferRead { mapped: buffer.mapped, len, phase: ReadPhase::Downloading },
                )
            },
        ),
{
    lemma_whole_elements(buffer.len, element_size, len);
    if let Some(staging) = buffer.staging_buffer {
        let said = Seq::<(Command<'static>, Reply)>::empty();
        let n = 0int;
        let all = said_fetched(device, buffer, recorder);
        let transfer = new_transfer(
            device.command_pool,
            device.compute_queue,
            buffer.buffer,
            staging,
            buffer.size,
        );
        let t1 = transfer.at(TransferPhase::Beginning { recorder });
        let t2 = transfer.at(TransferPhase::Recording { recorder });
        let t3 = transfer.at(TransferPhase::Ending { recorder });
        let t4 = transfer.at(TransferPhase::Submitting { recorder });
        let t5 = transfer.at(TransferPhase::Waiting { recorder });
        let t6 = transfer.at(TransferPhase::Freeing { recorder });
        let s1 = BufferRead { phase: ReadPhase::Fetching(t1), ..start };
        let s2 = BufferRead { phase: ReadPhase::Fetching(t2), ..start };
        let s3 = BufferRead { phase: ReadPhase::Fetching(t3), ..start };
        let s4 = BufferRead { phase: ReadPhase::Fetching(t4), ..start };
        let s5 = BufferRead { phase: ReadPhase::Fetching(t5), ..start };
        let s6 = BufferRead { phase: ReadPhase::Fetching(t6), ..start };
        lemma_talk_goes_on(start, said, start, all[n + 0].0, all[n + 0].1);
        let said = said.push(all[n + 0]);
        lemma_talk_goes_on(start, said, s1, all[n + 1].0, all[n + 1].1);
        let said = said.push(all[n + 1]);
        lemma_talk_goes_on(start, said, s2, all[n + 2].0, all[n + 2].1);
        let said = said.push(all[n + 2]);
        lemma_talk_goes_on(start, said, s3, all[n + 3].0, all[n + 3].1);
        let said = said.push(all[n + 3]);
        lemma_talk_goes_on(start, said, s4, all[n + 4].0, all[n + 4].1);
        let said = said.push(all[n + 4]);
        lemma_talk_goes_on(start, said, s5, all[n + 5].0, all[n + 5].1);
        let said = said.push(all[n + 5]);
        lemma_talk_goes_on(start, said, s6, all[n + 6].0, all[n + 6].1);
    }
}

/// A mapped buffer is read, wherever it is mapped: the reading makes these calls
/// and no others, and ends in the bytes that were at the mapping, as many as
/// there are whole elements.
pub proof fn law_reading_makes_these_calls(
    device: &VulkanDevice,
    buffer: &Buffer,
    element_size: usize,
    progress: Progress<BufferRead, Vec<u8>>,
    recorder: u64,
    len: usize,
    bytes: Vec<u8>,
)
    requires
        call_ensures(VulkanDevice::read_buffer, (device, buffer, element_size), progress),
        buffer.mapped != 0,
        are_whole_elements(buffer.len, element_size, len),
        bytes@.len() == len,
    ensures
        progress matches Progress::Pending(start) && talk(
            start,
            said_fetched(*device, *buffer, recorder).push(
                (Command::Download { mapped: buffer.mapped, len }, Reply::Bytes(bytes)),
            ),
        ) == Some(Outcome::<BufferRead, Vec<u8>>::Finished(Ok(bytes))),
{
    let start = progress->Pending_0;
    lemma_whole_elements(buffer.len, element_size, len);
    lemma_fetched(*device, *buffer, element_size, len, recorder, start);
    lemma_talk_goes_on(
        start,
        said_fetched(*device, *buffer, recorder),
        BufferRead { mapped: buffer.mapped, len, phase: ReadPhase::Downloading },
        Command::Download { mapped: buffer.mapped, len },
        Reply::Bytes(bytes),
    );
}

/// What is not mapped is not read: the reading is refused, at once or, where
/// there is a staging buffer, after the copy.
pub proof fn law_unmapped_buffer_is_not_read(
    device: &VulkanDevice,
    buffer: &Buffer,
    element_size: usize,
    progress: Progress<BufferRead, Vec<u8>>,
    recorder: u64,
)
    requires
        call_ensures(VulkanDevice::read_buffer, (device, buffer, element_size), progress),
        buffer.mapped == 0,
    ensures
        match progress {
            Progress::Pending(start) => buffer.staging_buffer is Some && talk(
                start,
                said_fetched(*device, *buffer, recorder),
            ) == Some(
                Outcome::<BufferRead, Vec<u8>>::Finished(
                    Err(
                        ErrorView::BufferReadFailed {
                            message: "buffer is not host-visible (no staging mapping)"@,
                        },
                    ),
                ),
            ),
            Progress::Finished(Ok(_)) => false,
            Progress::Finished(Err(error)) => buffer.staging_buffer is None && error@ == (
            ErrorView::BufferReadFailed {
                message: "buffer is not host-visible (no staging mapping)"@,
            }),
        },
{
    if let Progress::Pending(start) = progress {
        let (l, e) = (buffer.len as int, element_size as int);
        let len = whole_elements(buffer.len, element_size) as usize;
        if e != 0 {
            vstd::arithmetic::div_mod::lemma_fundamental_div_mod(l, e);
            vstd::arithmetic::div_mod::lemma_mod_bound(l, e);
            vstd::arithmetic::div_mod::lemma_mod_multiples_basic(l / e, e);
            vstd::arithmetic::mul::lemma_mul_is_commutative(e, l / e);
            vstd::arithmetic::div_mod::lemma_div_pos_is_pos(l, e);
            vstd::arithmetic::mul::lemma_mul_nonnegative(l / e, e);
        }
        assert(are_whole_elements(buffer.len, element_size, len));
        lemma_fetched(*device, *buffer, element_size, len, recorder, start);
    }
}

/// A reading fails only where a call failed or the buffer has no mapping.
pub proof fn law_reading_fails_only_for_a_call_or_its_mapping(
    device: &VulkanDevice,
    buffer: &Buffer,
    element_size: usize,
    progress: Progress<BufferRead, Vec<u8>>,
    read: BufferRead,
    reply: Reply,
)
    requires
        call_ensures(VulkanDevice::read_buffer, (device, buffer, element_size), progress),
    ensures
        buffer.mapped != 0 ==> progress is Pending,
        progress matches Progress::Pending(start) ==> start.mapped == buffer.mapped,
        match read.step(reply) {
            Outcome::<BufferRead, Vec<u8>>::Pending(next) => next.mapped == read.mapped && next.len
                == read.len,
            Outcome::Finished(Err(_)) => reply is Failed || read.mapped == 0,
            Outcome::Finished(Ok(_)) => read.mapped == 0 ==> read.phase is Downloading,
        },
{
}

/// A buffer is destroyed before its memory is freed, its staging buffer goes
/// first, and each goes once, where there is one.
pub proof fn law_buffer_is_released_whole(buffer: &Buffer, plan: Vec<BufferRelease>)
    requires
        call_ensures(Buffer::release_plan, (buffer,), plan),
        buffer.staging_buffer is Some <==> buffer.staging_memory is Some,
    ensures
        ({
            let n: int = if buffer.staging_buffer is Some {
                2
            } else {
                0
            };
            &&& plan@.len() == n + 2
            &&& plan@[n] == (BufferRelease::DestroyBuffer { buffer: buffer.buffer })
            &&& plan@[n + 1] == (BufferRelease::FreeMemory { memory: buffer.memory })
            &&& buffer.staging_buffer matches Some(staging) ==> plan@[0] == (
            BufferRelease::DestroyBuffer { buffer: staging })
            &&& buffer.staging_memory matches Some(memory) ==> plan@[1] == (
            BufferRelease::FreeMemory { memory })
        }),
{
}

/// Elements are addressed where all their bytes are.
pub proof fn law_length_in_bytes_is_exact(
    len: usize,
    element_size: usize,
    bytes: Result<usize, DeviceError>,
)
    requires
        call_ensures(byte_len, (len, element_size), bytes),
    ensures
        bytes is Ok <==> len * element_size <= usize::MAX,
        match bytes {
            Ok(n) => n == len * element_size,
            Err(error) => error@ == (ErrorView::BufferCreationFailed {
                message: "buffer size overflows"@,
            }),
        },
{
}

} // verus!
