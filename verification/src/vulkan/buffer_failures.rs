//! When buffer operations fail and what they report then, and what each call's
//! outcome means for the count of work in flight, by the call itself.

use super::abi::vk_result_message;
use super::allocation::{Allocated, Allocation};
use super::buffer::{creation_start, Buffer, BufferCreation, BufferRead, CreationPhase, ReadPhase};
use super::command::{Command, Outcome, Reply};
use super::conversation::talk;
use super::device::VulkanDevice;
use super::hardware_laws::{lemma_memory_types, usable, COHERENT};
use super::memory::MemoryProperties;
use super::transfer::Transfer;
use crate::error::ErrorView;
use vstd::prelude::*;

verus! {

/// What an error calls a call that can fail. The calls that give a
/// device-local buffer its memory are told apart.
pub open spec fn name_of(command: Command, local: bool) -> Option<Seq<char>> {
    match command {
        Command::CreateBuffer { .. } => Some(
            if local {
                "vkCreateBuffer(device-local)"@
            } else {
                "vkCreateBuffer"@
            },
        ),
        Command::AllocateMemory { .. } => Some(
            if local {
                "vkAllocateMemory(device-local)"@
            } else {
                "vkAllocateMemory"@
            },
        ),
        Command::BindMemory { .. } => Some(
            if local {
                "vkBindBufferMemory(device-local)"@
            } else {
                "vkBindBufferMemory"@
            },
        ),
        Command::MapMemory { .. } => Some("vkMapMemory"@),
        Command::AllocateCommandBuffer { .. } => Some("transfer allocate"@),
        Command::BeginCommandBuffer { .. } => Some("transfer begin"@),
        Command::EndCommandBuffer { .. } => Some("transfer end"@),
        Command::Submit { .. } => Some("transfer submit"@),
        Command::WaitIdle { .. } => Some("transfer wait"@),
        Command::MeasureBuffer { .. } => None,
        Command::Upload { .. } => None,
        Command::CopyBuffer { .. } => None,
        Command::FreeCommandBuffer { .. } => None,
        Command::Download { .. } => None,
    }
}

/// A call and the text of its result code, as an error puts them.
pub open spec fn told(name: Seq<char>, code: i32) -> Seq<char> {
    name + ": "@ + vk_result_message(code)
}

/// A failed call ends a transfer with an error that names the call and the
/// reason. What cannot fail changes nothing.
pub proof fn law_failed_call_ends_a_transfer(transfer: Transfer, code: i32)
    ensures
        transfer.step(Reply::Failed(code)) == match name_of(transfer.wanted(), false) {
            Some(name) => Outcome::<Transfer, ()>::Finished(
                Err(ErrorView::BufferCreationFailed { message: told(name, code) }),
            ),
            None => Outcome::Pending(transfer),
        },
{
}

/// An allocation that was started, not one of device-local memory that maps it.
pub open spec fn is_sound(allocation: Allocation) -> bool {
    allocation.placement is DeviceLocal ==> !(allocation.phase is Mapping)
}

/// A failed call ends an allocation with an error that names the call and the
/// reason. What cannot fail changes nothing.
pub proof fn law_failed_call_ends_an_allocation(allocation: Allocation, code: i32)
    requires
        is_sound(allocation),
    ensures
        allocation.step(Reply::Failed(code)) == match name_of(
            allocation.wanted(),
            allocation.placement is DeviceLocal,
        ) {
            Some(name) => Outcome::<Allocation, Allocated>::Finished(
                Err(ErrorView::BufferCreationFailed { message: told(name, code) }),
            ),
            None => Outcome::Pending(allocation),
        },
{
}

/// The buffer that is handed out is device-local where there is a staging
/// buffer; everything else is for the host.
spec fn is_placed(creation: BufferCreation) -> bool {
    &&& creation.wf()
    &&& match creation.phase {
        CreationPhase::Local(allocation) => allocation.placement is DeviceLocal && is_sound(
            allocation,
        ),
        CreationPhase::Staging { allocation, .. } => allocation.placement is Host,
        CreationPhase::Unified(allocation) => allocation.placement is Host,
        _ => true,
    }
}

/// What a creation goes by stays as it is.
proof fn lemma_placed<'a>(
    start: BufferCreation<'a>,
    said: Seq<(Command<'a>, Reply)>,
    now: BufferCreation<'a>,
)
    requires
        is_placed(start),
        talk(start, said) == Some(Outcome::<BufferCreation<'a>, Buffer>::Pending(now)),
    ensures
        is_placed(now),
        now.memory == start.memory,
    decreases said.len(),
{
    if said.len() > 0 {
        let before = talk(start, said.drop_last())->Some_0->Pending_0;
        lemma_placed(start, said.drop_last(), before);
    }
}

/// A failed call ends the creation of a buffer, at whatever point, with an error
/// that names the call and the reason. What cannot fail changes nothing.
pub proof fn law_failed_call_ends_a_creation<'a>(
    device: VulkanDevice,
    len: int,
    data: Option<&'a [u8]>,
    start: BufferCreation<'a>,
    said: Seq<(Command<'a>, Reply)>,
    now: BufferCreation<'a>,
    code: i32,
)
    requires
        device.wf(),
        creation_start(&device, len, data) == Outcome::<BufferCreation<'a>, Buffer>::Pending(start),
        talk(start, said) == Some(Outcome::<BufferCreation<'a>, Buffer>::Pending(now)),
    ensures
        now.step(Reply::Failed(code)) == match name_of(now.wanted(), now.phase is Local) {
            Some(name) => Outcome::<BufferCreation<'a>, Buffer>::Finished(
                Err(ErrorView::BufferCreationFailed { message: told(name, code) }),
            ),
            None => Outcome::Pending(now),
        },
{
    lemma_placed(start, said, now);
    match now.phase {
        CreationPhase::Local(allocation) => law_failed_call_ends_an_allocation(allocation, code),
        CreationPhase::Staging { allocation, .. } => law_failed_call_ends_an_allocation(
            allocation,
            code,
        ),
        CreationPhase::Unified(allocation) => law_failed_call_ends_an_allocation(allocation, code),
        CreationPhase::Moving { transfer, .. } => law_failed_call_ends_a_transfer(transfer, code),
        _ => {},
    }
}

/// No memory type of `type_bits` has all of the properties.
pub open spec fn lacks(memory: MemoryProperties, type_bits: u32, properties: u32) -> bool {
    forall|i: u32| !usable(memory, type_bits, properties, i)
}

/// The creation of a buffer fails only where a call failed, or where the buffer
/// may live in no memory of the right sort: device-local memory for the
/// device-local buffer, and coherent memory that the host sees for any other.
pub proof fn law_creation_fails_only_for_a_call_or_its_memory<'a>(
    device: VulkanDevice,
    len: int,
    data: Option<&'a [u8]>,
    start: BufferCreation<'a>,
    said: Seq<(Command<'a>, Reply)>,
    now: BufferCreation<'a>,
    reply: Reply,
    error: ErrorView,
)
    requires
        device.wf(),
        creation_start(&device, len, data) == Outcome::<BufferCreation<'a>, Buffer>::Pending(start),
        talk(start, said) == Some(Outcome::<BufferCreation<'a>, Buffer>::Pending(now)),
        now.step(reply) == Outcome::<BufferCreation<'a>, Buffer>::Finished(Err(error)),
    ensures
        reply is Failed || {
            &&& now.wanted() is MeasureBuffer
            &&& reply is Requirements
            &&& lacks(
                device.memory_properties,
                reply->type_bits,
                if now.phase is Local {
                    0x1
                } else {
                    COHERENT
                },
            )
            &&& error == (ErrorView::BufferCreationFailed {
                message: "no suitable memory type found"@,
            })
        },
{
    lemma_placed(start, said, now);
    if let Reply::Requirements { type_bits, .. } = reply {
        lemma_memory_types(device.memory_properties, type_bits);
    }
}

/// The creation of a buffer ends well only with its last call: the upload or
/// the copy where there is data, and the mapping where there is none.
pub proof fn law_creation_ends_well_with_its_last_call<'a>(
    creation: BufferCreation<'a>,
    reply: Reply,
    buffer: Buffer,
)
    requires
        creation.step(reply) == Outcome::<BufferCreation<'a>, Buffer>::Finished(Ok(buffer)),
    ensures
        buffer.len == creation.len,
        buffer.size == creation.size,
        match creation.wanted() {
            Command::BindMemory { .. } => creation.data is None,
            Command::MapMemory { .. } => creation.data is None,
            Command::Upload { .. } => buffer.staging_buffer is None,
            Command::FreeCommandBuffer { .. } => buffer.staging_buffer is Some,
            _ => false,
        },
{
}

/// A failed call ends the reading of a buffer, at whatever point, with an error
/// that says that the readback failed and names the call and the reason. What
/// cannot fail changes nothing.
pub proof fn law_failed_call_ends_a_reading(read: BufferRead, code: i32)
    ensures
        read.step(Reply::Failed(code)) == match name_of(read.wanted(), false) {
            Some(name) => Outcome::<BufferRead, Vec<u8>>::Finished(
                Err(ErrorView::BufferReadFailed { message: told(name, code) }),
            ),
            None => Outcome::Pending(read),
        },
{
    if let ReadPhase::Fetching(transfer) = read.phase {
        law_failed_call_ends_a_transfer(transfer, code);
    }
}

/// The count of work in flight and the copies left on the queue once `command`
/// went as `reply` says. A copy counts from the moment its recording is complete,
/// before it is submitted, until it could not be submitted or was waited for;
/// what could not be waited for is left, and the next wait ends all that was
/// left. Nothing else counts. The counter has 64 bits and wraps.
pub open spec fn tallied(command: Command, reply: Reply, count: u64, left: u64) -> (int, int) {
    match (command, reply) {
        (Command::EndCommandBuffer { .. }, Reply::Completed) => (
            (count + 1) % 0x1_0000_0000_0000_0000,
            left as int,
        ),
        (Command::Submit { .. }, Reply::Failed(_)) => (count - 1, left as int),
        (Command::WaitIdle { .. }, Reply::Completed) => (count - 1 - left, 0),
        (Command::WaitIdle { .. }, Reply::Failed(_)) => (count as int, left + 1),
        _ => (count as int, left as int),
    }
}

/// A copy is counted while it is to be submitted or waited for.
pub open spec fn in_flight_during(command: Command) -> bool {
    command is Submit || command is WaitIdle
}

/// What a transfer counts goes by its calls alone.
pub proof fn law_transfer_counts_by_its_calls(
    transfer: Transfer,
    reply: Reply,
    count: u64,
    left: u64,
)
    requires
        in_flight_during(transfer.wanted()) ==> left < count,
    ensures
        transfer.counted() == in_flight_during(transfer.wanted()),
        (
            transfer.count_after(reply, count, left) as int,
            transfer.left_after(reply, left) as int,
        ) == tallied(transfer.wanted(), reply, count, left),
{
}

/// What the creation of a buffer counts goes by its calls alone.
pub proof fn law_creation_counts_by_its_calls(
    creation: BufferCreation,
    reply: Reply,
    count: u64,
    left: u64,
)
    requires
        in_flight_during(creation.wanted()) ==> left < count,
    ensures
        creation.counted() == in_flight_during(creation.wanted()),
        (
            creation.count_after(reply, count, left) as int,
            creation.left_after(reply, left) as int,
        ) == tallied(creation.wanted(), reply, count, left),
{
    if let CreationPhase::Moving { transfer, .. } = creation.phase {
        law_transfer_counts_by_its_calls(transfer, reply, count, left);
    }
}

/// What the reading of a buffer counts goes by its calls alone.
pub proof fn law_reading_counts_by_its_calls(
    read: BufferRead,
    reply: Reply,
    count: u64,
    left: u64,
)
    requires
        in_flight_during(read.wanted()) ==> left < count,
    ensures
        read.counted() == in_flight_during(read.wanted()),
        (read.count_after(reply, count, left) as int, read.left_after(reply, left) as int)
            == tallied(read.wanted(), reply, count, left),
{
    if let ReadPhase::Fetching(transfer) = read.phase {
        law_transfer_counts_by_its_calls(transfer, reply, count, left);
    }
}

/// `reply` says something that `command` does not bring about: no handle where
/// nothing is made, no bytes where nothing is read, no failure where nothing can
/// fail, and so on.
pub open spec fn is_stray(command: Command, reply: Reply) -> bool {
    match reply {
        Reply::Handle(_) => !(command is CreateBuffer || command is AllocateMemory
            || command is MapMemory || command is AllocateCommandBuffer),
        Reply::Requirements { .. } => !(command is MeasureBuffer),
        Reply::Bytes(bytes) => !(command matches Command::Download { len, .. } && bytes@.len()
            == len),
        Reply::Failed(_) => name_of(command, false) is None,
        Reply::Completed => command is CreateBuffer || command is AllocateMemory
            || command is MapMemory || command is AllocateCommandBuffer || command is MeasureBuffer
            || command is Download,
    }
}

/// A stray reply leaves an operation where it stands.
pub proof fn law_stray_reply_changes_nothing(
    allocation: Allocation,
    transfer: Transfer,
    creation: BufferCreation,
    read: BufferRead,
    reply: Reply,
)
    ensures
        is_stray(allocation.wanted(), reply) ==> allocation.step(reply) == Outcome::<
            Allocation,
            Allocated,
        >::Pending(allocation),
        is_stray(transfer.wanted(), reply) ==> transfer.step(reply) == Outcome::<
            Transfer,
            (),
        >::Pending(transfer),
        is_stray(creation.wanted(), reply) ==> creation.step(reply) == Outcome::<
            BufferCreation,
            Buffer,
        >::Pending(creation),
        is_stray(read.wanted(), reply) ==> read.step(reply) == Outcome::<
            BufferRead,
            Vec<u8>,
        >::Pending(read),
{
}

} // verus!
