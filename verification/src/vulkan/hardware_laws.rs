//! What is chosen of the hardware, in terms of what the driver reports of it.

use super::abi::DeviceKind;
use super::memory::{
    align_up, find_host_memory_type, find_memory_type_index, law_memory_type_found_iff_one_suits,
    uses_device_local, MemoryProperties,
};
use crate::error::{DeviceError, ErrorView};
use crate::request::MemoryStrategy;
use vstd::prelude::*;

verus! {

/// Host-visible and host-coherent, as `VkMemoryPropertyFlags`.
pub const COHERENT: u32 = 0x6;

/// Host-visible, host-coherent and host-cached, as `VkMemoryPropertyFlags`.
pub const COHERENT_AND_CACHED: u32 = 0xe;

/// Memory type `index` exists, is one of `type_bits`, which has a bit for each
/// type, and has all of the properties.
pub open spec fn usable(
    memory: MemoryProperties,
    type_bits: u32,
    properties: u32,
    index: u32,
) -> bool {
    &&& index < memory.memory_type_count
    &&& index < 32
    &&& (type_bits >> index) & 1 == 1
    &&& memory.memory_types[index as int].property_flags & properties == properties
}

/// `index` is the first memory type that is usable.
pub open spec fn first_usable(
    memory: MemoryProperties,
    type_bits: u32,
    properties: u32,
    index: u32,
) -> bool {
    &&& usable(memory, type_bits, properties, index)
    &&& forall|j: u32| usable(memory, type_bits, properties, j) ==> index <= j
}

/// `index` is where a buffer that the host sees goes: the first memory type
/// that is coherent and cached, or, where none is, the first that is coherent.
pub open spec fn is_host_type(memory: MemoryProperties, type_bits: u32, index: u32) -> bool {
    if exists|j: u32| usable(memory, type_bits, COHERENT_AND_CACHED, j) {
        first_usable(memory, type_bits, COHERENT_AND_CACHED, index)
    } else {
        first_usable(memory, type_bits, COHERENT, index)
    }
}

/// `index` is where a device-local buffer goes: the first memory type that is
/// device-local.
pub open spec fn is_local_type(memory: MemoryProperties, type_bits: u32, index: u32) -> bool {
    first_usable(memory, type_bits, 0x1, index)
}

/// A memory type suits exactly where it is usable.
proof fn lemma_suits_iff_usable(memory: MemoryProperties, type_bits: u32, properties: u32)
    requires
        memory.wf(),
    ensures
        forall|i: u32| #[trigger]
            memory.suits(type_bits, properties, i) <==> usable(memory, type_bits, properties, i),
{
    assert forall|i: u32| #[trigger] memory.suits(type_bits, properties, i) <==> usable(
        memory,
        type_bits,
        properties,
        i,
    ) by {
        if i < 32 {
            assert(type_bits & (1u32 << i) != 0 <==> (type_bits >> i) & 1 == 1) by (bit_vector)
                requires
                    i < 32,
            ;
        }
    }
}

/// The search for a memory type finds the first usable one, and fails exactly
/// where none is usable.
pub proof fn law_first_usable_type_is_found(
    memory: &MemoryProperties,
    type_bits: u32,
    properties: u32,
    found: Result<u32, DeviceError>,
)
    requires
        memory.wf(),
        call_ensures(find_memory_type_index, (memory, type_bits, properties), found),
    ensures
        match found {
            Ok(i) => first_usable(*memory, type_bits, properties, i),
            Err(error) => {
                &&& forall|j: u32| !usable(*memory, type_bits, properties, j)
                &&& error@ == (ErrorView::BufferCreationFailed {
                    message: "no suitable memory type found"@,
                })
            },
        },
{
    lemma_suits_iff_usable(*memory, type_bits, properties);
    law_memory_type_found_iff_one_suits(*memory, type_bits, properties);
    if let Ok(i) = found {
        assert forall|j: u32| usable(*memory, type_bits, properties, j) implies i <= j by {
            assert(memory.suits(type_bits, properties, j));
        }
    } else {
        assert forall|j: u32| !usable(*memory, type_bits, properties, j) by {
            assert(!memory.suits(type_bits, properties, j));
        }
    }
}

/// What a placement's memory type is, in terms of what is usable.
pub proof fn lemma_memory_types(memory: MemoryProperties, type_bits: u32)
    requires
        memory.wf(),
    ensures
        match memory.host_memory_type(type_bits) {
            Some(i) => is_host_type(memory, type_bits, i),
            None => forall|j: u32| !usable(memory, type_bits, COHERENT, j),
        },
        match memory.memory_type(type_bits, 0x1) {
            Some(i) => is_local_type(memory, type_bits, i),
            None => forall|j: u32| !usable(memory, type_bits, 0x1, j),
        },
{
    assert(0x2u32 | 0x4u32 == 0x6u32) by (bit_vector);
    assert(0x2u32 | 0x4u32 | 0x8u32 == 0xeu32) by (bit_vector);
    assert forall|properties: u32| #![trigger memory.memory_type(type_bits, properties)]
        match memory.memory_type(type_bits, properties) {
            Some(i) => first_usable(memory, type_bits, properties, i),
            None => forall|j: u32| !usable(memory, type_bits, properties, j),
        } by {
        lemma_suits_iff_usable(memory, type_bits, properties);
        law_memory_type_found_iff_one_suits(memory, type_bits, properties);
        assert forall|j: u32| usable(memory, type_bits, properties, j) implies memory.suits(
            type_bits,
            properties,
            j,
        ) by {
            assert(memory.suits(type_bits, properties, j));
        }
    }
}

/// A memory type for a buffer that the host sees is found exactly where some
/// type is host-visible and coherent, whatever other properties it has. It is a
/// cached one wherever there is one, and the first of its sort.
pub proof fn law_host_memory_is_found_where_there_is_some(
    memory: &MemoryProperties,
    type_bits: u32,
    found: Result<u32, DeviceError>,
)
    requires
        memory.wf(),
        call_ensures(find_host_memory_type, (memory, type_bits), found),
    ensures
        found is Ok <==> exists|j: u32| usable(*memory, type_bits, COHERENT, j),
        match found {
            Ok(i) => is_host_type(*memory, type_bits, i),
            Err(error) => error@ == (ErrorView::BufferCreationFailed {
                message: "no suitable memory type found"@,
            }),
        },
{
    lemma_memory_types(*memory, type_bits);
    if let Ok(i) = found {
        lemma_cached_is_coherent(*memory, type_bits, i);
        assert(usable(*memory, type_bits, COHERENT, i));
    }
}

/// What is coherent and cached is coherent.
proof fn lemma_cached_is_coherent(memory: MemoryProperties, type_bits: u32, index: u32)
    requires
        index < 32,
    ensures
        usable(memory, type_bits, COHERENT_AND_CACHED, index) ==> usable(
            memory,
            type_bits,
            COHERENT,
            index,
        ),
{
    let flags = memory.memory_types[index as int].property_flags;
    assert(flags & 0xeu32 == 0xeu32 ==> flags & 0x6u32 == 0x6u32) by (bit_vector);
}

/// Some heap in use is device-local and larger than 1 GiB.
pub open spec fn has_much_local_memory(memory: MemoryProperties) -> bool {
    exists|i: int|
        0 <= i < memory.memory_heap_count && (#[trigger] memory.memory_heaps[i]).flags & 0x1 == 0x1
            && memory.memory_heaps[i].size > 0x4000_0000
}

/// A forced placement is kept whatever the hardware; the automatic one is
/// device-local exactly on discrete GPUs and where there is much device-local
/// memory.
pub proof fn law_placement_follows_strategy_then_hardware(
    strategy: MemoryStrategy,
    kind: DeviceKind,
    memory: &MemoryProperties,
    local: bool,
)
    requires
        memory.wf(),
        call_ensures(uses_device_local, (strategy, kind, memory), local),
    ensures
        strategy is DeviceLocal ==> local,
        strategy is Unified ==> !local,
        strategy is Auto ==> (local <==> kind is Discrete || has_much_local_memory(*memory)),
{
    if has_much_local_memory(*memory) {
        let i = choose|i: int|
            0 <= i < memory.memory_heap_count && (#[trigger] memory.memory_heaps[i]).flags & 0x1
                == 0x1 && memory.memory_heaps[i].size > 0x4000_0000;
        assert(memory.memory_heaps[i].size > 0x4000_0000);
    }
}

/// `rounded` is `value` rounded up: no multiple of the alignment lies between,
/// and where there is no alignment nothing changes.
pub open spec fn is_rounded_up(value: int, alignment: int, rounded: int) -> bool {
    if alignment == 0 {
        rounded == value
    } else {
        rounded % alignment == 0 && value <= rounded < value + alignment
    }
}

/// Rounding up goes to the least multiple of the alignment that is not below
/// the value.
pub proof fn law_rounding_goes_to_the_least_multiple(value: u64, alignment: u64, rounded: u64)
    requires
        alignment == 0 || value + alignment - 1 <= u64::MAX,
        call_ensures(align_up, (value, alignment), rounded),
    ensures
        is_rounded_up(value as int, alignment as int, rounded as int),
{
    if alignment > 0 {
        super::memory::law_align_up_is_least_multiple(value, alignment);
    }
}

} // verus!
