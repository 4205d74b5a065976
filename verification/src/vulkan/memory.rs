//! Memory types, memory placement and buffer sizes.

use super::abi::{
    has_flags, heap_flags_contain, memory_flags_contain, DeviceKind, HEAP_DEVICE_LOCAL,
    MAX_MEMORY_HEAPS, MAX_MEMORY_TYPES, MEMORY_HOST_CACHED, MEMORY_HOST_COHERENT,
    MEMORY_HOST_VISIBLE,
};
use crate::error::{DeviceError, ErrorView};
use crate::request::MemoryStrategy;
use vstd::prelude::*;
use vstd::string::StringExecFns;

verus! {

/// One memory type of a device.
#[derive(Debug, Clone, Copy, PartialEq, Eq, Structural)]
pub struct MemoryType {
    /// `VkMemoryPropertyFlags` of the type.
    pub property_flags: u32,
    /// The heap that the type allocates from.
    pub heap_index: u32,
}

/// One memory heap of a device.
#[derive(Debug, Clone, Copy, PartialEq, Eq, Structural)]
pub struct MemoryHeap {
    /// Size in bytes.
    pub size: u64,
    /// `VkMemoryHeapFlags` of the heap.
    pub flags: u32,
}

/// The memory types and heaps of a physical device.
#[derive(Debug, Clone, Copy)]
pub struct MemoryProperties {
    /// How many entries of `memory_types` are in use.
    pub memory_type_count: u32,
    /// The memory types, in the driver's order.
    pub memory_types: [MemoryType; 32],
    /// How many entries of `memory_heaps` are in use.
    pub memory_heap_count: u32,
    /// The memory heaps, in the driver's order.
    pub memory_heaps: [MemoryHeap; 16],
}

/// A device-local heap above this size earns device-local placement.
pub const LARGE_HEAP: u64 = 1_073_741_824;

impl MemoryProperties {
    /// The counts stay within the tables.
    pub open spec fn wf(self) -> bool {
        &&& self.memory_type_count <= MAX_MEMORY_TYPES
        &&& self.memory_heap_count <= MAX_MEMORY_HEAPS
    }

    /// Memory type `index` exists, is allowed by the bits of `type_filter`, and
    /// has every property of `required`.
    pub open spec fn suits(self, type_filter: u32, required: u32, index: u32) -> bool {
        &&& index < self.memory_type_count
        &&& type_filter & (1u32 << index) != 0
        &&& has_flags(self.memory_types[index as int].property_flags, required)
    }

    /// `index` is the first memory type that suits.
    pub open spec fn first_suits(self, type_filter: u32, required: u32, index: u32) -> bool {
        &&& self.suits(type_filter, required, index)
        &&& forall|j: u32| j < index ==> !#[trigger] self.suits(type_filter, required, j)
    }

    /// The first memory type that suits, if any does.
    pub open spec fn memory_type(self, type_filter: u32, required: u32) -> Option<u32> {
        if exists|i: u32| self.first_suits(type_filter, required, i) {
            Some(choose|i: u32| self.first_suits(type_filter, required, i))
        } else {
            None
        }
    }

    /// The memory type for a host-visible buffer: cached and coherent where
    /// the device has that, else coherent.
    pub open spec fn host_memory_type(self, type_filter: u32) -> Option<u32> {
        let cached = self.memory_type(
            type_filter,
            MEMORY_HOST_VISIBLE | MEMORY_HOST_COHERENT | MEMORY_HOST_CACHED,
        );
        if cached is Some {
            cached
        } else {
            self.memory_type(type_filter, MEMORY_HOST_VISIBLE | MEMORY_HOST_COHERENT)
        }
    }

    /// Some device-local heap is larger than [`LARGE_HEAP`].
    pub open spec fn has_large_local_heap(self) -> bool {
        exists|i: int|
            0 <= i < self.memory_heap_count && has_flags(
                (#[trigger] self.memory_heaps[i]).flags,
                HEAP_DEVICE_LOCAL,
            ) && self.memory_heaps[i].size > LARGE_HEAP
    }
}

/// A first memory type is the only one.
pub proof fn lemma_first_type_is_unique(
    memory: MemoryProperties,
    type_filter: u32,
    required: u32,
    index: u32,
)
    requires
        memory.first_suits(type_filter, required, index),
    ensures
        memory.memory_type(type_filter, required) == Some(index),
{
    let other = choose|i: u32| memory.first_suits(type_filter, required, i);
    assert(memory.first_suits(type_filter, required, other));
    if other < index {
        assert(!memory.suits(type_filter, required, other));
    } else if index < other {
        assert(!memory.suits(type_filter, required, index));
    }
}

/// Where some memory type suits, there is a first one.
proof fn lemma_first_type_exists(
    memory: MemoryProperties,
    type_filter: u32,
    required: u32,
    witness: u32,
)
    requires
        memory.suits(type_filter, required, witness),
    ensures
        exists|i: u32| memory.first_suits(type_filter, required, i),
    decreases witness,
{
    if exists|j: u32| j < witness && #[trigger] memory.suits(type_filter, required, j) {
        let j = choose|j: u32| j < witness && #[trigger] memory.suits(type_filter, required, j);
        lemma_first_type_exists(memory, type_filter, required, j);
    } else {
        assert(memory.first_suits(type_filter, required, witness));
    }
}

/// A memory type is found exactly where one suits.
pub proof fn law_memory_type_found_iff_one_suits(
    memory: MemoryProperties,
    type_filter: u32,
    required: u32,
)
    ensures
        memory.memory_type(type_filter, required) is Some <==> exists|i: u32|
            memory.suits(type_filter, required, i),
        memory.memory_type(type_filter, required) matches Some(i) ==> memory.first_suits(
            type_filter,
            required,
            i,
        ),
{
    if exists|i: u32| memory.suits(type_filter, required, i) {
        let i = choose|i: u32| memory.suits(type_filter, required, i);
        lemma_first_type_exists(memory, type_filter, required, i);
    }
}

/// The memory type of a host-visible buffer is host-visible and coherent, and
/// it is cached wherever some allowed type is all three.
pub proof fn law_host_memory_prefers_cached(memory: MemoryProperties, type_filter: u32, index: u32)
    requires
        memory.host_memory_type(type_filter) == Some(index),
    ensures
        memory.suits(type_filter, MEMORY_HOST_VISIBLE | MEMORY_HOST_COHERENT, index),
        (exists|i: u32|
            memory.suits(
                type_filter,
                MEMORY_HOST_VISIBLE | MEMORY_HOST_COHERENT | MEMORY_HOST_CACHED,
                i,
            )) ==> has_flags(
            memory.memory_types[index as int].property_flags,
            MEMORY_HOST_CACHED,
        ),
{
    let plain = MEMORY_HOST_VISIBLE | MEMORY_HOST_COHERENT;
    let cached = MEMORY_HOST_VISIBLE | MEMORY_HOST_COHERENT | MEMORY_HOST_CACHED;
    law_memory_type_found_iff_one_suits(memory, type_filter, plain);
    law_memory_type_found_iff_one_suits(memory, type_filter, cached);
    let flags = memory.memory_types[index as int].property_flags;
    assert(flags & (0x2u32 | 0x4u32 | 0x8u32) == 0x2u32 | 0x4u32 | 0x8u32 ==> flags & (0x2u32
        | 0x4u32) == 0x2u32 | 0x4u32 && flags & 0x8u32 == 0x8u32) by (bit_vector);
}

/// What a search for a memory type reports when nothing suits.
pub open spec fn no_memory_type() -> ErrorView {
    ErrorView::BufferCreationFailed { message: "no suitable memory type found"@ }
}

/// Finds the first memory type that is allowed by the bits of `type_filter` and
/// has every property of `required`.
pub fn find_memory_type_index(memory: &MemoryProperties, type_filter: u32, required: u32) -> (index:
    Result<u32, DeviceError>)
    requires
        memory.wf(),
    ensures
        match index {
            Ok(i) => memory.memory_type(type_filter, required) == Some(i) && memory.first_suits(
                type_filter,
                required,
                i,
            ),
            Err(error) => memory.memory_type(type_filter, required) is None && error@
                == no_memory_type(),
        },
{
    let mut i: u32 = 0;
    while i < memory.memory_type_count
        invariant
            memory.wf(),
            i <= memory.memory_type_count,
            forall|j: u32| j < i ==> !#[trigger] memory.suits(type_filter, required, j),
        decreases memory.memory_type_count - i,
    {
        if (type_filter & (1u32 << i)) != 0 && memory_flags_contain(
            memory.memory_types[i as usize].property_flags,
            required,
        ) {
            proof {
                assert(memory.suits(type_filter, required, i));
                lemma_first_type_is_unique(*memory, type_filter, required, i);
            }
            return Ok(i);
        }
        assert(!memory.suits(type_filter, required, i));
        i += 1;
    }
    Err(
        DeviceError::BufferCreationFailed {
            message: String::from_str("no suitable memory type found"),
        },
    )
}

/// Finds the memory type for a host-visible buffer: cached memory first, which
/// spares a discrete GPU's bus, then uncached coherent memory.
pub fn find_host_memory_type(memory: &MemoryProperties, type_filter: u32) -> (index: Result<
    u32,
    DeviceError,
>)
    requires
        memory.wf(),
    ensures
        match index {
            Ok(i) => memory.host_memory_type(type_filter) == Some(i),
            Err(error) => memory.host_memory_type(type_filter) is None && error@
                == no_memory_type(),
        },
{
    match find_memory_type_index(
        memory,
        type_filter,
        MEMORY_HOST_VISIBLE | MEMORY_HOST_COHERENT | MEMORY_HOST_CACHED,
    ) {
        Ok(i) => Ok(i),
        Err(_) => find_memory_type_index(
            memory,
            type_filter,
            MEMORY_HOST_VISIBLE | MEMORY_HOST_COHERENT,
        ),
    }
}

/// Device-local placement under the automatic strategy.
pub open spec fn local_by_hardware(kind: DeviceKind, memory: MemoryProperties) -> bool {
    kind is Discrete || memory.has_large_local_heap()
}

/// Whether device-local memory is used under the automatic strategy: discrete
/// GPUs, and any device with a device-local heap above [`LARGE_HEAP`], get it.
pub fn detect_device_local(kind: DeviceKind, memory: &MemoryProperties) -> (local: bool)
    requires
        memory.wf(),
    ensures
        local == local_by_hardware(kind, *memory),
{
    if kind == DeviceKind::Discrete {
        return true;
    }
    let mut i: u32 = 0;
    while i < memory.memory_heap_count
        invariant
            memory.wf(),
            i <= memory.memory_heap_count,
            forall|j: int|
                0 <= j < i ==> !(has_flags(
                    (#[trigger] memory.memory_heaps[j]).flags,
                    HEAP_DEVICE_LOCAL,
                ) && memory.memory_heaps[j].size > LARGE_HEAP),
        decreases memory.memory_heap_count - i,
    {
        if heap_flags_contain(memory.memory_heaps[i as usize].flags, HEAP_DEVICE_LOCAL)
            && memory.memory_heaps[i as usize].size > LARGE_HEAP {
            return true;
        }
        i += 1;
    }
    false
}

/// The placement that a strategy leads to.
pub open spec fn placed_locally(
    strategy: MemoryStrategy,
    kind: DeviceKind,
    memory: MemoryProperties,
) -> bool {
    match strategy {
        MemoryStrategy::DeviceLocal => true,
        MemoryStrategy::Unified => false,
        MemoryStrategy::Auto => local_by_hardware(kind, memory),
    }
}

/// Whether buffers go to device-local memory: a forced strategy decides, the
/// automatic one goes by the hardware.
pub fn uses_device_local(
    strategy: MemoryStrategy,
    kind: DeviceKind,
    memory: &MemoryProperties,
) -> (local: bool)
    requires
        memory.wf(),
    ensures
        local == placed_locally(strategy, kind, *memory),
{
    match strategy {
        MemoryStrategy::DeviceLocal => true,
        MemoryStrategy::Unified => false,
        MemoryStrategy::Auto => detect_device_local(kind, memory),
    }
}

/// The least multiple of `alignment` that is not below `value`; `value` itself
/// where `alignment` is zero.
pub open spec fn aligned_up(value: u64, alignment: u64) -> int {
    if alignment == 0 {
        value as int
    } else {
        (value + alignment - 1) / (alignment as int) * alignment
    }
}

/// The rounding does not leave 64 bits.
pub open spec fn can_align(value: u64, alignment: u64) -> bool {
    alignment == 0 || value + alignment - 1 <= u64::MAX
}

/// Rounds `value` up to a multiple of `alignment`.
pub fn align_up(value: u64, alignment: u64) -> (rounded: u64)
    requires
        can_align(value, alignment),
    ensures
        rounded == aligned_up(value, alignment),
{
    if alignment == 0 {
        value
    } else {
        proof {
            let top = value + alignment - 1;
            vstd::arithmetic::div_mod::lemma_fundamental_div_mod(top, alignment as int);
            vstd::arithmetic::mul::lemma_mul_is_commutative(
                alignment as int,
                top / (alignment as int),
            );
            vstd::arithmetic::div_mod::lemma_mod_bound(top, alignment as int);
        }
        let top: u64 = value + (alignment - 1);
        top - top % alignment
    }
}

/// Rounding up gives a multiple of the alignment, at least the value, and less
/// than one alignment above it: no smaller multiple would do.
pub proof fn law_align_up_is_least_multiple(value: u64, alignment: u64)
    requires
        alignment > 0,
    ensures
        aligned_up(value, alignment) % (alignment as int) == 0,
        value <= aligned_up(value, alignment) < value + alignment,
{
    let top = value + alignment - 1;
    vstd::arithmetic::div_mod::lemma_fundamental_div_mod(top, alignment as int);
    vstd::arithmetic::mul::lemma_mul_is_commutative(alignment as int, top / (alignment as int));
    vstd::arithmetic::div_mod::lemma_mod_bound(top, alignment as int);
    vstd::arithmetic::div_mod::lemma_mod_multiples_basic(
        top / (alignment as int),
        alignment as int,
    );
}

/// Where the alignment is a power of two, as a driver's alignments are,
/// rounding up is adding one less and clearing the low bits.
pub proof fn law_align_up_masks_low_bits(value: u64, exponent: u32)
    requires
        exponent < 64,
        can_align(value, 1u64 << exponent),
    ensures
        aligned_up(value, 1u64 << exponent) == ((value + ((1u64 << exponent) - 1)) as u64) & !((
        (1u64 << exponent) - 1) as u64),
{
    let alignment = 1u64 << exponent;
    let low = (alignment - 1) as u64;
    let top = (value + low) as u64;
    assert(alignment > 0) by (bit_vector)
        requires
            alignment == 1u64 << exponent,
            exponent < 64,
    ;
    vstd::bits::lemma_u64_pow2_no_overflow(exponent as nat);
    vstd::bits::lemma_u64_shl_is_mul(1, exponent as u64);
    assert(1u64 << exponent == 1u64 << (exponent as u64)) by (bit_vector);
    vstd::bits::lemma_u64_low_bits_mask_is_mod(top, exponent as nat);
    assert(top & !low == top - (top & low)) by (bit_vector);
    vstd::arithmetic::div_mod::lemma_fundamental_div_mod(top as int, alignment as int);
    vstd::arithmetic::mul::lemma_mul_is_commutative(
        alignment as int,
        (top as int) / (alignment as int),
    );
}

} // verus!
