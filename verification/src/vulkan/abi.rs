//! Numbers of the Vulkan interface, and the calls into `ash` that compute on them.

use ash::vk;
use vstd::prelude::*;

verus! {

/// `VK_QUEUE_GRAPHICS_BIT`.
pub const QUEUE_GRAPHICS: u32 = 0x1;

/// `VK_QUEUE_COMPUTE_BIT`.
pub const QUEUE_COMPUTE: u32 = 0x2;

/// `VK_QUEUE_TRANSFER_BIT`.
pub const QUEUE_TRANSFER: u32 = 0x4;

/// `VK_MEMORY_PROPERTY_DEVICE_LOCAL_BIT`.
pub const MEMORY_DEVICE_LOCAL: u32 = 0x1;

/// `VK_MEMORY_PROPERTY_HOST_VISIBLE_BIT`.
pub const MEMORY_HOST_VISIBLE: u32 = 0x2;

/// `VK_MEMORY_PROPERTY_HOST_COHERENT_BIT`.
pub const MEMORY_HOST_COHERENT: u32 = 0x4;

/// `VK_MEMORY_PROPERTY_HOST_CACHED_BIT`.
pub const MEMORY_HOST_CACHED: u32 = 0x8;

/// `VK_MEMORY_HEAP_DEVICE_LOCAL_BIT`.
pub const HEAP_DEVICE_LOCAL: u32 = 0x1;

/// `VK_BUFFER_USAGE_TRANSFER_SRC_BIT`.
pub const USAGE_TRANSFER_SRC: u32 = 0x1;

/// `VK_BUFFER_USAGE_TRANSFER_DST_BIT`.
pub const USAGE_TRANSFER_DST: u32 = 0x2;

/// `VK_BUFFER_USAGE_STORAGE_BUFFER_BIT`.
pub const USAGE_STORAGE_BUFFER: u32 = 0x20;

/// `VK_BUFFER_USAGE_VERTEX_BUFFER_BIT`.
pub const USAGE_VERTEX_BUFFER: u32 = 0x80;

/// `VK_SHARING_MODE_EXCLUSIVE`.
pub const SHARING_EXCLUSIVE: i32 = 0;

/// `VK_COMMAND_BUFFER_LEVEL_PRIMARY`.
pub const COMMAND_BUFFER_PRIMARY: i32 = 0;

/// `VK_COMMAND_BUFFER_USAGE_ONE_TIME_SUBMIT_BIT`.
pub const ONE_TIME_SUBMIT: u32 = 0x1;

/// `VK_COMMAND_POOL_CREATE_TRANSIENT_BIT`.
pub const POOL_TRANSIENT: u32 = 0x1;

/// `VK_API_VERSION_1_1`.
pub const API_VERSION_1_1: u32 = 0x0040_1000;

/// `VK_MAX_MEMORY_TYPES`: no device reports more memory types.
pub const MAX_MEMORY_TYPES: usize = 32;

/// `VK_MAX_MEMORY_HEAPS`: no device reports more memory heaps.
pub const MAX_MEMORY_HEAPS: usize = 16;

/// What a `VkPhysicalDeviceType` says of a physical device.
#[derive(Debug, Clone, Copy, PartialEq, Eq, Structural)]
pub enum DeviceKind {
    /// A separate card with its own memory.
    Discrete,
    /// A GPU embedded in the host.
    Integrated,
    /// A GPU of a virtual machine.
    Virtual,
    /// The host processor itself.
    Cpu,
    /// Anything else.
    Other,
}

/// Every bit of `wanted` is set in `flags`.
pub open spec fn has_flags(flags: u32, wanted: u32) -> bool {
    flags & wanted == wanted
}

/// The kind that each `VkPhysicalDeviceType` number stands for.
pub open spec fn kind_of(raw: i32) -> DeviceKind {
    if raw == 2 {
        DeviceKind::Discrete
    } else if raw == 1 {
        DeviceKind::Integrated
    } else if raw == 3 {
        DeviceKind::Virtual
    } else if raw == 4 {
        DeviceKind::Cpu
    } else {
        DeviceKind::Other
    }
}

/// The text that `ash` prints for a `VkResult` number.
pub uninterp spec fn vk_result_message(code: i32) -> Seq<char>;

/// Calls `ash::vk::QueueFlags::contains`: true when every bit of `wanted` is
/// set in `flags`.
#[verifier::external_body]
pub(crate) fn queue_flags_contain(flags: u32, wanted: u32) -> (contained: bool)
    ensures
        contained == has_flags(flags, wanted),
{
    vk::QueueFlags::from_raw(flags).contains(vk::QueueFlags::from_raw(wanted))
}

/// Calls `ash::vk::MemoryPropertyFlags::contains`: true when every bit of
/// `wanted` is set in `flags`.
#[verifier::external_body]
pub(crate) fn memory_flags_contain(flags: u32, wanted: u32) -> (contained: bool)
    ensures
        contained == has_flags(flags, wanted),
{
    vk::MemoryPropertyFlags::from_raw(flags).contains(vk::MemoryPropertyFlags::from_raw(wanted))
}

/// Calls `ash::vk::MemoryHeapFlags::contains`: true when every bit of `wanted`
/// is set in `flags`.
#[verifier::external_body]
pub(crate) fn heap_flags_contain(flags: u32, wanted: u32) -> (contained: bool)
    ensures
        contained == has_flags(flags, wanted),
{
    vk::MemoryHeapFlags::from_raw(flags).contains(vk::MemoryHeapFlags::from_raw(wanted))
}

/// Reads a number as an `ash::vk::PhysicalDeviceType` and tells its variants
/// apart.
#[verifier::external_body]
pub(crate) fn device_kind(raw: i32) -> (kind: DeviceKind)
    ensures
        kind == kind_of(raw),
{
    match vk::PhysicalDeviceType::from_raw(raw) {
        vk::PhysicalDeviceType::DISCRETE_GPU => DeviceKind::Discrete,
        vk::PhysicalDeviceType::INTEGRATED_GPU => DeviceKind::Integrated,
        vk::PhysicalDeviceType::VIRTUAL_GPU => DeviceKind::Virtual,
        vk::PhysicalDeviceType::CPU => DeviceKind::Cpu,
        _ => DeviceKind::Other,
    }
}

/// Calls the `Display` of `ash::vk::Result`: the text is a function of the
/// number alone.
#[verifier::external_body]
pub(crate) fn vk_result_text(code: i32) -> (text: String)
    ensures
        text@ == vk_result_message(code),
{
    vk::Result::from_raw(code).to_string()
}

} // verus!
