//! Choosing queue families, devices, memory types and extensions.

use ash::vk;
use zunesha::vulkan::abi::{
    DeviceKind, API_VERSION_1_1, COMMAND_BUFFER_PRIMARY, HEAP_DEVICE_LOCAL, MAX_MEMORY_HEAPS,
    MAX_MEMORY_TYPES, MEMORY_DEVICE_LOCAL, MEMORY_HOST_CACHED, MEMORY_HOST_COHERENT,
    MEMORY_HOST_VISIBLE, ONE_TIME_SUBMIT, POOL_TRANSIENT, QUEUE_COMPUTE, QUEUE_GRAPHICS,
    QUEUE_TRANSFER, SHARING_EXCLUSIVE, USAGE_STORAGE_BUFFER, USAGE_TRANSFER_DST,
    USAGE_TRANSFER_SRC, USAGE_VERTEX_BUFFER,
};
use zunesha::vulkan::adapter::{device_type_score, pick_physical_device, PhysicalDeviceInfo};
use zunesha::vulkan::extensions::{is_reported, select_surface_extensions};
use zunesha::vulkan::families::{
    select_queue_families, Capability, QueueFamilyChoice, QueueFamilyProperties,
};
use zunesha::vulkan::memory::{
    align_up, detect_device_local, find_host_memory_type, find_memory_type_index,
    uses_device_local, MemoryHeap, MemoryProperties, MemoryType,
};
use zunesha::{DeviceError, MemoryStrategy};

fn families(flags: &[u32]) -> Vec<QueueFamilyProperties> {
    flags.iter().map(|&queue_flags| QueueFamilyProperties { queue_flags }).collect()
}

const ALL: u32 = QUEUE_GRAPHICS | QUEUE_COMPUTE | QUEUE_TRANSFER;

fn memory(types: &[u32], heaps: &[(u64, u32)]) -> MemoryProperties {
    let mut memory = MemoryProperties {
        memory_type_count: types.len() as u32,
        memory_types: [MemoryType { property_flags: 0, heap_index: 0 }; 32],
        memory_heap_count: heaps.len() as u32,
        memory_heaps: [MemoryHeap { size: 0, flags: 0 }; 16],
    };
    for (i, &property_flags) in types.iter().enumerate() {
        memory.memory_types[i] = MemoryType { property_flags, heap_index: 0 };
    }
    for (i, &(size, flags)) in heaps.iter().enumerate() {
        memory.memory_heaps[i] = MemoryHeap { size, flags };
    }
    memory
}

#[test]
fn numbers_are_those_of_the_interface() {
    assert_eq!(QUEUE_GRAPHICS, vk::QueueFlags::GRAPHICS.as_raw());
    assert_eq!(QUEUE_COMPUTE, vk::QueueFlags::COMPUTE.as_raw());
    assert_eq!(QUEUE_TRANSFER, vk::QueueFlags::TRANSFER.as_raw());
    assert_eq!(MEMORY_DEVICE_LOCAL, vk::MemoryPropertyFlags::DEVICE_LOCAL.as_raw());
    assert_eq!(MEMORY_HOST_VISIBLE, vk::MemoryPropertyFlags::HOST_VISIBLE.as_raw());
    assert_eq!(MEMORY_HOST_COHERENT, vk::MemoryPropertyFlags::HOST_COHERENT.as_raw());
    assert_eq!(MEMORY_HOST_CACHED, vk::MemoryPropertyFlags::HOST_CACHED.as_raw());
    assert_eq!(HEAP_DEVICE_LOCAL, vk::MemoryHeapFlags::DEVICE_LOCAL.as_raw());
    assert_eq!(USAGE_TRANSFER_SRC, vk::BufferUsageFlags::TRANSFER_SRC.as_raw());
    assert_eq!(USAGE_TRANSFER_DST, vk::BufferUsageFlags::TRANSFER_DST.as_raw());
    assert_eq!(USAGE_STORAGE_BUFFER, vk::BufferUsageFlags::STORAGE_BUFFER.as_raw());
    assert_eq!(USAGE_VERTEX_BUFFER, vk::BufferUsageFlags::VERTEX_BUFFER.as_raw());
    assert_eq!(SHARING_EXCLUSIVE, vk::SharingMode::EXCLUSIVE.as_raw());
    assert_eq!(COMMAND_BUFFER_PRIMARY, vk::CommandBufferLevel::PRIMARY.as_raw());
    assert_eq!(ONE_TIME_SUBMIT, vk::CommandBufferUsageFlags::ONE_TIME_SUBMIT.as_raw());
    assert_eq!(POOL_TRANSIENT, vk::CommandPoolCreateFlags::TRANSIENT.as_raw());
    assert_eq!(API_VERSION_1_1, vk::API_VERSION_1_1);
    assert_eq!(MAX_MEMORY_TYPES, vk::MAX_MEMORY_TYPES);
    assert_eq!(MAX_MEMORY_HEAPS, vk::MAX_MEMORY_HEAPS);
}

#[test]
fn discrete_hardware_gets_three_distinct_families() {
    let choice = select_queue_families(&families(&[
        ALL,
        QUEUE_TRANSFER,
        QUEUE_COMPUTE | QUEUE_TRANSFER,
        QUEUE_TRANSFER,
    ]));
    assert_eq!(
        choice,
        Some(QueueFamilyChoice { compute: 2, graphics: Some(0), transfer: Some(1) })
    );
}

#[test]
fn unified_hardware_shares_one_family() {
    let choice = select_queue_families(&families(&[ALL]));
    assert_eq!(choice, Some(QueueFamilyChoice { compute: 0, graphics: Some(0), transfer: None }));
}

#[test]
fn compute_only_hardware_is_enough() {
    let choice = select_queue_families(&families(&[QUEUE_TRANSFER, QUEUE_COMPUTE]));
    assert_eq!(choice, Some(QueueFamilyChoice { compute: 1, graphics: None, transfer: Some(0) }));
}

#[test]
fn hardware_without_compute_is_refused() {
    assert_eq!(select_queue_families(&families(&[QUEUE_GRAPHICS, QUEUE_TRANSFER])), None);
    assert_eq!(select_queue_families(&[]), None);
}

#[test]
fn a_family_is_dedicated_by_what_it_lacks() {
    let family = |queue_flags: u32| QueueFamilyProperties { queue_flags };
    assert!(Capability::Compute.is_offered_by(&family(ALL)));
    assert!(!Capability::DedicatedCompute.is_offered_by(&family(ALL)));
    assert!(Capability::DedicatedCompute.is_offered_by(&family(QUEUE_COMPUTE)));
    assert!(Capability::Graphics.is_offered_by(&family(QUEUE_GRAPHICS)));
    assert!(!Capability::Graphics.is_offered_by(&family(QUEUE_COMPUTE)));
    assert!(Capability::DedicatedTransfer.is_offered_by(&family(QUEUE_TRANSFER | 0x8)));
    assert!(!Capability::DedicatedTransfer
        .is_offered_by(&family(QUEUE_TRANSFER | QUEUE_COMPUTE)));
}

#[test]
fn families_are_requested_once() {
    let choice = |compute, graphics, transfer| QueueFamilyChoice { compute, graphics, transfer };
    assert_eq!(choice(2, Some(0), Some(1)).distinct_families(), vec![2, 0, 1]);
    assert_eq!(choice(0, Some(0), None).distinct_families(), vec![0]);
    assert_eq!(choice(3, None, Some(1)).distinct_families(), vec![3, 1]);
    assert_eq!(choice(3, Some(1), Some(1)).distinct_families(), vec![3, 1]);
    assert_eq!(choice(5, None, None).distinct_families(), vec![5]);
}

#[test]
fn kinds_rank_discrete_first() {
    assert_eq!(device_type_score(vk::PhysicalDeviceType::DISCRETE_GPU.as_raw()), 4);
    assert_eq!(device_type_score(vk::PhysicalDeviceType::INTEGRATED_GPU.as_raw()), 3);
    assert_eq!(device_type_score(vk::PhysicalDeviceType::VIRTUAL_GPU.as_raw()), 2);
    assert_eq!(device_type_score(vk::PhysicalDeviceType::CPU.as_raw()), 1);
    assert_eq!(device_type_score(vk::PhysicalDeviceType::OTHER.as_raw()), 0);
    assert_eq!(device_type_score(99), 0);
    assert_eq!(device_type_score(-1), 0);
}

fn device(handle: u64, kind: vk::PhysicalDeviceType, flags: &[u32]) -> PhysicalDeviceInfo {
    PhysicalDeviceInfo { handle, device_type: kind.as_raw(), families: families(flags) }
}

fn picked(devices: &Vec<PhysicalDeviceInfo>, prefer_graphics: bool) -> Option<u64> {
    match pick_physical_device(Ok(devices), prefer_graphics) {
        Ok((handle, _)) => Some(handle),
        Err(_) => None,
    }
}

#[test]
fn the_baseline_goes_by_kind() {
    let devices = vec![
        device(1, vk::PhysicalDeviceType::CPU, &[ALL]),
        device(2, vk::PhysicalDeviceType::INTEGRATED_GPU, &[ALL]),
        device(3, vk::PhysicalDeviceType::DISCRETE_GPU, &[QUEUE_COMPUTE]),
        device(4, vk::PhysicalDeviceType::DISCRETE_GPU, &[ALL]),
    ];
    // The first of the best, with or without graphics.
    assert_eq!(picked(&devices, false), Some(3));
    // With the preference, graphics outweighs any kind.
    assert_eq!(picked(&devices, true), Some(4));
}

#[test]
fn graphics_is_preferred_and_not_required() {
    let devices = vec![
        device(1, vk::PhysicalDeviceType::DISCRETE_GPU, &[QUEUE_COMPUTE]),
        device(2, vk::PhysicalDeviceType::CPU, &[ALL]),
    ];
    assert_eq!(picked(&devices, false), Some(1));
    assert_eq!(picked(&devices, true), Some(2));
    let compute_only = vec![
        device(1, vk::PhysicalDeviceType::INTEGRATED_GPU, &[QUEUE_COMPUTE]),
        device(2, vk::PhysicalDeviceType::DISCRETE_GPU, &[QUEUE_COMPUTE]),
    ];
    assert_eq!(picked(&compute_only, true), Some(2));
}

#[test]
fn devices_without_compute_are_passed_over() {
    let devices = vec![
        device(1, vk::PhysicalDeviceType::DISCRETE_GPU, &[QUEUE_GRAPHICS]),
        device(2, vk::PhysicalDeviceType::OTHER, &[QUEUE_COMPUTE]),
    ];
    assert_eq!(picked(&devices, true), Some(2));
    match pick_physical_device(Ok(&vec![]), false) {
        Err(DeviceError::InitFailed(text)) => {
            assert_eq!(text, "no Vulkan device with a compute queue found")
        }
        _ => panic!("nothing can be picked from nothing"),
    }
}

#[test]
fn a_failed_enumeration_is_reported() {
    let code = vk::Result::ERROR_INITIALIZATION_FAILED.as_raw();
    match pick_physical_device(Err(code), false) {
        Err(DeviceError::InitFailed(text)) => assert_eq!(
            text,
            "vkEnumeratePhysicalDevices: Initialization of an object has failed"
        ),
        _ => panic!("the failure must be reported"),
    }
}

#[test]
fn the_first_memory_type_that_suits_is_found() {
    let host = MEMORY_HOST_VISIBLE | MEMORY_HOST_COHERENT;
    let memory = memory(&[MEMORY_DEVICE_LOCAL, host, host | MEMORY_HOST_CACHED, host], &[]);
    assert!(matches!(find_memory_type_index(&memory, 0b1111, host), Ok(1)));
    assert!(matches!(find_memory_type_index(&memory, 0b1100, host), Ok(2)));
    assert!(matches!(find_memory_type_index(&memory, 0b1000, host), Ok(3)));
    assert!(matches!(find_memory_type_index(&memory, 0b1111, MEMORY_DEVICE_LOCAL), Ok(0)));
    match find_memory_type_index(&memory, 0b0001, host) {
        Err(DeviceError::BufferCreationFailed { message }) => {
            assert_eq!(message, "no suitable memory type found")
        }
        _ => panic!("type 0 is not host-visible"),
    }
    // Types beyond the count are not looked at.
    assert!(find_memory_type_index(&memory, 0xffff_fff0, 0).is_err());
}

#[test]
fn all_thirty_two_types_are_looked_at() {
    let mut flags = [0u32; 32];
    flags[31] = MEMORY_DEVICE_LOCAL;
    let memory = memory(&flags, &[]);
    assert!(matches!(find_memory_type_index(&memory, u32::MAX, MEMORY_DEVICE_LOCAL), Ok(31)));
}

#[test]
fn host_memory_prefers_cached_and_falls_back() {
    let host = MEMORY_HOST_VISIBLE | MEMORY_HOST_COHERENT;
    let both = memory(&[host, host | MEMORY_HOST_CACHED], &[]);
    assert!(matches!(find_host_memory_type(&both, 0b11), Ok(1)));
    assert!(matches!(find_host_memory_type(&both, 0b01), Ok(0)));
    let none = memory(&[MEMORY_DEVICE_LOCAL, MEMORY_HOST_VISIBLE], &[]);
    assert!(find_host_memory_type(&none, 0b11).is_err());
}

const GIB: u64 = 1 << 30;

#[test]
fn placement_goes_by_kind_and_heap_size() {
    let small = memory(&[], &[(GIB, HEAP_DEVICE_LOCAL)]);
    let large = memory(&[], &[(4 * GIB, 0), (GIB + 1, HEAP_DEVICE_LOCAL)]);
    let foreign = memory(&[], &[(64 * GIB, 0)]);
    assert!(detect_device_local(DeviceKind::Discrete, &small));
    assert!(!detect_device_local(DeviceKind::Integrated, &small));
    assert!(detect_device_local(DeviceKind::Integrated, &large));
    assert!(detect_device_local(DeviceKind::Cpu, &large));
    assert!(!detect_device_local(DeviceKind::Integrated, &foreign));
}

#[test]
fn a_forced_strategy_decides_placement() {
    let large = memory(&[], &[(8 * GIB, HEAP_DEVICE_LOCAL)]);
    let none = memory(&[], &[]);
    assert!(!uses_device_local(MemoryStrategy::Unified, DeviceKind::Discrete, &large));
    assert!(uses_device_local(MemoryStrategy::DeviceLocal, DeviceKind::Integrated, &none));
    assert!(uses_device_local(MemoryStrategy::Auto, DeviceKind::Discrete, &none));
    assert!(!uses_device_local(MemoryStrategy::Auto, DeviceKind::Integrated, &none));
}

#[test]
fn sizes_round_up_to_the_alignment() {
    assert_eq!(align_up(0, 64), 0);
    assert_eq!(align_up(1, 64), 64);
    assert_eq!(align_up(64, 64), 64);
    assert_eq!(align_up(65, 64), 128);
    assert_eq!(align_up(17, 0), 17);
    assert_eq!(align_up(17, 1), 17);
    assert_eq!(align_up(13, 12), 24);
    assert_eq!(align_up(u64::MAX - 15, 16), u64::MAX - 15);
}

#[test]
fn rounding_by_a_power_of_two_clears_the_low_bits() {
    for exponent in 0..12u32 {
        let alignment = 1u64 << exponent;
        for value in 0..300u64 {
            assert_eq!(align_up(value, alignment), (value + alignment - 1) & !(alignment - 1));
        }
    }
}

#[test]
fn surface_extensions_are_enabled_where_reported() {
    let names: Vec<String> = [
        "VK_EXT_debug_utils",
        "VK_KHR_xcb_surface",
        "VK_KHR_surface",
        "VK_EXT_headless_surface",
    ]
    .iter()
    .map(|s| s.to_string())
    .collect();
    assert!(is_reported(&names, "VK_KHR_surface"));
    assert!(!is_reported(&names, "VK_KHR_swapchain"));
    assert_eq!(
        select_surface_extensions(&Some(names)),
        vec!["VK_KHR_surface", "VK_EXT_headless_surface", "VK_KHR_xcb_surface"]
    );
    assert!(select_surface_extensions(&Some(vec![])).is_empty());
    assert!(select_surface_extensions(&None).is_empty());
}

#[test]
fn every_surface_extension_can_be_enabled() {
    let all = [
        "VK_KHR_surface",
        "VK_EXT_headless_surface",
        "VK_KHR_xlib_surface",
        "VK_KHR_xcb_surface",
        "VK_KHR_wayland_surface",
        "VK_KHR_win32_surface",
        "VK_KHR_android_surface",
        "VK_EXT_metal_surface",
    ];
    let names: Vec<String> = all.iter().rev().map(|s| s.to_string()).collect();
    assert_eq!(select_surface_extensions(&Some(names)), all.to_vec());
}
