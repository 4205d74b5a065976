//! Whole operations of the Vulkan backend, on a driver kept in memory.

use ash::vk;
use std::collections::HashMap;
use zunesha::vulkan::abi::{
    HEAP_DEVICE_LOCAL, MEMORY_DEVICE_LOCAL, MEMORY_HOST_CACHED, MEMORY_HOST_COHERENT,
    MEMORY_HOST_VISIBLE, QUEUE_COMPUTE, QUEUE_GRAPHICS, QUEUE_TRANSFER, USAGE_STORAGE_BUFFER,
    USAGE_TRANSFER_DST, USAGE_TRANSFER_SRC, USAGE_VERTEX_BUFFER,
};
use zunesha::vulkan::adapter::PhysicalDeviceInfo;
use zunesha::vulkan::allocation::{allocate_buffer, allocate_device_local_buffer, Allocated};
use zunesha::vulkan::bringup::Build;
use zunesha::vulkan::buffer::{byte_len, BufferCreation, BufferRelease};
use zunesha::vulkan::command::{Command, Progress, Reply};
use zunesha::vulkan::device::DeviceRelease;
use zunesha::vulkan::families::{QueueFamilyChoice, QueueFamilyProperties};
use zunesha::vulkan::logical::create_logical_device;
use zunesha::vulkan::memory::{MemoryHeap, MemoryProperties, MemoryType};
use zunesha::vulkan::setup::{DeviceProperties, SetupCommand, SetupReply};
use zunesha::vulkan::transfer::one_shot_transfer;
use zunesha::{
    Buffer, DeviceError, GpuEpochTracker, InitRequest, MemoryStrategy, VulkanDevice,
};

const HOST: u32 = MEMORY_HOST_VISIBLE | MEMORY_HOST_COHERENT;

fn memory(types: &[u32], heaps: &[(u64, u32)]) -> MemoryProperties {
    let mut memory = MemoryProperties {
        memory_type_count: types.len() as u32,
        memory_types: [MemoryType { property_flags: 0, heap_index: 0 }; 32],
        memory_heap_count: heaps.len() as u32,
        memory_heaps: [MemoryHeap { size: 0, flags: 0 }; 16],
    };
    for (i, &property_flags) in types.iter().enumerate() {
        memory.memory_types[i] = MemoryType { property_flags, heap_index: 0 };
    }
    for (i, &(size, flags)) in heaps.iter().enumerate() {
        memory.memory_heaps[i] = MemoryHeap { size, flags };
    }
    memory
}

// ── Setup ─────────────────────────────────────────────────────────

/// One GPU of a machine.
struct Gpu {
    kind: vk::PhysicalDeviceType,
    families: Vec<u32>,
    memory: MemoryProperties,
    alignment: u64,
    extensions: Vec<&'static str>,
}

/// A discrete GPU with graphics, async compute and transfer families.
fn discrete() -> Gpu {
    Gpu {
        kind: vk::PhysicalDeviceType::DISCRETE_GPU,
        families: vec![
            QUEUE_GRAPHICS | QUEUE_COMPUTE | QUEUE_TRANSFER,
            QUEUE_TRANSFER,
            QUEUE_COMPUTE | QUEUE_TRANSFER,
        ],
        memory: memory(
            &[MEMORY_DEVICE_LOCAL, HOST, HOST | MEMORY_HOST_CACHED],
            &[(16 << 30, HEAP_DEVICE_LOCAL), (32 << 30, 0)],
        ),
        alignment: 16,
        extensions: vec!["VK_KHR_maintenance1", "VK_KHR_swapchain"],
    }
}

/// An accelerator without graphics, in unified memory.
fn accelerator() -> Gpu {
    Gpu {
        kind: vk::PhysicalDeviceType::INTEGRATED_GPU,
        families: vec![QUEUE_COMPUTE | QUEUE_TRANSFER],
        memory: memory(&[HOST | MEMORY_DEVICE_LOCAL], &[(1 << 30, HEAP_DEVICE_LOCAL)]),
        alignment: 64,
        extensions: vec![],
    }
}

/// A loader with GPUs, and what was asked of it.
struct Machine {
    loads: bool,
    version: Option<u32>,
    extensions: Vec<&'static str>,
    gpus: Vec<Gpu>,
    failing: Option<(&'static str, i32)>,
    calls: Vec<&'static str>,
    asked_version: Option<u32>,
    instance_extensions: Vec<&'static str>,
    device_extensions: Vec<&'static str>,
    requested_families: Vec<u32>,
    fetched: Vec<(u32, u32)>,
    pool_family: Option<u32>,
}

const INSTANCE: u64 = 0x1000;
const LOGICAL: u64 = 0x2000;
const POOL: u64 = 0x3000;
const GPU: u64 = 0x4000;
const QUEUE: u64 = 0x5000;

fn machine(gpus: Vec<Gpu>) -> Machine {
    Machine {
        loads: true,
        version: Some(vk::API_VERSION_1_3),
        extensions: vec!["VK_KHR_surface", "VK_KHR_xcb_surface", "VK_EXT_debug_utils"],
        gpus,
        failing: None,
        calls: vec![],
        asked_version: None,
        instance_extensions: vec![],
        device_extensions: vec![],
        requested_families: vec![],
        fetched: vec![],
        pool_family: None,
    }
}

fn texts(names: &[&'static str]) -> Vec<String> {
    names.iter().map(|s| s.to_string()).collect()
}

impl Machine {
    /// Notes the call, and its failure if it is to fail.
    fn called(&mut self, name: &'static str) -> Option<SetupReply> {
        self.calls.push(name);
        match self.failing {
            Some((call, code)) if call == name => Some(SetupReply::Failed(code)),
            _ => None,
        }
    }

    fn perform(&mut self, command: SetupCommand) -> SetupReply {
        match command {
            SetupCommand::LoadLibrary => {
                self.calls.push("load");
                if self.loads {
                    SetupReply::Loaded
                } else {
                    SetupReply::LoadFailed("libvulkan.so.1: not found".to_string())
                }
            }
            SetupCommand::QueryVersion => {
                self.called("version").unwrap_or(SetupReply::Version(self.version))
            }
            SetupCommand::ListInstanceExtensions => self
                .called("list instance extensions")
                .unwrap_or(SetupReply::Names(texts(&self.extensions))),
            SetupCommand::CreateInstance { name, api_version, extensions } => {
                assert_eq!(name, "zunesha");
                self.asked_version = Some(api_version);
                self.instance_extensions = extensions;
                self.called("create instance").unwrap_or(SetupReply::Handle(INSTANCE))
            }
            SetupCommand::ListPhysicalDevices { instance } => {
                assert_eq!(instance, INSTANCE);
                if let Some(failure) = self.called("list devices") {
                    return failure;
                }
                let devices = self
                    .gpus
                    .iter()
                    .enumerate()
                    .map(|(i, gpu)| PhysicalDeviceInfo {
                        handle: GPU + i as u64,
                        device_type: gpu.kind.as_raw(),
                        families: gpu
                            .families
                            .iter()
                            .map(|&queue_flags| QueueFamilyProperties { queue_flags })
                            .collect(),
                    })
                    .collect();
                SetupReply::Devices(devices)
            }
            SetupCommand::QueryPhysicalDevice { instance, physical_device } => {
                assert_eq!(instance, INSTANCE);
                self.calls.push("query device");
                let gpu = &self.gpus[(physical_device - GPU) as usize];
                SetupReply::Properties(DeviceProperties {
                    device_type: gpu.kind.as_raw(),
                    min_storage_buffer_offset_alignment: gpu.alignment,
                    memory: gpu.memory,
                })
            }
            SetupCommand::ListDeviceExtensions { instance, physical_device } => {
                assert_eq!(instance, INSTANCE);
                let names = texts(&self.gpus[(physical_device - GPU) as usize].extensions);
                self.called("list device extensions").unwrap_or(SetupReply::Names(names))
            }
            SetupCommand::CreateDevice { instance, physical_device, families, extensions } => {
                assert_eq!(instance, INSTANCE);
                assert!(physical_device >= GPU);
                self.requested_families = families;
                self.device_extensions = extensions;
                self.called("create device").unwrap_or(SetupReply::Handle(LOGICAL))
            }
            SetupCommand::FetchQueue { device, family, index } => {
                assert_eq!(device, LOGICAL);
                self.calls.push("fetch queue");
                self.fetched.push((family, index));
                SetupReply::Handle(QUEUE + u64::from(family))
            }
            SetupCommand::CreateCommandPool { device, family, flags } => {
                assert_eq!(device, LOGICAL);
                assert_eq!(flags, vk::CommandPoolCreateFlags::TRANSIENT.as_raw());
                self.pool_family = Some(family);
                self.called("create pool").unwrap_or(SetupReply::Handle(POOL))
            }
        }
    }

    fn run(&mut self, build: Build) -> Result<VulkanDevice, DeviceError> {
        let mut build = build;
        loop {
            let reply = self.perform(build.command());
            match build.resume(reply) {
                Progress::Pending(next) => build = next,
                Progress::Finished(result) => return result,
            }
        }
    }
}

fn built(machine: &mut Machine, build: Build) -> VulkanDevice {
    match machine.run(build) {
        Ok(device) => device,
        Err(error) => panic!("the device must build: {}", error.describe()),
    }
}

fn init_failure(machine: &mut Machine, build: Build) -> String {
    match machine.run(build) {
        Err(DeviceError::InitFailed(text)) => text,
        _ => panic!("initialisation must fail"),
    }
}

/// A graphics-requested init selects a device exposing a graphics queue and
/// supporting `VK_KHR_swapchain`.
#[test]
fn graphics_init_enables_swapchain_and_graphics_queue() {
    let mut machine = machine(vec![accelerator(), discrete()]);
    let mut device = built(&mut machine, VulkanDevice::init_with(InitRequest::prefer_graphics()));
    let q = device.queues();
    let chosen = &machine.gpus[(device.physical_device() - GPU) as usize];
    let swapchain_supported = chosen.extensions.contains(&"VK_KHR_swapchain");
    assert!(q.has_graphics());
    assert!(swapchain_supported, "graphics queue present but VK_KHR_swapchain unsupported");
    assert_eq!(machine.device_extensions, vec!["VK_KHR_swapchain"]);
    assert_eq!(machine.instance_extensions, vec!["VK_KHR_surface", "VK_KHR_xcb_surface"]);
    assert_eq!(device.raw_instance(), INSTANCE);
}

/// A device must initialise, and `compute` is always present.
#[test]
fn vulkan_device_inits_and_exposes_compute() {
    for gpus in [vec![discrete()], vec![accelerator()]] {
        let mut device = built(&mut machine(gpus), VulkanDevice::init());
        assert!(
            device.queues().compute.family_index != u32::MAX,
            "compute family must be a real index"
        );
    }
}

/// On a device with a dedicated async-compute family, `compute` is placed on a
/// family distinct from `graphics`.
#[test]
fn dedicated_compute_family_is_selected_when_present() {
    let mut machine = machine(vec![discrete()]);
    let mut device = built(&mut machine, VulkanDevice::init());
    let q = device.queues();
    let has_dedicated_compute = machine.gpus[0].families.iter().any(|&flags| {
        let flags = vk::QueueFlags::from_raw(flags);
        flags.contains(vk::QueueFlags::COMPUTE) && !flags.contains(vk::QueueFlags::GRAPHICS)
    });
    assert!(has_dedicated_compute);
    let gfx = q.graphics.expect("the GPU draws");
    assert_ne!(
        q.compute.family_index, gfx.family_index,
        "compute should use a dedicated family distinct from graphics"
    );
    assert_eq!(q.compute.family_index, 2);
    assert_eq!(gfx.family_index, 0);
    assert_eq!(q.transfer.map(|t| t.family_index), Some(1));
}

/// Host-visible (unified) buffer roundtrip.
#[test]
fn buffer_roundtrip_unified() {
    let mut machine = machine(vec![discrete()]);
    let mut device = built(&mut machine, VulkanDevice::init_with_strategy(MemoryStrategy::Unified));
    let mut driver = driver();
    let input = [1.0f32, 2.0, 3.0, 4.0, 5.0, 6.0];
    let buffer = driver
        .create(device.create_buffer(bytemuck::cast_slice(&input)), &mut device)
        .expect("create_buffer");
    let bytes = driver.read(&mut device, &buffer, std::mem::size_of::<f32>()).expect("read_buffer");
    let output: Vec<f32> = bytes.chunks_exact(4).map(bytemuck::pod_read_unaligned).collect();
    assert_eq!(output, input);
}

/// Device-local (VRAM) buffer roundtrip through the staging path.
#[test]
fn buffer_roundtrip_device_local() {
    let mut machine = machine(vec![discrete()]);
    let mut device = built(&mut machine, VulkanDevice::init_with_strategy(MemoryStrategy::DeviceLocal));
    let mut driver = driver();
    let input: Vec<u32> = (0..1000).collect();
    let buffer = driver
        .create(device.create_buffer(bytemuck::cast_slice(&input)), &mut device)
        .expect("create_buffer (device-local)");
    let bytes = driver
        .read(&mut device, &buffer, std::mem::size_of::<u32>())
        .expect("read_buffer (device-local)");
    let output: Vec<u32> = bytes.chunks_exact(4).map(bytemuck::pod_read_unaligned).collect();
    assert_eq!(output, input);
    assert!(device.uses_device_local);
    assert_eq!(device.memory_strategy(), MemoryStrategy::DeviceLocal);
}

/// A fresh device is quiescent.
#[test]
fn fresh_device_is_quiescent() {
    let mut device = built(&mut machine(vec![discrete()]), VulkanDevice::init());
    assert_eq!(device.in_flight(), 0);
    assert!(device.is_quiescent());
    assert!(device.prove_quiescent().is_some());
}

/// `init_with(prefer_graphics)` exposes graphics where some device has it, and
/// does without where none has.
#[test]
fn prefer_graphics_exposes_graphics_when_available() {
    let request = InitRequest::prefer_graphics();
    let mut device = built(&mut machine(vec![discrete()]), VulkanDevice::init_with(request));
    assert!(device.queues().has_graphics());
    let mut device = built(&mut machine(vec![accelerator()]), VulkanDevice::init_with(request));
    assert!(!device.queues().has_graphics());
}

#[test]
fn work_in_flight_is_seen_through_the_device() {
    let mut device = built(&mut machine(vec![discrete()]), VulkanDevice::init());
    device.epoch.begin_dispatch();
    device.epoch.begin_dispatch();
    assert_eq!(device.in_flight(), 2);
    assert!(!device.is_quiescent());
    assert!(device.prove_quiescent().is_none());
    device.epoch.end_dispatch();
    device.epoch.end_dispatch();
    assert!(device.prove_quiescent().is_some());
}

#[test]
fn a_built_device_is_what_was_described() {
    let mut machine = machine(vec![discrete()]);
    let mut device = built(&mut machine, VulkanDevice::build(MemoryStrategy::Auto, false));
    assert_eq!(device.raw_instance(), INSTANCE);
    assert_eq!(device.raw_device(), LOGICAL);
    assert_eq!(device.physical_device(), GPU);
    assert_eq!(device.command_pool, POOL);
    assert_eq!(device.queues().compute.raw, QUEUE + 2);
    assert_eq!(device.compute_queue, QUEUE + 2);
    assert_eq!(device.queues().graphics.map(|q| q.raw), Some(QUEUE));
    assert_eq!(device.queues().transfer.map(|q| q.raw), Some(QUEUE + 1));
    assert_eq!(device.limits().min_storage_buffer_offset_alignment, 16);
    assert_eq!(device.memory_strategy(), MemoryStrategy::Auto);
    assert!(device.uses_device_local);
    assert_eq!(device.memory_properties().memory_type_count, 3);
    assert_eq!(machine.requested_families, vec![2, 0, 1]);
    assert_eq!(machine.fetched, vec![(2, 0), (0, 0), (1, 0)]);
    assert_eq!(machine.pool_family, Some(2));
    assert_eq!(machine.asked_version, Some(vk::API_VERSION_1_3));
}

#[test]
fn compute_only_init_looks_at_no_extensions() {
    let mut machine = machine(vec![discrete()]);
    built(&mut machine, VulkanDevice::init());
    assert_eq!(
        machine.calls,
        vec![
            "load",
            "version",
            "create instance",
            "list devices",
            "query device",
            "create device",
            "fetch queue",
            "fetch queue",
            "fetch queue",
            "create pool",
        ]
    );
    assert!(machine.instance_extensions.is_empty());
    assert!(machine.device_extensions.is_empty());
}

#[test]
fn graphics_init_lists_extensions_first() {
    let mut machine = machine(vec![accelerator()]);
    let mut device = built(&mut machine, VulkanDevice::init_with(InitRequest::prefer_graphics()));
    assert_eq!(
        machine.calls,
        vec![
            "load",
            "version",
            "list instance extensions",
            "create instance",
            "list devices",
            "query device",
            "list device extensions",
            "create device",
            "fetch queue",
            "create pool",
        ]
    );
    // The accelerator has no swapchain: none is asked for.
    assert!(machine.device_extensions.is_empty());
    assert!(!device.uses_device_local);
    assert_eq!(machine.requested_families, vec![0]);
}

#[test]
fn extensions_that_cannot_be_listed_are_taken_for_none() {
    let code = vk::Result::ERROR_OUT_OF_HOST_MEMORY.as_raw();
    let request = InitRequest::prefer_graphics();
    let mut first = machine(vec![discrete()]);
    first.failing = Some(("list instance extensions", code));
    built(&mut first, VulkanDevice::init_with(request));
    assert!(first.instance_extensions.is_empty());
    assert_eq!(first.device_extensions, vec!["VK_KHR_swapchain"]);
    let mut second = machine(vec![discrete()]);
    second.failing = Some(("list device extensions", code));
    built(&mut second, VulkanDevice::init_with(request));
    assert_eq!(second.instance_extensions, vec!["VK_KHR_surface", "VK_KHR_xcb_surface"]);
    assert!(second.device_extensions.is_empty());
}

#[test]
fn an_unknown_version_falls_back_to_1_1() {
    let mut silent = machine(vec![discrete()]);
    silent.version = None;
    built(&mut silent, VulkanDevice::init());
    assert_eq!(silent.asked_version, Some(vk::API_VERSION_1_1));
    let mut failing = machine(vec![discrete()]);
    failing.failing = Some(("version", vk::Result::ERROR_UNKNOWN.as_raw()));
    built(&mut failing, VulkanDevice::init());
    assert_eq!(failing.asked_version, Some(vk::API_VERSION_1_1));
}

#[test]
fn initialisation_failures_name_the_call() {
    let mut unloadable = machine(vec![]);
    unloadable.loads = false;
    assert_eq!(init_failure(&mut unloadable, VulkanDevice::init()), "libvulkan.so.1: not found");
    assert_eq!(
        init_failure(&mut machine(vec![]), VulkanDevice::init()),
        "no Vulkan device with a compute queue found"
    );
    let expected = [
        ("create instance", vk::Result::ERROR_INCOMPATIBLE_DRIVER,
            "vkCreateInstance: Unable to find a Vulkan driver"),
        ("list devices", vk::Result::ERROR_OUT_OF_HOST_MEMORY,
            "vkEnumeratePhysicalDevices: A host memory allocation has failed"),
        ("create device", vk::Result::ERROR_FEATURE_NOT_PRESENT,
            "vkCreateDevice: Requested feature is not available on this device"),
        ("create pool", vk::Result::ERROR_OUT_OF_DEVICE_MEMORY,
            "vkCreateCommandPool: A device memory allocation has failed"),
    ];
    for (call, result, text) in expected {
        let mut machine = machine(vec![discrete()]);
        machine.failing = Some((call, result.as_raw()));
        assert_eq!(init_failure(&mut machine, VulkanDevice::init()), text);
    }
}

#[test]
fn a_reply_to_another_call_changes_nothing() {
    let build = VulkanDevice::init();
    let build = match build.resume(SetupReply::Handle(9)) {
        Progress::Pending(build) => build,
        Progress::Finished(_) => panic!("the library is still to be loaded"),
    };
    assert!(matches!(build.command(), SetupCommand::LoadLibrary));
}

#[test]
fn operations_make_a_bounded_number_of_calls() {
    let mut machine = machine(vec![discrete()]);
    let mut device = built(&mut machine, VulkanDevice::init_with(InitRequest::prefer_graphics()));
    assert_eq!(machine.calls.len(), 12);
    let mut driver = driver();
    let buffer = driver.create(device.create_buffer(&[1]), &mut device).expect("create");
    assert_eq!(driver.calls.len(), 17);
    driver.calls.clear();
    driver.read(&mut device, &buffer, 1).expect("read");
    assert_eq!(driver.calls.len(), 8);
}

#[test]
fn a_logical_device_has_a_queue_for_each_family() {
    let choice = QueueFamilyChoice { compute: 3, graphics: None, transfer: Some(1) };
    let mut creation = create_logical_device(INSTANCE, GPU, choice, true);
    let mut machine = machine(vec![]);
    let logical = loop {
        match creation.resume(machine.perform(creation.command())) {
            Progress::Pending(next) => creation = next,
            Progress::Finished(Ok(logical)) => break logical,
            Progress::Finished(Err(_)) => panic!("nothing fails"),
        }
    };
    assert_eq!(logical.device, LOGICAL);
    assert_eq!(logical.compute_queue, QUEUE + 3);
    assert_eq!(logical.queues.compute.family_index, 3);
    assert!(logical.queues.graphics.is_none());
    assert_eq!(logical.queues.transfer.map(|q| (q.raw, q.family_index)), Some((QUEUE + 1, 1)));
    assert_eq!(machine.device_extensions, vec!["VK_KHR_swapchain"]);
    assert_eq!(machine.requested_families, vec![3, 1]);
}

#[test]
fn a_device_is_released_in_order() {
    let mut device = built(&mut machine(vec![discrete()]), VulkanDevice::init());
    assert_eq!(
        device.release_plan(),
        vec![
            DeviceRelease::WaitIdle { device: LOGICAL },
            DeviceRelease::DestroyCommandPool { pool: POOL },
            DeviceRelease::DestroyDevice { device: LOGICAL },
            DeviceRelease::DestroyInstance { instance: INSTANCE },
        ]
    );
}

// ── Buffers ───────────────────────────────────────────────────────

/// A logical device's objects. Work runs when its queue is waited for.
struct Driver {
    next: u64,
    sizes: HashMap<u64, u64>,
    usages: HashMap<u64, u32>,
    bindings: HashMap<u64, u64>,
    contents: HashMap<u64, Vec<u8>>,
    types: HashMap<u64, u32>,
    mappings: HashMap<u64, u64>,
    recorded: HashMap<u64, Vec<(u64, u64, u64)>>,
    submitted: Vec<(u64, Vec<(u64, u64, u64)>)>,
    type_bits: u32,
    failing: Option<(&'static str, i32)>,
    calls: Vec<&'static str>,
    /// What the device had in flight before each call.
    in_flight: Vec<u64>,
}

fn driver() -> Driver {
    Driver {
        next: 0x100,
        sizes: HashMap::new(),
        usages: HashMap::new(),
        bindings: HashMap::new(),
        contents: HashMap::new(),
        types: HashMap::new(),
        mappings: HashMap::new(),
        recorded: HashMap::new(),
        submitted: vec![],
        type_bits: u32::MAX,
        failing: None,
        calls: vec![],
        in_flight: vec![],
    }
}

impl Driver {
    fn handle(&mut self) -> u64 {
        self.next += 1;
        self.next
    }

    fn name(command: &Command) -> &'static str {
        match command {
            Command::CreateBuffer { .. } => "create",
            Command::MeasureBuffer { .. } => "measure",
            Command::AllocateMemory { .. } => "allocate",
            Command::BindMemory { .. } => "bind",
            Command::MapMemory { .. } => "map",
            Command::Upload { .. } => "upload",
            Command::AllocateCommandBuffer { .. } => "allocate recorder",
            Command::BeginCommandBuffer { .. } => "begin",
            Command::CopyBuffer { .. } => "copy",
            Command::EndCommandBuffer { .. } => "end",
            Command::Submit { .. } => "submit",
            Command::WaitIdle { .. } => "wait",
            Command::FreeCommandBuffer { .. } => "free recorder",
            Command::Download { .. } => "download",
        }
    }

    fn perform(&mut self, command: Command) -> Reply {
        let name = Driver::name(&command);
        self.calls.push(name);
        if let Some((call, code)) = self.failing {
            if call == name {
                return Reply::Failed(code);
            }
        }
        match command {
            Command::CreateBuffer { size, usage, sharing } => {
                assert_eq!(sharing, vk::SharingMode::EXCLUSIVE.as_raw());
                let buffer = self.handle();
                self.sizes.insert(buffer, size);
                self.usages.insert(buffer, usage);
                Reply::Handle(buffer)
            }
            Command::MeasureBuffer { buffer } => Reply::Requirements {
                size: (self.sizes[&buffer] + 255) / 256 * 256,
                type_bits: self.type_bits,
            },
            Command::AllocateMemory { size, type_index } => {
                let memory = self.handle();
                self.contents.insert(memory, vec![0xee; size as usize]);
                self.types.insert(memory, type_index);
                Reply::Handle(memory)
            }
            Command::BindMemory { buffer, memory, offset } => {
                assert_eq!(offset, 0);
                assert!(self.contents[&memory].len() as u64 >= self.sizes[&buffer]);
                self.bindings.insert(buffer, memory);
                Reply::Completed
            }
            Command::MapMemory { memory, offset, size } => {
                assert_eq!(offset, 0);
                assert!(self.contents[&memory].len() as u64 >= size);
                let mapped = 0x7000_0000 + memory;
                self.mappings.insert(mapped, memory);
                Reply::Handle(mapped)
            }
            Command::Upload { mapped, data } => {
                let memory = self.mappings[&mapped];
                self.contents.get_mut(&memory).unwrap()[..data.len()].copy_from_slice(data);
                Reply::Completed
            }
            Command::AllocateCommandBuffer { pool, level } => {
                assert_eq!(pool, POOL);
                assert_eq!(level, vk::CommandBufferLevel::PRIMARY.as_raw());
                let recorder = self.handle();
                self.recorded.insert(recorder, vec![]);
                Reply::Handle(recorder)
            }
            Command::BeginCommandBuffer { recorder, usage } => {
                assert_eq!(usage, vk::CommandBufferUsageFlags::ONE_TIME_SUBMIT.as_raw());
                self.recorded.insert(recorder, vec![]);
                Reply::Completed
            }
            Command::CopyBuffer { recorder, source, target, size } => {
                self.recorded.get_mut(&recorder).unwrap().push((source, target, size));
                Reply::Completed
            }
            Command::EndCommandBuffer { recorder } => {
                assert!(self.recorded.contains_key(&recorder));
                Reply::Completed
            }
            Command::Submit { queue, recorder } => {
                self.submitted.push((queue, self.recorded[&recorder].clone()));
                Reply::Completed
            }
            Command::WaitIdle { queue } => {
                for (on, jobs) in std::mem::take(&mut self.submitted) {
                    if on != queue {
                        self.submitted.push((on, jobs));
                        continue;
                    }
                    for (source, target, size) in jobs {
                        let bytes =
                            self.contents[&self.bindings[&source]][..size as usize].to_vec();
                        let memory = self.bindings[&target];
                        self.contents.get_mut(&memory).unwrap()[..size as usize]
                            .copy_from_slice(&bytes);
                    }
                }
                Reply::Completed
            }
            Command::FreeCommandBuffer { pool, recorder } => {
                assert_eq!(pool, POOL);
                assert!(self.recorded.remove(&recorder).is_some());
                Reply::Completed
            }
            Command::Download { mapped, len } => {
                Reply::Bytes(self.contents[&self.mappings[&mapped]][..len].to_vec())
            }
        }
    }

    fn create(
        &mut self,
        start: Progress<BufferCreation, Buffer>,
        device: &mut VulkanDevice,
    ) -> Result<Buffer, DeviceError> {
        let mut progress = start;
        loop {
            match progress {
                Progress::Pending(creation) => {
                    self.in_flight.push(device.in_flight());
                    progress = creation.resume(self.perform(creation.command()), device);
                }
                Progress::Finished(result) => return result,
            }
        }
    }

    fn read(
        &mut self,
        device: &mut VulkanDevice,
        buffer: &Buffer,
        element_size: usize,
    ) -> Result<Vec<u8>, DeviceError> {
        let mut progress = device.read_buffer(buffer, element_size);
        loop {
            match progress {
                Progress::Pending(read) => {
                    self.in_flight.push(device.in_flight());
                    progress = read.resume(self.perform(read.command()), device);
                }
                Progress::Finished(result) => return result,
            }
        }
    }

    fn release(&mut self, buffer: Buffer) {
        for step in buffer.release_plan() {
            match step {
                BufferRelease::DestroyBuffer { buffer } => {
                    assert!(self.sizes.remove(&buffer).is_some());
                    self.bindings.remove(&buffer);
                }
                BufferRelease::FreeMemory { memory } => {
                    assert!(self.bindings.values().all(|&bound| bound != memory));
                    assert!(self.contents.remove(&memory).is_some());
                    self.mappings.retain(|_, &mut mapped| mapped != memory);
                }
            }
        }
    }
}

fn device(strategy: MemoryStrategy) -> VulkanDevice {
    built(&mut machine(vec![discrete()]), VulkanDevice::init_with_strategy(strategy))
}

fn creation_failure(
    driver: &mut Driver,
    start: Progress<BufferCreation, Buffer>,
    device: &mut VulkanDevice,
) -> String {
    match driver.create(start, device) {
        Err(DeviceError::BufferCreationFailed { message }) => message,
        _ => panic!("the creation must fail"),
    }
}

#[test]
fn a_unified_buffer_is_one_mapped_buffer() {
    let mut device = device(MemoryStrategy::Unified);
    let mut driver = driver();
    let buffer = driver.create(device.create_buffer(&[7; 20]), &mut device).expect("create");
    assert_eq!(driver.calls, vec!["create", "measure", "allocate", "bind", "map", "upload"]);
    assert_eq!((buffer.len, buffer.size), (20, 32));
    assert_eq!((buffer.staging_buffer, buffer.staging_memory), (None, None));
    assert_ne!(buffer.mapped, 0);
    assert_eq!(driver.usages[&buffer.buffer], VulkanDevice::buffer_usage());
    // Cached memory is preferred.
    assert_eq!(driver.types[&buffer.memory], 2);
}

#[test]
fn a_device_local_buffer_is_filled_through_staging() {
    let mut device = device(MemoryStrategy::Auto);
    let mut driver = driver();
    let data: Vec<u8> = (0..200).collect();
    let buffer = driver.create(device.create_buffer(&data), &mut device).expect("create");
    assert_eq!(
        driver.calls,
        vec![
            "create", "measure", "allocate", "bind",
            "create", "measure", "allocate", "bind", "map",
            "upload", "allocate recorder", "begin", "copy", "end", "submit", "wait",
            "free recorder",
        ]
    );
    let staging = buffer.staging_buffer.expect("a staging buffer");
    let staging_memory = buffer.staging_memory.expect("its memory");
    assert_eq!(&driver.contents[&buffer.memory][..200], &data[..]);
    assert_eq!(driver.types[&buffer.memory], 0);
    assert_eq!(driver.types[&staging_memory], 2);
    assert_eq!(driver.mappings[&buffer.mapped], staging_memory);
    assert_eq!(driver.usages[&buffer.buffer], VulkanDevice::buffer_usage());
    assert_eq!(driver.usages[&staging], USAGE_TRANSFER_SRC | USAGE_TRANSFER_DST);
    assert!(driver.recorded.is_empty());
}

#[test]
fn reading_sees_what_the_device_wrote() {
    let mut device = device(MemoryStrategy::DeviceLocal);
    let mut driver = driver();
    let buffer = driver.create(device.create_buffer(&[1, 2, 3, 4]), &mut device).expect("create");
    driver.contents.get_mut(&buffer.memory).unwrap()[..4].copy_from_slice(&[9, 8, 7, 6]);
    assert_eq!(driver.read(&mut device, &buffer, 1).expect("read"), vec![9, 8, 7, 6]);
    assert_eq!(driver.read(&mut device, &buffer, 1).expect("read again"), vec![9, 8, 7, 6]);
}

#[test]
fn reading_waits_for_earlier_work() {
    let mut device = device(MemoryStrategy::DeviceLocal);
    let mut driver = driver();
    let first = driver.create(device.create_buffer(&[5; 16]), &mut device).expect("create");
    let second = driver.create(device.create_buffer(&[6; 16]), &mut device).expect("create");
    let copy = (first.buffer, second.buffer, 16);
    driver.submitted.push((device.compute_queue, vec![copy]));
    assert_eq!(driver.read(&mut device, &second, 1).expect("read"), vec![5; 16]);
    assert_eq!(driver.read(&mut device, &first, 1).expect("read"), vec![5; 16]);
}

#[test]
fn creation_lets_earlier_work_finish() {
    let mut device = device(MemoryStrategy::DeviceLocal);
    let mut driver = driver();
    let first = driver.create(device.create_buffer(&[5; 16]), &mut device).expect("create");
    let second = driver.create(device.create_buffer(&[6; 16]), &mut device).expect("create");
    driver.submitted.push((device.compute_queue, vec![(first.buffer, second.buffer, 16)]));
    let third = driver.create(device.create_buffer(&[7; 16]), &mut device).expect("create");
    assert!(driver.submitted.is_empty());
    assert_eq!(driver.read(&mut device, &second, 1).expect("read"), vec![5; 16]);
    assert_eq!(driver.read(&mut device, &third, 1).expect("read"), vec![7; 16]);
}

#[test]
fn reading_returns_whole_elements() {
    for strategy in [MemoryStrategy::Unified, MemoryStrategy::DeviceLocal] {
        let mut device = device(strategy);
        let mut driver = driver();
        let buffer = driver.create(device.create_buffer(&[1, 2, 3, 4, 5, 6, 7]), &mut device).expect("create");
        assert_eq!(driver.read(&mut device, &buffer, 4).expect("read"), vec![1, 2, 3, 4]);
        assert_eq!(driver.read(&mut device, &buffer, 3).expect("read"), vec![1, 2, 3, 4, 5, 6]);
        assert_eq!(driver.read(&mut device, &buffer, 8).expect("read"), Vec::<u8>::new());
        // Elements without a size: none are read.
        assert_eq!(driver.read(&mut device, &buffer, 0).expect("read"), Vec::<u8>::new());
    }
}

#[test]
fn empty_data_gets_one_alignment_and_no_upload() {
    for strategy in [MemoryStrategy::Unified, MemoryStrategy::DeviceLocal] {
        let mut device = device(strategy);
        let mut driver = driver();
        let buffer = driver.create(device.create_buffer(&[]), &mut device).expect("create");
        assert_eq!((buffer.len, buffer.size), (0, 16));
        assert!(!driver.calls.contains(&"upload") && !driver.calls.contains(&"copy"));
        assert_eq!(driver.read(&mut device, &buffer, 4).expect("read"), Vec::<u8>::new());
    }
}

#[test]
fn uninitialised_buffers_have_room_for_their_elements() {
    for strategy in [MemoryStrategy::Unified, MemoryStrategy::DeviceLocal] {
        let mut device = device(strategy);
        let mut driver = driver();
        let buffer = driver.create(device.create_buffer_uninit(10, 4), &mut device).expect("create");
        assert_eq!((buffer.len, buffer.size), (40, 48));
        assert!(!driver.calls.contains(&"upload") && !driver.calls.contains(&"copy"));
        assert_eq!(driver.read(&mut device, &buffer, 4).expect("read").len(), 40);
        let empty = driver.create(device.create_buffer_uninit(10, 0), &mut device).expect("create");
        assert_eq!((empty.len, empty.size), (0, 16));
    }
}

#[test]
fn buffers_do_not_disturb_each_other() {
    let mut device = device(MemoryStrategy::DeviceLocal);
    let mut driver = driver();
    let first = driver.create(device.create_buffer(&[1; 50]), &mut device).expect("create");
    let second = driver.create(device.create_buffer(&[2; 50]), &mut device).expect("create");
    assert_eq!(driver.read(&mut device, &first, 1).expect("read"), vec![1; 50]);
    assert_eq!(driver.read(&mut device, &second, 1).expect("read"), vec![2; 50]);
}

#[test]
fn releasing_leaves_nothing_behind() {
    for strategy in [MemoryStrategy::Unified, MemoryStrategy::DeviceLocal] {
        let mut device = device(strategy);
        let mut driver = driver();
        let kept = driver.create(device.create_buffer(&[3; 8]), &mut device).expect("create");
        let before = (driver.sizes.len(), driver.contents.len(), driver.mappings.len());
        let buffer = driver.create(device.create_buffer(&[4; 8]), &mut device).expect("create");
        driver.release(buffer);
        assert_eq!(before, (driver.sizes.len(), driver.contents.len(), driver.mappings.len()));
        assert_eq!(driver.read(&mut device, &kept, 1).expect("read"), vec![3; 8]);
        driver.release(kept);
        assert!(driver.sizes.is_empty() && driver.contents.is_empty());
        assert!(driver.bindings.is_empty() && driver.mappings.is_empty());
    }
}

#[test]
fn release_plans_free_staging_first() {
    let mut buffer = Buffer {
        buffer: 1,
        memory: 2,
        size: 16,
        mapped: 0,
        staging_buffer: Some(3),
        staging_memory: Some(4),
        len: 16,
    };
    assert_eq!(
        buffer.release_plan(),
        vec![
            BufferRelease::DestroyBuffer { buffer: 3 },
            BufferRelease::FreeMemory { memory: 4 },
            BufferRelease::DestroyBuffer { buffer: 1 },
            BufferRelease::FreeMemory { memory: 2 },
        ]
    );
    buffer.staging_buffer = None;
    buffer.staging_memory = None;
    assert_eq!(
        buffer.release_plan(),
        vec![
            BufferRelease::DestroyBuffer { buffer: 1 },
            BufferRelease::FreeMemory { memory: 2 },
        ]
    );
}

#[test]
fn an_unmapped_buffer_is_not_read() {
    let mut device = device(MemoryStrategy::Unified);
    let buffer = Buffer {
        buffer: 1,
        memory: 2,
        size: 16,
        mapped: 0,
        staging_buffer: None,
        staging_memory: None,
        len: 16,
    };
    match driver().read(&mut device, &buffer, 1) {
        Err(DeviceError::BufferReadFailed { message }) => {
            assert_eq!(message, "buffer is not host-visible (no staging mapping)")
        }
        _ => panic!("there is no mapping to read"),
    }
}

#[test]
fn an_unmapped_staging_buffer_is_not_read_after_the_copy() {
    let mut device = device(MemoryStrategy::DeviceLocal);
    let mut driver = driver();
    let mut buffer = driver.create(device.create_buffer(&[1, 2]), &mut device).expect("create");
    buffer.mapped = 0;
    driver.calls.clear();
    assert!(matches!(
        driver.read(&mut device, &buffer, 1),
        Err(DeviceError::BufferReadFailed { .. })
    ));
    assert_eq!(driver.calls.last(), Some(&"free recorder"));
}

#[test]
fn creation_failures_name_the_call() {
    let code = vk::Result::ERROR_OUT_OF_DEVICE_MEMORY.as_raw();
    let mut unified = device(MemoryStrategy::Unified);
    for (call, name) in [
        ("create", "vkCreateBuffer"),
        ("allocate", "vkAllocateMemory"),
        ("bind", "vkBindBufferMemory"),
        ("map", "vkMapMemory"),
    ] {
        let mut driver = driver();
        driver.failing = Some((call, code));
        assert_eq!(
            creation_failure(&mut driver, unified.create_buffer(&[1]), &mut unified),
            format!("{name}: A device memory allocation has failed")
        );
    }
    let mut local = device(MemoryStrategy::DeviceLocal);
    for (call, name) in [
        ("create", "vkCreateBuffer(device-local)"),
        ("allocate", "vkAllocateMemory(device-local)"),
        ("bind", "vkBindBufferMemory(device-local)"),
        ("map", "vkMapMemory"),
        ("allocate recorder", "transfer allocate"),
        ("begin", "transfer begin"),
        ("end", "transfer end"),
        ("submit", "transfer submit"),
        ("wait", "transfer wait"),
    ] {
        let mut driver = driver();
        driver.failing = Some((call, code));
        assert_eq!(
            creation_failure(&mut driver, local.create_buffer(&[1]), &mut local),
            format!("{name}: A device memory allocation has failed")
        );
    }
}

#[test]
fn an_unknown_result_code_is_printed_as_a_number() {
    let mut device = device(MemoryStrategy::Unified);
    let mut driver = driver();
    driver.failing = Some(("map", -424242));
    assert_eq!(
        creation_failure(&mut driver, device.create_buffer(&[1]), &mut device),
        "vkMapMemory: -424242"
    );
}

#[test]
fn a_missing_memory_type_is_reported() {
    let mut local = device(MemoryStrategy::DeviceLocal);
    let mut driver = driver();
    // No type of device-local memory is allowed for the buffer.
    driver.type_bits = 0b110;
    assert_eq!(
        creation_failure(&mut driver, local.create_buffer(&[1]), &mut local),
        "no suitable memory type found"
    );
    // Uncached coherent memory will do for the host.
    let mut unified = device(MemoryStrategy::Unified);
    driver.type_bits = 0b010;
    let buffer = driver.create(unified.create_buffer(&[1]), &mut unified).expect("create");
    assert_eq!(driver.types[&buffer.memory], 1);
    driver.type_bits = 0b001;
    assert_eq!(
        creation_failure(&mut driver, unified.create_buffer(&[1]), &mut unified),
        "no suitable memory type found"
    );
}

#[test]
fn a_failed_copy_fails_the_reading() {
    let mut device = device(MemoryStrategy::DeviceLocal);
    let mut driver = driver();
    let buffer = driver.create(device.create_buffer(&[1, 2]), &mut device).expect("create");
    driver.failing = Some(("submit", vk::Result::ERROR_INITIALIZATION_FAILED.as_raw()));
    match driver.read(&mut device, &buffer, 1) {
        Err(DeviceError::BufferReadFailed { message }) => {
            assert_eq!(message, "transfer submit: Initialization of an object has failed")
        }
        _ => panic!("the copy fails"),
    }
}

#[test]
fn buffers_serve_compute_graphics_and_transfers() {
    assert_eq!(
        VulkanDevice::buffer_usage(),
        USAGE_STORAGE_BUFFER | USAGE_VERTEX_BUFFER | USAGE_TRANSFER_SRC | USAGE_TRANSFER_DST
    );
}

#[test]
fn allocations_differ_in_mapping() {
    let memory = memory(&[MEMORY_DEVICE_LOCAL, HOST], &[]);
    let mut driver = driver();
    let mut made: Vec<Allocated> = vec![];
    for start in [
        allocate_buffer(&memory, 100, USAGE_STORAGE_BUFFER),
        allocate_device_local_buffer(&memory, 100, USAGE_STORAGE_BUFFER),
    ] {
        let mut allocation = start;
        loop {
            match allocation.resume(driver.perform(allocation.command())) {
                Progress::Pending(next) => allocation = next,
                Progress::Finished(Ok(done)) => {
                    made.push(done);
                    break;
                }
                Progress::Finished(Err(_)) => panic!("nothing fails"),
            }
        }
    }
    assert_ne!(made[0].mapped, 0);
    assert_eq!(made[1].mapped, 0);
    assert_eq!(driver.types[&made[0].memory], 1);
    assert_eq!(driver.types[&made[1].memory], 0);
    // The driver may need more than was asked for.
    assert_eq!(driver.contents[&made[0].memory].len(), 256);
}

#[test]
fn a_transfer_ignores_replies_to_other_calls() {
    let transfer = one_shot_transfer(POOL, QUEUE, 1, 2, 64);
    let mut tracker = GpuEpochTracker::new();
    let mut left = 0u64;
    match transfer.resume(Reply::Completed, &mut tracker, &mut left) {
        Progress::Pending(same) => assert_eq!(same, transfer),
        Progress::Finished(_) => panic!("no command buffer was allocated"),
    }
    assert!(tracker.is_quiescent());
    assert_eq!(left, 0);
}

/// What the device had in flight before each call, by the call.
fn counted(driver: &Driver) -> Vec<(&'static str, u64)> {
    driver.calls.iter().copied().zip(driver.in_flight.iter().copied()).collect()
}

#[test]
fn the_devices_own_copies_are_counted() {
    let mut device = device(MemoryStrategy::DeviceLocal);
    let mut driver = driver();
    let buffer = driver.create(device.create_buffer(&[1, 2]), &mut device).expect("create");
    for (call, in_flight) in counted(&driver) {
        assert_eq!(in_flight, u64::from(call == "submit" || call == "wait"), "{call}");
    }
    assert!(device.is_quiescent());
    driver.calls.clear();
    driver.in_flight.clear();
    driver.read(&mut device, &buffer, 1).expect("read");
    for (call, in_flight) in counted(&driver) {
        assert_eq!(in_flight, u64::from(call == "submit" || call == "wait"), "{call}");
    }
    assert!(device.prove_quiescent().is_some());
}

#[test]
fn copies_are_counted_beside_other_work() {
    let mut device = device(MemoryStrategy::DeviceLocal);
    device.epoch.begin_dispatch();
    let mut driver = driver();
    driver.create(device.create_buffer(&[1, 2]), &mut device).expect("create");
    assert_eq!(driver.in_flight.iter().max(), Some(&2));
    assert_eq!(device.in_flight(), 1);
    assert!(device.prove_quiescent().is_none());
    device.epoch.end_dispatch();
    assert!(device.is_quiescent());
}

#[test]
fn unified_buffers_count_nothing() {
    let mut device = device(MemoryStrategy::Unified);
    let mut driver = driver();
    let buffer = driver.create(device.create_buffer(&[1, 2]), &mut device).expect("create");
    driver.read(&mut device, &buffer, 1).expect("read");
    assert!(driver.in_flight.iter().all(|&n| n == 0));
}

#[test]
fn a_failed_submission_is_not_in_flight() {
    let mut device = device(MemoryStrategy::DeviceLocal);
    let mut driver = driver();
    driver.failing = Some(("submit", vk::Result::ERROR_OUT_OF_HOST_MEMORY.as_raw()));
    assert!(driver.create(device.create_buffer(&[1]), &mut device).is_err());
    assert!(device.is_quiescent());
}

#[test]
fn a_copy_that_was_not_waited_for_stays_in_flight() {
    let mut device = device(MemoryStrategy::DeviceLocal);
    let mut driver = driver();
    driver.failing = Some(("wait", vk::Result::ERROR_OUT_OF_HOST_MEMORY.as_raw()));
    assert!(driver.create(device.create_buffer(&[1]), &mut device).is_err());
    assert_eq!(device.in_flight(), 1);
    assert!(!device.is_quiescent());
}

#[test]
fn work_that_queues_share_does_not_disturb_a_new_buffer() {
    for strategy in [MemoryStrategy::Unified, MemoryStrategy::DeviceLocal] {
        let mut device = device(strategy);
        let mut driver = driver();
        let first = driver.create(device.create_buffer(&[1; 16]), &mut device).expect("create");
        let second = driver.create(device.create_buffer(&[2; 16]), &mut device).expect("create");
        // Compute and graphics work on the same memory.
        let graphics = QUEUE;
        assert_ne!(device.compute_queue, graphics);
        driver.submitted.push((device.compute_queue, vec![(first.buffer, second.buffer, 16)]));
        driver.submitted.push((graphics, vec![(second.buffer, first.buffer, 16)]));
        let data: Vec<u8> = (0..60).collect();
        let buffer = driver.create(device.create_buffer(&data), &mut device).expect("create");
        assert_eq!(driver.read(&mut device, &buffer, 4).expect("read"), data);
        assert_eq!(driver.read(&mut device, &buffer, 4).expect("read again"), data);
        assert!(driver.submitted.iter().any(|(queue, _)| *queue == graphics));
    }
}

#[test]
fn nothing_is_left_once_every_buffer_is_released() {
    let mut device = device(MemoryStrategy::DeviceLocal);
    let mut driver = driver();
    let mut buffers: Vec<Buffer> = vec![];
    for n in 0..4u8 {
        let data = vec![n; 8];
        buffers.push(driver.create(device.create_buffer(&data), &mut device).expect("create"));
    }
    // In any order.
    for index in [2, 0, 1, 0] {
        assert!(!driver.sizes.is_empty() && !driver.contents.is_empty());
        driver.release(buffers.remove(index));
    }
    assert!(driver.sizes.is_empty() && driver.contents.is_empty());
    assert!(driver.bindings.is_empty() && driver.mappings.is_empty());
}

#[test]
fn the_next_wait_ends_copies_that_were_left() {
    let mut device = device(MemoryStrategy::DeviceLocal);
    let mut driver = driver();
    let buffer = driver.create(device.create_buffer(&[1, 2]), &mut device).expect("create");
    driver.failing = Some(("wait", vk::Result::ERROR_OUT_OF_HOST_MEMORY.as_raw()));
    assert!(driver.create(device.create_buffer(&[1]), &mut device).is_err());
    assert!(driver.read(&mut device, &buffer, 1).is_err());
    assert_eq!((device.in_flight(), device.left_copies), (2, 2));
    // Other failures leave it at that.
    driver.failing = Some(("submit", vk::Result::ERROR_OUT_OF_HOST_MEMORY.as_raw()));
    assert!(driver.read(&mut device, &buffer, 1).is_err());
    assert_eq!((device.in_flight(), device.left_copies), (2, 2));
    // A consumer's work is not touched.
    device.epoch.begin_dispatch();
    driver.failing = None;
    assert_eq!(driver.read(&mut device, &buffer, 1).expect("read"), vec![1, 2]);
    assert_eq!((device.in_flight(), device.left_copies), (1, 0));
    device.epoch.end_dispatch();
    assert!(device.is_quiescent());
}

#[test]
fn lengths_that_cannot_be_addressed_are_refused() {
    assert!(matches!(byte_len(10, 4), Ok(40)));
    assert!(matches!(byte_len(usize::MAX, 0), Ok(0)));
    assert!(matches!(byte_len(usize::MAX, 1), Ok(usize::MAX)));
    match byte_len(usize::MAX, 4) {
        Err(DeviceError::BufferCreationFailed { message }) => {
            assert_eq!(message, "buffer size overflows")
        }
        _ => panic!("the length overflows"),
    }
}

#[test]
fn buffers_that_cannot_be_sized_are_refused() {
    for strategy in [MemoryStrategy::Unified, MemoryStrategy::DeviceLocal] {
        let mut device = device(strategy);
        let mut driver = driver();
        assert_eq!(
            creation_failure(
                &mut driver,
                device.create_buffer_uninit(usize::MAX, std::mem::size_of::<u32>()),
                &mut device,
            ),
            "buffer size overflows"
        );
        device.limits.min_storage_buffer_offset_alignment = u64::MAX;
        assert_eq!(
            creation_failure(&mut driver, device.create_buffer(&[1, 2]), &mut device),
            "buffer size overflows"
        );
        assert!(driver.calls.is_empty());
    }
}
