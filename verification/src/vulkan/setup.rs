//! What device setup asks of the driver, one call at a time.

use super::adapter::PhysicalDeviceInfo;
use super::extensions::texts;
use super::memory::MemoryProperties;
use vstd::prelude::*;

verus! {

/// One call of device setup, with its arguments.
#[derive(Debug)]
pub enum SetupCommand {
    /// Load the Vulkan library.
    LoadLibrary,
    /// `vkEnumerateInstanceVersion`, where the loader has it.
    QueryVersion,
    /// `vkEnumerateInstanceExtensionProperties`, of no layer.
    ListInstanceExtensions,
    /// `vkCreateInstance`.
    CreateInstance {
        /// Name of the application and of the engine.
        name: &'static str,
        /// The API version that is asked for.
        api_version: u32,
        /// The extensions to enable.
        extensions: Vec<&'static str>,
    },
    /// `vkEnumeratePhysicalDevices`, and for each device its type and its queue
    /// families.
    ListPhysicalDevices {
        /// The instance.
        instance: u64,
    },
    /// `vkGetPhysicalDeviceProperties` and
    /// `vkGetPhysicalDeviceMemoryProperties`.
    QueryPhysicalDevice {
        /// The instance.
        instance: u64,
        /// The physical device.
        physical_device: u64,
    },
    /// `vkEnumerateDeviceExtensionProperties`.
    ListDeviceExtensions {
        /// The instance.
        instance: u64,
        /// The physical device.
        physical_device: u64,
    },
    /// `vkCreateDevice`, with one queue of full priority for each family.
    CreateDevice {
        /// The instance.
        instance: u64,
        /// The physical device.
        physical_device: u64,
        /// The queue families.
        families: Vec<u32>,
        /// The extensions to enable.
        extensions: Vec<&'static str>,
    },
    /// `vkGetDeviceQueue`.
    FetchQueue {
        /// The device.
        device: u64,
        /// The queue family.
        family: u32,
        /// Which queue of the family.
        index: u32,
    },
    /// `vkCreateCommandPool`.
    CreateCommandPool {
        /// The device.
        device: u64,
        /// The queue family.
        family: u32,
        /// `VkCommandPoolCreateFlags`.
        flags: u32,
    },
}

/// A [`SetupCommand`] by what it asks.
pub enum SetupRequest {
    LoadLibrary,
    QueryVersion,
    ListInstanceExtensions,
    CreateInstance { name: Seq<char>, api_version: u32, extensions: Seq<Seq<char>> },
    ListPhysicalDevices { instance: u64 },
    QueryPhysicalDevice { instance: u64, physical_device: u64 },
    ListDeviceExtensions { instance: u64, physical_device: u64 },
    CreateDevice {
        instance: u64,
        physical_device: u64,
        families: Seq<u32>,
        extensions: Seq<Seq<char>>,
    },
    FetchQueue { device: u64, family: u32, index: u32 },
    CreateCommandPool { device: u64, family: u32, flags: u32 },
}

impl View for SetupCommand {
    type V = SetupRequest;

    open spec fn view(&self) -> SetupRequest {
        match *self {
            SetupCommand::LoadLibrary => SetupRequest::LoadLibrary,
            SetupCommand::QueryVersion => SetupRequest::QueryVersion,
            SetupCommand::ListInstanceExtensions => SetupRequest::ListInstanceExtensions,
            SetupCommand::CreateInstance {
                name,
                api_version,
                extensions,
            } => SetupRequest::CreateInstance {
                name: name@,
                api_version,
                extensions: texts(extensions@),
            },
            SetupCommand::ListPhysicalDevices { instance } => SetupRequest::ListPhysicalDevices {
                instance,
            },
            SetupCommand::QueryPhysicalDevice {
                instance,
                physical_device,
            } => SetupRequest::QueryPhysicalDevice { instance, physical_device },
            SetupCommand::ListDeviceExtensions {
                instance,
                physical_device,
            } => SetupRequest::ListDeviceExtensions { instance, physical_device },
            SetupCommand::CreateDevice {
                instance,
                physical_device,
                families,
                extensions,
            } => SetupRequest::CreateDevice {
                instance,
                physical_device,
                families: families@,
                extensions: texts(extensions@),
            },
            SetupCommand::FetchQueue { device, family, index } => SetupRequest::FetchQueue {
                device,
                family,
                index,
            },
            SetupCommand::CreateCommandPool {
                device,
                family,
                flags,
            } => SetupRequest::CreateCommandPool { device, family, flags },
        }
    }
}

/// What a driver reports of the chosen physical device.
#[derive(Debug, Clone, Copy)]
pub struct DeviceProperties {
    /// `VkPhysicalDeviceType` number.
    pub device_type: i32,
    /// Minimum alignment (bytes) for storage buffer offsets.
    pub min_storage_buffer_offset_alignment: u64,
    /// The device's memory.
    pub memory: MemoryProperties,
}

/// How a call of device setup went.
#[derive(Debug)]
pub enum SetupReply {
    /// The library is loaded.
    Loaded,
    /// The library could not be loaded, for this reason.
    LoadFailed(String),
    /// The API version that the loader offers, where it says.
    Version(Option<u32>),
    /// The names of the extensions.
    Names(Vec<String>),
    /// The physical devices, in the driver's order.
    Devices(Vec<PhysicalDeviceInfo>),
    /// The properties of a physical device.
    Properties(DeviceProperties),
    /// The call made or found an object: its handle.
    Handle(u64),
    /// The call failed with this `VkResult` number.
    Failed(i32),
}

impl SetupReply {
    /// Memory tables in the reply are in order.
    pub open spec fn wf(self) -> bool {
        self matches SetupReply::Properties(properties) ==> properties.memory.wf()
    }
}

} // verus!
