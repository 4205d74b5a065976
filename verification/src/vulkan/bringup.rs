//! Building a device: from loading the library to the transfer command pool.

use super::abi::{device_kind, kind_of, vk_result_message, API_VERSION_1_1, POOL_TRANSIENT};
use super::adapter::{enumeration_failed, pick_of, pick_physical_device, PhysicalDeviceInfo};
use super::command::{Outcome, Progress};
use super::device::VulkanDevice;
use super::extensions::{
    enabled_surface_extensions, is_reported, reports, select_surface_extensions,
    swapchain_extension,
};
use super::families::QueueFamilyChoice;
use super::logical::{create_logical_device, new_logical, LogicalCreation, LogicalDevice};
use super::memory::{placed_locally, uses_device_local};
use super::setup::{DeviceProperties, SetupCommand, SetupReply, SetupRequest};
use crate::device::DeviceLimits;
use crate::epoch::GpuEpochTracker;
use crate::error::{failure_text, vk_failure_message, DeviceError, ErrorView};
use crate::request::{InitRequest, MemoryStrategy};
use vstd::prelude::*;

verus! {

/// The physical device that was picked, with what is known of it.
#[derive(Debug, Clone, Copy)]
pub struct Adapter {
    /// `VkInstance` handle.
    pub instance: u64,
    /// `VkPhysicalDevice` handle.
    pub physical_device: u64,
    /// The families that serve.
    pub choice: QueueFamilyChoice,
    /// What the driver reports of the device.
    pub properties: DeviceProperties,
}

/// How far the building of a device has come.
#[derive(Debug)]
pub enum BuildPhase {
    /// The library is to be loaded.
    Loading,
    /// The loader is to be asked for its API version: to ask for one that it
    /// does not have can crash drivers.
    Versioning,
    /// The loader's extensions are to be listed.
    ListingInstanceExtensions {
        /// The API version to ask for.
        api_version: u32,
    },
    /// The instance is to be created.
    CreatingInstance {
        /// The API version to ask for.
        api_version: u32,
        /// The extensions that the loader has, where they were listed.
        available: Option<Vec<String>>,
    },
    /// The physical devices are to be listed.
    ListingDevices {
        /// The instance.
        instance: u64,
    },
    /// The picked physical device is to be asked for its properties.
    Querying {
        /// The instance.
        instance: u64,
        /// The picked device.
        physical_device: u64,
        /// The families that serve.
        choice: QueueFamilyChoice,
    },
    /// The picked device's extensions are to be listed.
    ListingDeviceExtensions {
        /// The picked device.
        adapter: Adapter,
    },
    /// The logical device is being created.
    CreatingDevice {
        /// The picked device.
        adapter: Adapter,
        /// The creation.
        creation: LogicalCreation,
    },
    /// The transfer command pool is to be created.
    CreatingPool {
        /// The picked device.
        adapter: Adapter,
        /// The logical device.
        logical: LogicalDevice,
    },
}

/// The building of a device with a memory strategy and a graphics preference.
///
/// Where graphics is wanted, every surface extension that the loader has and
/// the swapchain extension, where the device has it, are enabled. Nothing that
/// is unsupported is asked for, so a compute-only driver never fails for it.
#[derive(Debug)]
pub struct Build {
    /// The memory strategy.
    pub strategy: MemoryStrategy,
    /// Whether graphics is wanted.
    pub prefer_graphics: bool,
    /// How far the building has come.
    pub phase: BuildPhase,
}

/// The building that [`VulkanDevice::build`] starts.
pub open spec fn new_build(strategy: MemoryStrategy, prefer_graphics: bool) -> Build {
    Build { strategy, prefer_graphics, phase: BuildPhase::Loading }
}

/// The API version to ask for: what the loader offers, else 1.1.
pub open spec fn version_to_use(reply: SetupReply) -> u32 {
    match reply {
        SetupReply::Version(Some(version)) => version,
        _ => API_VERSION_1_1,
    }
}

/// The device that a building with `strategy` ends in.
pub open spec fn built_device(
    strategy: MemoryStrategy,
    adapter: Adapter,
    logical: LogicalDevice,
    command_pool: u64,
) -> VulkanDevice {
    VulkanDevice {
        instance: adapter.instance,
        device: logical.device,
        physical_device: adapter.physical_device,
        queues: logical.queues,
        compute_queue: logical.compute_queue,
        command_pool,
        memory_properties: adapter.properties.memory,
        memory_strategy: strategy,
        uses_device_local: placed_locally(
            strategy,
            kind_of(adapter.properties.device_type),
            adapter.properties.memory,
        ),
        limits: DeviceLimits {
            min_storage_buffer_offset_alignment:
                adapter.properties.min_storage_buffer_offset_alignment,
        },
        epoch: GpuEpochTracker::idle(),
        left_copies: 0,
    }
}

impl VulkanDevice {
    /// Starts building a device.
    pub fn build(strategy: MemoryStrategy, prefer_graphics: bool) -> (build: Build)
        ensures
            build == new_build(strategy, prefer_graphics),
            build.wf(),
    {
        Build { strategy, prefer_graphics, phase: BuildPhase::Loading }
    }

    /// Starts initialising the best compute device.
    pub fn init() -> (build: Build)
        ensures
            build == new_build(MemoryStrategy::Auto, false),
            build.wf(),
    {
        VulkanDevice::build(MemoryStrategy::Auto, false)
    }

    /// Starts initialising with an explicit memory strategy.
    pub fn init_with_strategy(strategy: MemoryStrategy) -> (build: Build)
        ensures
            build == new_build(strategy, false),
            build.wf(),
    {
        VulkanDevice::build(strategy, false)
    }

    /// Starts initialising with explicit capability preferences.
    pub fn init_with(request: InitRequest) -> (build: Build)
        ensures
            build == new_build(request.memory, request.prefer_graphics),
            build.wf(),
    {
        VulkanDevice::build(request.memory, request.prefer_graphics)
    }
}

impl Build {
    /// The same building at another phase.
    pub open spec fn at(self, phase: BuildPhase) -> Build {
        Build { phase, ..self }
    }

    /// What was learnt so far is in order, and extensions are looked at only
    /// where graphics is wanted.
    pub open spec fn wf(self) -> bool {
        match self.phase {
            BuildPhase::Loading => true,
            BuildPhase::Versioning => true,
            BuildPhase::ListingInstanceExtensions { .. } => self.prefer_graphics,
            BuildPhase::CreatingInstance { available, .. } => available is Some
                ==> self.prefer_graphics,
            BuildPhase::ListingDevices { .. } => true,
            BuildPhase::Querying { .. } => true,
            BuildPhase::ListingDeviceExtensions { adapter } => self.prefer_graphics
                && adapter.properties.memory.wf(),
            BuildPhase::CreatingDevice { adapter, creation } => {
                &&& adapter.properties.memory.wf()
                &&& creation.wf()
                &&& creation.choice == adapter.choice
                &&& creation.swapchain ==> self.prefer_graphics
            },
            BuildPhase::CreatingPool { adapter, logical } => {
                &&& adapter.properties.memory.wf()
                &&& logical.serves(adapter.choice)
            },
        }
    }

    /// The call that this building waits for.
    pub open spec fn wanted(self) -> SetupRequest {
        match self.phase {
            BuildPhase::Loading => SetupRequest::LoadLibrary,
            BuildPhase::Versioning => SetupRequest::QueryVersion,
            BuildPhase::ListingInstanceExtensions { .. } => SetupRequest::ListInstanceExtensions,
            BuildPhase::CreatingInstance { api_version, available } => {
                SetupRequest::CreateInstance {
                    name: "zunesha"@,
                    api_version,
                    extensions: enabled_surface_extensions(available),
                }
            },
            BuildPhase::ListingDevices { instance } => SetupRequest::ListPhysicalDevices {
                instance,
            },
            BuildPhase::Querying { instance, physical_device, .. } => {
                SetupRequest::QueryPhysicalDevice { instance, physical_device }
            },
            BuildPhase::ListingDeviceExtensions { adapter } => SetupRequest::ListDeviceExtensions {
                instance: adapter.instance,
                physical_device: adapter.physical_device,
            },
            BuildPhase::CreatingDevice { creation, .. } => creation.wanted(),
            BuildPhase::CreatingPool { adapter, logical } => SetupRequest::CreateCommandPool {
                device: logical.device,
                family: adapter.choice.compute,
                flags: POOL_TRANSIENT,
            },
        }
    }

    /// The building with a failed call.
    pub open spec fn failed(call: Seq<char>, code: i32) -> Outcome<Build, VulkanDevice> {
        Outcome::Finished(
            Err(ErrorView::InitFailed(failure_text(call, vk_result_message(code)))),
        )
    }

    /// The building once a physical device is picked, or none could be.
    pub open spec fn device_picked(
        self,
        instance: u64,
        picked: Result<(u64, QueueFamilyChoice), ErrorView>,
    ) -> Outcome<Build, VulkanDevice> {
        match picked {
            Ok((physical_device, choice)) => Outcome::Pending(
                self.at(BuildPhase::Querying { instance, physical_device, choice }),
            ),
            Err(error) => Outcome::Finished(Err(error)),
        }
    }

    /// The building once it is known whether a swapchain is supported.
    pub open spec fn extensions_settled(self, adapter: Adapter, swapchain: bool) -> Build {
        self.at(
            BuildPhase::CreatingDevice {
                adapter,
                creation: new_logical(
                    adapter.instance,
                    adapter.physical_device,
                    adapter.choice,
                    swapchain,
                ),
            },
        )
    }

    /// Where the building stands after `reply`. A failed call ends it with an
    /// error that names the call, except that a loader without a version or
    /// without a list of extensions is taken to have none; a reply to another
    /// call changes nothing.
    pub open spec fn step(self, reply: SetupReply) -> Outcome<Build, VulkanDevice> {
        match (self.phase, reply) {
            (BuildPhase::Loading, SetupReply::Loaded) => Outcome::Pending(
                self.at(BuildPhase::Versioning),
            ),
            (BuildPhase::Loading, SetupReply::LoadFailed(reason)) => Outcome::Finished(
                Err(ErrorView::InitFailed(reason@)),
            ),
            (BuildPhase::Versioning, SetupReply::Version(_)) | (
                BuildPhase::Versioning,
                SetupReply::Failed(_),
            ) => Outcome::Pending(
                self.at(
                    if self.prefer_graphics {
                        BuildPhase::ListingInstanceExtensions { api_version: version_to_use(reply) }
                    } else {
                        BuildPhase::CreatingInstance {
                            api_version: version_to_use(reply),
                            available: None,
                        }
                    },
                ),
            ),
            (
                BuildPhase::ListingInstanceExtensions { api_version },
                SetupReply::Names(names),
            ) => Outcome::Pending(
                self.at(BuildPhase::CreatingInstance { api_version, available: Some(names) }),
            ),
            (
                BuildPhase::ListingInstanceExtensions { api_version },
                SetupReply::Failed(_),
            ) => Outcome::Pending(
                self.at(BuildPhase::CreatingInstance { api_version, available: None }),
            ),
            (BuildPhase::CreatingInstance { .. }, SetupReply::Handle(instance)) => {
                Outcome::Pending(self.at(BuildPhase::ListingDevices { instance }))
            },
            (BuildPhase::CreatingInstance { .. }, SetupReply::Failed(code)) => Self::failed(
                "vkCreateInstance"@,
                code,
            ),
            (
                BuildPhase::ListingDevices { instance },
                SetupReply::Devices(devices),
            ) => self.device_picked(instance, pick_of(devices@, self.prefer_graphics)),
            (BuildPhase::ListingDevices { instance }, SetupReply::Failed(code)) => {
                self.device_picked(instance, Err(enumeration_failed(code)))
            },
            (
                BuildPhase::Querying { instance, physical_device, choice },
                SetupReply::Properties(properties),
            ) => {
                let adapter = Adapter { instance, physical_device, choice, properties };
                Outcome::Pending(
                    if self.prefer_graphics {
                        self.at(BuildPhase::ListingDeviceExtensions { adapter })
                    } else {
                        self.extensions_settled(adapter, false)
                    },
                )
            },
            (
                BuildPhase::ListingDeviceExtensions { adapter },
                SetupReply::Names(names),
            ) => Outcome::Pending(
                self.extensions_settled(adapter, reports(names@, swapchain_extension())),
            ),
            (BuildPhase::ListingDeviceExtensions { adapter }, SetupReply::Failed(_)) => {
                Outcome::Pending(self.extensions_settled(adapter, false))
            },
            (BuildPhase::CreatingDevice { adapter, creation }, _) => match creation.step(reply) {
                Outcome::Pending(next) => Outcome::Pending(
                    self.at(BuildPhase::CreatingDevice { adapter, creation: next }),
                ),
                Outcome::Finished(Err(error)) => Outcome::Finished(Err(error)),
                Outcome::Finished(Ok(logical)) => Outcome::Pending(
                    self.at(BuildPhase::CreatingPool { adapter, logical }),
                ),
            },
            (
                BuildPhase::CreatingPool { adapter, logical },
                SetupReply::Handle(command_pool),
            ) => Outcome::Finished(
                Ok(built_device(self.strategy, adapter, logical, command_pool)),
            ),
            (BuildPhase::CreatingPool { .. }, SetupReply::Failed(code)) => Self::failed(
                "vkCreateCommandPool"@,
                code,
            ),
            _ => Outcome::Pending(self),
        }
    }

    /// The call to make next.
    pub fn command(&self) -> (command: SetupCommand)
        ensures
            command@ == self.wanted(),
    {
        match &self.phase {
            BuildPhase::Loading => SetupCommand::LoadLibrary,
            BuildPhase::Versioning => SetupCommand::QueryVersion,
            BuildPhase::ListingInstanceExtensions { .. } => SetupCommand::ListInstanceExtensions,
            BuildPhase::CreatingInstance { api_version, available } => {
                SetupCommand::CreateInstance {
                    name: "zunesha",
                    api_version: *api_version,
                    extensions: select_surface_extensions(available),
                }
            },
            BuildPhase::ListingDevices { instance } => SetupCommand::ListPhysicalDevices {
                instance: *instance,
            },
            BuildPhase::Querying { instance, physical_device, .. } => {
                SetupCommand::QueryPhysicalDevice {
                    instance: *instance,
                    physical_device: *physical_device,
                }
            },
            BuildPhase::ListingDeviceExtensions { adapter } => SetupCommand::ListDeviceExtensions {
                instance: adapter.instance,
                physical_device: adapter.physical_device,
            },
            BuildPhase::CreatingDevice { creation, .. } => creation.command(),
            BuildPhase::CreatingPool { adapter, logical } => SetupCommand::CreateCommandPool {
                device: logical.device,
                family: adapter.choice.compute,
                flags: POOL_TRANSIENT,
            },
        }
    }

    /// The building once the API version is known.
    fn version_settled(strategy: MemoryStrategy, prefer_graphics: bool, api_version: u32) -> (build:
        Build)
        ensures
            build == (Build {
                strategy,
                prefer_graphics,
                phase: if prefer_graphics {
                    BuildPhase::ListingInstanceExtensions { api_version }
                } else {
                    BuildPhase::CreatingInstance { api_version, available: None }
                },
            }),
    {
        let phase = if prefer_graphics {
            BuildPhase::ListingInstanceExtensions { api_version }
        } else {
            BuildPhase::CreatingInstance { api_version, available: None }
        };
        Build { strategy, prefer_graphics, phase }
    }

    /// Goes on with what the driver listed.
    fn choose_device(
        strategy: MemoryStrategy,
        prefer_graphics: bool,
        instance: u64,
        enumerated: Result<&Vec<PhysicalDeviceInfo>, i32>,
    ) -> (progress: Progress<Build, VulkanDevice>)
        ensures
            progress@ == new_build(strategy, prefer_graphics).device_picked(
                instance,
                match enumerated {
                    Ok(devices) => pick_of(devices@, prefer_graphics),
                    Err(code) => Err(enumeration_failed(code)),
                },
            ),
    {
        match pick_physical_device(enumerated, prefer_graphics) {
            Ok((physical_device, choice)) => {
                let phase = BuildPhase::Querying { instance, physical_device, choice };
                Progress::Pending(Build { strategy, prefer_graphics, phase })
            },
            Err(error) => Progress::Finished(Err(error)),
        }
    }

    /// The building once it is known whether a swapchain is supported.
    fn settle_extensions(
        strategy: MemoryStrategy,
        prefer_graphics: bool,
        adapter: Adapter,
        swapchain: bool,
    ) -> (build: Build)
        ensures
            build == new_build(strategy, prefer_graphics).extensions_settled(adapter, swapchain),
    {
        let creation = create_logical_device(
            adapter.instance,
            adapter.physical_device,
            adapter.choice,
            swapchain,
        );
        Build {
            strategy,
            prefer_graphics,
            phase: BuildPhase::CreatingDevice { adapter, creation },
        }
    }

    /// The device that was built.
    fn finish(
        strategy: MemoryStrategy,
        adapter: Adapter,
        logical: LogicalDevice,
        command_pool: u64,
    ) -> (device: VulkanDevice)
        requires
            adapter.properties.memory.wf(),
        ensures
            device == built_device(strategy, adapter, logical, command_pool),
    {
        let kind = device_kind(adapter.properties.device_type);
        VulkanDevice {
            instance: adapter.instance,
            device: logical.device,
            physical_device: adapter.physical_device,
            queues: logical.queues,
            compute_queue: logical.compute_queue,
            command_pool,
            memory_properties: adapter.properties.memory,
            memory_strategy: strategy,
            uses_device_local: uses_device_local(strategy, kind, &adapter.properties.memory),
            limits: DeviceLimits {
                min_storage_buffer_offset_alignment:
                    adapter.properties.min_storage_buffer_offset_alignment,
            },
            epoch: GpuEpochTracker::new(),
            left_copies: 0,
        }
    }

    /// Goes on with the outcome of the call.
    pub fn resume(self, reply: SetupReply) -> (progress: Progress<Build, VulkanDevice>)
        requires
            self.wf(),
            reply.wf(),
        ensures
            progress@ == self.step(reply),
            match progress {
                Progress::Pending(next) => next.wf(),
                Progress::Finished(Ok(device)) => device.wf(),
                Progress::Finished(Err(_)) => true,
            },
    {
        let Build { strategy, prefer_graphics, phase } = self;
        match (phase, reply) {
            (BuildPhase::Loading, SetupReply::Loaded) => Progress::Pending(
                Build { strategy, prefer_graphics, phase: BuildPhase::Versioning },
            ),
            (BuildPhase::Loading, SetupReply::LoadFailed(reason)) => Progress::Finished(
                Err(DeviceError::InitFailed(reason)),
            ),
            (BuildPhase::Versioning, SetupReply::Version(offered)) => {
                let api_version: u32 = match offered {
                    Some(version) => version,
                    None => API_VERSION_1_1,
                };
                Progress::Pending(Build::version_settled(strategy, prefer_graphics, api_version))
            },
            (BuildPhase::Versioning, SetupReply::Failed(_)) => Progress::Pending(
                Build::version_settled(strategy, prefer_graphics, API_VERSION_1_1),
            ),
            (BuildPhase::ListingInstanceExtensions { api_version }, SetupReply::Names(names)) => {
                let phase = BuildPhase::CreatingInstance { api_version, available: Some(names) };
                Progress::Pending(Build { strategy, prefer_graphics, phase })
            },
            (BuildPhase::ListingInstanceExtensions { api_version }, SetupReply::Failed(_)) => {
                let phase = BuildPhase::CreatingInstance { api_version, available: None };
                Progress::Pending(Build { strategy, prefer_graphics, phase })
            },
            (BuildPhase::CreatingInstance { .. }, SetupReply::Handle(instance)) => {
                let phase = BuildPhase::ListingDevices { instance };
                Progress::Pending(Build { strategy, prefer_graphics, phase })
            },
            (BuildPhase::CreatingInstance { .. }, SetupReply::Failed(code)) => Progress::Finished(
                Err(DeviceError::InitFailed(vk_failure_message("vkCreateInstance", code))),
            ),
            (BuildPhase::ListingDevices { instance }, SetupReply::Devices(devices)) => {
                Build::choose_device(strategy, prefer_graphics, instance, Ok(&devices))
            },
            (BuildPhase::ListingDevices { instance }, SetupReply::Failed(code)) => {
                Build::choose_device(strategy, prefer_graphics, instance, Err(code))
            },
            (
                BuildPhase::Querying { instance, physical_device, choice },
                SetupReply::Properties(properties),
            ) => {
                let adapter = Adapter { instance, physical_device, choice, properties };
                if prefer_graphics {
                    let phase = BuildPhase::ListingDeviceExtensions { adapter };
                    Progress::Pending(Build { strategy, prefer_graphics, phase })
                } else {
                    Progress::Pending(
                        Build::settle_extensions(strategy, prefer_graphics, adapter, false),
                    )
                }
            },
            (BuildPhase::ListingDeviceExtensions { adapter }, SetupReply::Names(names)) => {
                let swapchain = is_reported(&names, "VK_KHR_swapchain");
                Progress::Pending(
                    Build::settle_extensions(strategy, prefer_graphics, adapter, swapchain),
                )
            },
            (BuildPhase::ListingDeviceExtensions { adapter }, SetupReply::Failed(_)) => {
                Progress::Pending(
                    Build::settle_extensions(strategy, prefer_graphics, adapter, false),
                )
            },
            (BuildPhase::CreatingDevice { adapter, creation }, reply) => {
                match creation.resume(reply) {
                    Progress::Pending(creation) => {
                        let phase = BuildPhase::CreatingDevice { adapter, creation };
                        Progress::Pending(Build { strategy, prefer_graphics, phase })
                    },
                    Progress::Finished(Err(error)) => Progress::Finished(Err(error)),
                    Progress::Finished(Ok(logical)) => {
                        let phase = BuildPhase::CreatingPool { adapter, logical };
                        Progress::Pending(Build { strategy, prefer_graphics, phase })
                    },
                }
            },
            (BuildPhase::CreatingPool { adapter, logical }, SetupReply::Handle(command_pool)) => {
                Progress::Finished(Ok(Build::finish(strategy, adapter, logical, command_pool)))
            },
            (BuildPhase::CreatingPool { .. }, SetupReply::Failed(code)) => Progress::Finished(
                Err(DeviceError::InitFailed(vk_failure_message("vkCreateCommandPool", code))),
            ),
            (phase, _) => Progress::Pending(Build { strategy, prefer_graphics, phase }),
        }
    }
}

} // verus!
