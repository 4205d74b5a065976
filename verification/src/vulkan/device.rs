//! The Vulkan device: what was set up, and the operations on it.

use super::abi::{
    USAGE_STORAGE_BUFFER, USAGE_TRANSFER_DST, USAGE_TRANSFER_SRC, USAGE_VERTEX_BUFFER,
};
use super::memory::MemoryProperties;
use crate::device::{DeviceLimits, QuiescenceProof};
use crate::epoch::GpuEpochTracker;
use crate::queues::Queues;
use crate::request::MemoryStrategy;
use vstd::prelude::*;

verus! {

/// A logical device with its queues, memory and transfer command pool.
///
/// Buffers must be released before the device is.
#[derive(Debug)]
pub struct VulkanDevice {
    /// `VkInstance` handle.
    pub instance: u64,
    /// `VkDevice` handle.
    pub device: u64,
    /// `VkPhysicalDevice` handle.
    pub physical_device: u64,
    /// The queues that consumers use.
    pub queues: Queues,
    /// Compute queue handle, used for staging transfers.
    pub compute_queue: u64,
    /// Transient command pool on the compute family, for one-time transfers.
    pub command_pool: u64,
    /// The memory that the physical device has.
    pub memory_properties: MemoryProperties,
    /// The strategy that the device was initialised with.
    pub memory_strategy: MemoryStrategy,
    /// Whether buffers go to device-local memory.
    pub uses_device_local: bool,
    /// The device's limits.
    pub limits: DeviceLimits,
    /// The work in flight.
    pub epoch: GpuEpochTracker,
    /// How many copies on the compute queue are counted in flight though
    /// nobody waits for them any more, because waiting for them failed. The
    /// next wait that succeeds shows that they are done.
    pub left_copies: u64,
}

/// What must be done to a device that is given up, in order.
#[derive(Debug, Clone, Copy, PartialEq, Eq, Structural)]
pub enum DeviceRelease {
    /// `vkDeviceWaitIdle`; a failure is ignored.
    WaitIdle {
        /// The device.
        device: u64,
    },
    /// `vkDestroyCommandPool`.
    DestroyCommandPool {
        /// The pool.
        pool: u64,
    },
    /// `vkDestroyDevice`.
    DestroyDevice {
        /// The device.
        device: u64,
    },
    /// `vkDestroyInstance`.
    DestroyInstance {
        /// The instance.
        instance: u64,
    },
}

/// The usage of a buffer that serves compute (storage) and graphics (vertex)
/// consumers, and transfers in both directions.
pub open spec fn shared_usage() -> u32 {
    USAGE_STORAGE_BUFFER | USAGE_VERTEX_BUFFER | USAGE_TRANSFER_SRC | USAGE_TRANSFER_DST
}

/// The usage of a staging buffer: transfers in both directions.
pub open spec fn staging_usage() -> u32 {
    USAGE_TRANSFER_SRC | USAGE_TRANSFER_DST
}

impl VulkanDevice {
    /// The memory tables are in order.
    pub open spec fn wf(self) -> bool {
        self.memory_properties.wf()
    }

    /// Buffer usage flags broad enough for compute and graphics consumers.
    pub fn buffer_usage() -> (usage: u32)
        ensures
            usage == shared_usage(),
    {
        USAGE_STORAGE_BUFFER | USAGE_VERTEX_BUFFER | USAGE_TRANSFER_SRC | USAGE_TRANSFER_DST
    }

    /// Raw Vulkan instance handle, for consumers that create a surface.
    #[must_use]
    pub fn raw_instance(&self) -> (instance: u64)
        ensures
            instance == self.instance,
    {
        self.instance
    }

    /// Raw Vulkan logical-device handle.
    #[must_use]
    pub fn raw_device(&self) -> (device: u64)
        ensures
            device == self.device,
    {
        self.device
    }

    /// Raw physical-device handle, for surface-format and capability queries.
    #[must_use]
    pub fn physical_device(&self) -> (physical_device: u64)
        ensures
            physical_device == self.physical_device,
    {
        self.physical_device
    }

    /// Physical-device memory properties, for allocations by consumers.
    pub fn memory_properties(&self) -> (memory: MemoryProperties)
        ensures
            memory == self.memory_properties,
    {
        self.memory_properties
    }

    /// The queues this device exposes.
    pub fn queues(&self) -> (queues: Queues)
        ensures
            queues == self.queues,
    {
        self.queues
    }

    /// Device-level limits.
    pub fn limits(&self) -> (limits: DeviceLimits)
        ensures
            limits == self.limits,
    {
        self.limits
    }

    /// The memory strategy this device was initialised with.
    pub fn memory_strategy(&self) -> (strategy: MemoryStrategy)
        ensures
            strategy == self.memory_strategy,
    {
        self.memory_strategy
    }

    /// The number of dispatches that have begun and not yet completed.
    pub fn in_flight(&self) -> (count: u64)
        ensures
            count == self.epoch@,
    {
        self.epoch.in_flight()
    }

    /// True when no GPU operation, compute or graphics, is outstanding.
    pub fn is_quiescent(&self) -> (quiescent: bool)
        ensures
            quiescent == (self.epoch@ == 0),
    {
        self.epoch.is_quiescent()
    }

    /// Evidence of quiescence, if the device is idle now.
    pub fn prove_quiescent(&self) -> (evidence: Option<QuiescenceProof>)
        ensures
            evidence is Some <==> self.epoch@ == 0,
    {
        QuiescenceProof::at(self.in_flight())
    }

    /// What is done when the device is given up: wait for it, then destroy the
    /// command pool, the device and the instance, in the order that Vulkan
    /// demands.
    pub open spec fn release(self) -> Seq<DeviceRelease> {
        seq![
            DeviceRelease::WaitIdle { device: self.device },
            DeviceRelease::DestroyCommandPool { pool: self.command_pool },
            DeviceRelease::DestroyDevice { device: self.device },
            DeviceRelease::DestroyInstance { instance: self.instance },
        ]
    }

    /// What to do, in order, when the device is given up.
    pub fn release_plan(&self) -> (plan: Vec<DeviceRelease>)
        ensures
            plan@ == self.release(),
    {
        let mut plan: Vec<DeviceRelease> = Vec::new();
        plan.push(DeviceRelease::WaitIdle { device: self.device });
        plan.push(DeviceRelease::DestroyCommandPool { pool: self.command_pool });
        plan.push(DeviceRelease::DestroyDevice { device: self.device });
        plan.push(DeviceRelease::DestroyInstance { instance: self.instance });
        assert(plan@ =~= self.release());
        plan
    }
}

/// A device is quiescent, and gives evidence of it, exactly when nothing is in
/// flight.
pub proof fn law_device_is_quiescent_iff_nothing_is_in_flight(
    device: &VulkanDevice,
    count: u64,
    quiescent: bool,
    evidence: Option<QuiescenceProof>,
)
    requires
        call_ensures(VulkanDevice::in_flight, (device,), count),
        call_ensures(VulkanDevice::is_quiescent, (device,), quiescent),
        call_ensures(VulkanDevice::prove_quiescent, (device,), evidence),
    ensures
        count == device.epoch@,
        quiescent <==> count == 0,
        evidence is Some <==> count == 0,
{
}

/// A device is waited for before anything of it goes; its pool goes before it,
/// it goes before its instance, and each goes once.
pub proof fn law_device_is_released_from_the_inside(device: &VulkanDevice, plan: Vec<DeviceRelease>)
    requires
        call_ensures(VulkanDevice::release_plan, (device,), plan),
    ensures
        plan@.len() == 4,
        plan@[0] == (DeviceRelease::WaitIdle { device: device.device }),
        plan@[1] == (DeviceRelease::DestroyCommandPool { pool: device.command_pool }),
        plan@[2] == (DeviceRelease::DestroyDevice { device: device.device }),
        plan@[3] == (DeviceRelease::DestroyInstance { instance: device.instance }),
{
}

/// A device tells what it was built as.
pub proof fn law_device_tells_what_it_is(
    device: &VulkanDevice,
    queues: Queues,
    limits: DeviceLimits,
    strategy: MemoryStrategy,
    instance: u64,
    logical: u64,
    physical: u64,
    memory: MemoryProperties,
)
    requires
        call_ensures(VulkanDevice::queues, (device,), queues),
        call_ensures(VulkanDevice::limits, (device,), limits),
        call_ensures(VulkanDevice::memory_strategy, (device,), strategy),
        call_ensures(VulkanDevice::raw_instance, (device,), instance),
        call_ensures(VulkanDevice::raw_device, (device,), logical),
        call_ensures(VulkanDevice::physical_device, (device,), physical),
        call_ensures(VulkanDevice::memory_properties, (device,), memory),
    ensures
        *device == (VulkanDevice {
            instance,
            device: logical,
            physical_device: physical,
            queues,
            memory_properties: memory,
            memory_strategy: strategy,
            limits,
            ..*device
        }),
{
}

} // verus!
