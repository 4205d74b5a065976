//! Shared GPU device substrate: device selection, queues, memory placement and
//! buffers for compute and graphics consumers, with the decisions verified.
//!
//! The library performs no I/O. Operations on a device are values that say
//! which driver call to make next and take its outcome; see [`vulkan`].

pub mod defaults;
pub mod device;
pub mod epoch;
pub mod error;
pub mod queues;
pub mod request;
pub mod vulkan;

pub use device::{BufferPinHandle, Device, DeviceLimits, NoDeviceStub, QuiescenceProof};
pub use epoch::GpuEpochTracker;
pub use error::{DeviceError, Result};
pub use queues::{Queue, Queues};
pub use request::{InitRequest, MemoryStrategy};
pub use vulkan::buffer::Buffer;
pub use vulkan::device::VulkanDevice;

use error::ErrorView;
use vstd::prelude::*;

verus! {

/// Initialises the best available device where no backend is linked in: there
/// is none.
pub fn init() -> (device: Result<NoDeviceStub>)
    ensures
        device matches Err(e) && e@ == ErrorView::NoDevice,
{
    NoDeviceStub::init()
}

/// Initialises with an explicit memory strategy where no backend is linked in:
/// there is no device.
pub fn init_with_strategy(strategy: MemoryStrategy) -> (device: Result<NoDeviceStub>)
    ensures
        device matches Err(e) && e@ == ErrorView::NoDevice,
{
    NoDeviceStub::init_with_strategy(strategy)
}

/// Initialises with explicit capability preferences where no backend is linked
/// in: there is no device.
pub fn init_with(request: InitRequest) -> (device: Result<NoDeviceStub>)
    ensures
        device matches Err(e) && e@ == ErrorView::NoDevice,
{
    NoDeviceStub::init_with(request)
}

} // verus!
