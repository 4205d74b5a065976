//! The backend-agnostic interface, and what stands in for a device.

use std::cell::Cell;
use zunesha::defaults::Plain;
use zunesha::error::failure_message;
use zunesha::{
    init, init_with, init_with_strategy, BufferPinHandle, Device, DeviceError, DeviceLimits,
    InitRequest, MemoryStrategy, NoDeviceStub, Queue, Queues,
};

#[test]
fn memory_strategy_default_is_auto() {
    assert_eq!(MemoryStrategy::default(), MemoryStrategy::Auto);
}

#[test]
fn init_request_conveniences() {
    assert!(!InitRequest::compute_only().prefer_graphics);
    assert!(InitRequest::prefer_graphics().prefer_graphics);
    assert_eq!(InitRequest::default().memory, MemoryStrategy::Auto);
}

#[test]
fn init_request_conveniences_leave_memory_to_the_backend() {
    assert_eq!(InitRequest::compute_only(), InitRequest::default());
    assert_eq!(
        InitRequest::prefer_graphics(),
        InitRequest { memory: MemoryStrategy::Auto, prefer_graphics: true }
    );
}

#[test]
fn queues_stub_has_compute_but_no_graphics() {
    // Compute is always present, but the stub's is the null sentinel.
    let q = Queues::stub();
    assert_eq!(q.compute.family_index, u32::MAX);
    assert!(q.graphics.is_none());
    assert!(!q.has_graphics());
}

#[test]
fn null_queue_has_no_handle() {
    assert_eq!(Queue::null(), Queue { raw: 0, family_index: u32::MAX });
    assert_eq!(Queues::stub().compute, Queue::null());
    assert!(Queues::stub().transfer.is_none());
}

#[test]
fn queues_with_graphics_say_so() {
    let queue = Queue { raw: 7, family_index: 0 };
    let queues = Queues { compute: queue, graphics: Some(queue), transfer: None };
    assert!(queues.has_graphics());
}

#[test]
fn stub_reports_no_device_for_allocation() {
    let stub = NoDeviceStub;
    assert!(matches!(
        stub.create_buffer(bytemuck::cast_slice(&[1.0f32, 2.0, 3.0])),
        Err(DeviceError::NoDevice)
    ));
    assert!(matches!(
        stub.create_buffer_uninit(16, std::mem::size_of::<u8>()),
        Err(DeviceError::NoDevice)
    ));
}

#[test]
fn stub_reports_no_device_for_every_other_buffer_call() {
    let stub = NoDeviceStub;
    assert!(matches!(stub.create_device_buffer(&[1, 2]), Err(DeviceError::NoDevice)));
    assert!(matches!(stub.create_device_buffer_uninit(4, 4), Err(DeviceError::NoDevice)));
    assert!(matches!(stub.create_buffer_pinned(&[1, 2]), Err(DeviceError::NoDevice)));
    assert!(matches!(stub.read_buffer(&(), 1), Err(DeviceError::NoDevice)));
}

#[test]
fn stub_is_always_quiescent() {
    let stub = NoDeviceStub;
    assert_eq!(stub.in_flight(), 0);
    assert!(stub.is_quiescent());
    assert!(stub.prove_quiescent().is_some());
}

#[test]
fn stub_exposes_no_graphics_capability() {
    let stub = NoDeviceStub;
    assert!(!stub.queues().has_graphics());
}

#[test]
fn stub_reports_defaults() {
    let stub = NoDeviceStub;
    assert_eq!(stub.limits(), DeviceLimits::default());
    assert_eq!(stub.memory_strategy(), MemoryStrategy::Auto);
}

#[test]
fn top_level_init_resolves_to_a_backend() {
    // Without a backend linked in, initialisation always refuses.
    assert!(matches!(init(), Err(DeviceError::NoDevice)));
    assert!(matches!(
        init_with_strategy(MemoryStrategy::Unified),
        Err(DeviceError::NoDevice)
    ));
    assert!(matches!(
        init_with(InitRequest::prefer_graphics()),
        Err(DeviceError::NoDevice)
    ));
}

#[test]
fn buffer_pin_handle_default_is_valid() {
    let _handle: BufferPinHandle<'static> = BufferPinHandle::default();
}

#[test]
fn device_limits_default_is_zero() {
    let limits = DeviceLimits::default();
    assert_eq!(limits.min_storage_buffer_offset_alignment, 0);
}

/// A device that keeps its buffers in host memory, for the interface's
/// defaults.
struct HostDevice {
    strategy: MemoryStrategy,
    in_flight: Cell<u64>,
}

impl Device for HostDevice {
    type Buffer = Vec<u8>;

    fn init() -> Result<Self, DeviceError> {
        Ok(HostDevice { strategy: MemoryStrategy::Auto, in_flight: Cell::new(0) })
    }

    fn init_with_strategy(strategy: MemoryStrategy) -> Result<Self, DeviceError> {
        Ok(HostDevice { strategy, in_flight: Cell::new(0) })
    }

    fn queues(&self) -> Queues {
        Queues::stub()
    }

    fn limits(&self) -> DeviceLimits {
        DeviceLimits::default()
    }

    fn memory_strategy(&self) -> MemoryStrategy {
        self.strategy
    }

    fn create_buffer(&self, data: &[u8]) -> Result<Vec<u8>, DeviceError> {
        if data.len() > 4 {
            return Err(DeviceError::BufferCreationFailed { message: "too large".to_string() });
        }
        Ok(data.to_vec())
    }

    fn create_buffer_uninit(&self, len: usize, element_size: usize) -> Result<Vec<u8>, DeviceError> {
        Ok(vec![0; len * element_size])
    }

    fn read_buffer(&self, buffer: &Vec<u8>, element_size: usize) -> Result<Vec<u8>, DeviceError> {
        let whole = buffer.len() / element_size * element_size;
        Ok(buffer[..whole].to_vec())
    }

    fn in_flight(&self) -> u64 {
        self.in_flight.get()
    }
}

#[test]
fn default_init_with_uses_the_automatic_strategy() {
    let request = InitRequest { memory: MemoryStrategy::Unified, prefer_graphics: true };
    let device = HostDevice::init_with(request);
    assert!(matches!(device, Ok(d) if d.memory_strategy() == MemoryStrategy::Auto));
}

#[test]
fn default_device_buffers_are_buffers() {
    let device = HostDevice { strategy: MemoryStrategy::Auto, in_flight: Cell::new(0) };
    assert!(matches!(device.create_device_buffer(&[1, 2, 3]), Ok(b) if b == vec![1u8, 2, 3]));
    assert!(matches!(device.create_device_buffer_uninit(3, 4), Ok(b) if b.len() == 12));
    assert!(matches!(device.create_buffer_pinned(&[5, 6]), Ok((b, _)) if b == vec![5u8, 6]));
    assert!(matches!(
        device.create_buffer_pinned(&[0; 5]),
        Err(DeviceError::BufferCreationFailed { .. })
    ));
}

#[test]
fn default_quiescence_follows_the_count() {
    let device = HostDevice { strategy: MemoryStrategy::Auto, in_flight: Cell::new(2) };
    assert!(!device.is_quiescent());
    assert!(device.prove_quiescent().is_none());
    device.in_flight.set(0);
    assert!(device.is_quiescent());
    assert!(device.prove_quiescent().is_some());
}

#[test]
fn errors_read_as_documented() {
    let text = |s: &str| s.to_string();
    assert_eq!(
        DeviceError::NoDevice.describe(),
        "no GPU device backend available for current platform"
    );
    assert_eq!(
        DeviceError::InitFailed(text("boom")).describe(),
        "failed to initialise GPU device: boom"
    );
    assert_eq!(
        DeviceError::QueueCapabilityUnavailable { message: text("graphics") }.describe(),
        "requested queue capability unavailable: graphics"
    );
    assert_eq!(
        DeviceError::BufferCreationFailed { message: text("full") }.describe(),
        "buffer creation failed: full"
    );
    assert_eq!(
        DeviceError::BufferReadFailed { message: text("unmapped") }.describe(),
        "buffer readback failed: unmapped"
    );
    assert_eq!(DeviceError::Internal(text("bug")).describe(), "internal device error: bug");
}

#[test]
fn io_errors_convert_and_keep_their_wording() {
    let error = std::io::Error::new(std::io::ErrorKind::Other, "disk on fire");
    let converted = DeviceError::from(error);
    assert!(matches!(converted, DeviceError::Io(_)));
    assert_eq!(converted.describe(), "platform I/O error: disk on fire");
}

#[test]
fn failed_calls_are_named() {
    assert_eq!(failure_message("vkCreateDevice", "no"), "vkCreateDevice: no");
    assert_eq!(failure_message("", ""), ": ");
}

#[test]
fn a_plain_device_provides_what_another_does() {
    let device = HostDevice { strategy: MemoryStrategy::Unified, in_flight: Cell::new(3) };
    let plain = Plain { device };
    assert_eq!(plain.memory_strategy(), MemoryStrategy::Unified);
    assert_eq!(plain.limits(), DeviceLimits::default());
    assert_eq!(plain.queues(), Queues::stub());
    assert_eq!(plain.in_flight(), 3);
    assert!(!plain.is_quiescent());
    assert!(plain.prove_quiescent().is_none());
    plain.device.in_flight.set(0);
    assert!(plain.is_quiescent() && plain.prove_quiescent().is_some());
    assert!(matches!(plain.create_buffer_pinned(&[1, 2]), Ok((b, _)) if b == vec![1u8, 2]));
    assert!(matches!(
        plain.create_buffer_pinned(&[0; 5]),
        Err(DeviceError::BufferCreationFailed { message }) if message == "too large"
    ));
    assert!(matches!(plain.create_buffer_uninit(2, 3), Ok(b) if b.len() == 6));
    assert!(matches!(plain.read_buffer(&vec![1, 2, 3], 2), Ok(b) if b == vec![1u8, 2]));
    assert!(matches!(Plain::<NoDeviceStub>::init(), Err(DeviceError::NoDevice)));
    assert!(matches!(
        Plain::<HostDevice>::init(),
        Ok(plain) if plain.memory_strategy() == MemoryStrategy::Auto
    ));
}
