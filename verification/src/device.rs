//! The backend-agnostic device interface, and the backend that is no device.

use crate::error::{DeviceError, ErrorView};
use crate::queues::{Queue, Queues};
use crate::request::{InitRequest, MemoryStrategy};
use vstd::prelude::*;

verus! {

/// Device-level limits exposed to consumers.
#[derive(Debug, Clone, Copy, PartialEq, Eq, Structural)]
pub struct DeviceLimits {
    /// Minimum alignment (bytes) for storage buffer offsets.
    pub min_storage_buffer_offset_alignment: u64,
}

impl Default for DeviceLimits {
    fn default() -> (limits: DeviceLimits)
        ensures
            limits.min_storage_buffer_offset_alignment == 0,
    {
        DeviceLimits { min_storage_buffer_offset_alignment: 0 }
    }
}

/// Guard for host memory that backs a zero-copy GPU buffer. It borrows the
/// data for `'a`, so the host data outlives the guard.
#[derive(Debug)]
pub struct BufferPinHandle<'a> {
    _lifetime: std::marker::PhantomData<&'a mut [u8]>,
}

impl<'a> BufferPinHandle<'a> {
    /// A guard for the given lifetime.
    #[must_use]
    pub fn new() -> (handle: BufferPinHandle<'a>)
        ensures
            handle == BufferPinHandle::<'a>::guard(),
    {
        BufferPinHandle { _lifetime: std::marker::PhantomData }
    }

    /// The guard for the given lifetime. It holds nothing but the borrow.
    pub closed spec fn guard() -> BufferPinHandle<'a> {
        BufferPinHandle { _lifetime: std::marker::PhantomData }
    }
}

impl<'a> Default for BufferPinHandle<'a> {
    fn default() -> (handle: BufferPinHandle<'a>)
        ensures
            handle == BufferPinHandle::<'a>::guard(),
    {
        BufferPinHandle::new()
    }
}

/// Evidence that no GPU operation was outstanding when it was made. Only a
/// quiescent device hands one out.
#[derive(Clone, Copy, Debug)]
pub struct QuiescenceProof {
    _private: (),
}

impl QuiescenceProof {
    /// Evidence for a device with `in_flight` dispatches outstanding: there is
    /// some exactly when there are none of those.
    pub(crate) fn at(in_flight: u64) -> (evidence: Option<QuiescenceProof>)
        ensures
            evidence is Some <==> in_flight == 0,
    {
        if in_flight == 0 {
            Some(QuiescenceProof { _private: () })
        } else {
            None
        }
    }
}

/// Backend-agnostic GPU device interface.
///
/// Every device exposes a compute queue; graphics and transfer queues are
/// optional. Buffer data is bytes; a caller with typed elements says how large
/// an element is.
pub trait Device: Sized {
    /// The backend's handle to a buffer of device memory. It releases the
    /// memory when it is dropped.
    type Buffer;

    /// Initialises the best available compute device. Never requires a
    /// graphics queue.
    fn init() -> Result<Self, DeviceError>;

    /// Initialises with an explicit memory strategy.
    fn init_with_strategy(strategy: MemoryStrategy) -> (device: Result<Self, DeviceError>)
        default_ensures
            call_ensures(Self::init, (), device),
    {
        let _ = strategy;
        Self::init()
    }

    /// Initialises with explicit capability preferences.
    fn init_with(request: InitRequest) -> (device: Result<Self, DeviceError>)
        default_ensures
            call_ensures(Self::init_with_strategy, (MemoryStrategy::Auto,), device),
    {
        let _ = request;
        Self::init_with_strategy(MemoryStrategy::Auto)
    }

    /// The queues this device exposes.
    fn queues(&self) -> Queues;

    /// Device-level limits.
    fn limits(&self) -> DeviceLimits;

    /// The memory strategy this device was initialised with.
    fn memory_strategy(&self) -> MemoryStrategy;

    /// Allocates a buffer and uploads `data`.
    fn create_buffer(&self, data: &[u8]) -> Result<Self::Buffer, DeviceError>;

    /// Allocates an uninitialised buffer of `len` elements of `element_size`
    /// bytes.
    fn create_buffer_uninit(&self, len: usize, element_size: usize) -> Result<
        Self::Buffer,
        DeviceError,
    >;

    /// Allocates a device-local buffer and uploads `data`. On unified memory
    /// the same as [`create_buffer`](Self::create_buffer).
    fn create_device_buffer(&self, data: &[u8]) -> (buffer: Result<Self::Buffer, DeviceError>)
        default_ensures
            call_ensures(Self::create_buffer, (self, data), buffer),
    {
        self.create_buffer(data)
    }

    /// Allocates an uninitialised device-local buffer.
    fn create_device_buffer_uninit(&self, len: usize, element_size: usize) -> (buffer: Result<
        Self::Buffer,
        DeviceError,
    >)
        default_ensures
            call_ensures(Self::create_buffer_uninit, (self, len, element_size), buffer),
    {
        self.create_buffer_uninit(len, element_size)
    }

    /// Creates a GPU buffer from the host slice and a guard that borrows it.
    fn create_buffer_pinned<'a>(&self, data: &'a [u8]) -> (pinned: Result<
        (Self::Buffer, BufferPinHandle<'a>),
        DeviceError,
    >)
        default_ensures
            match pinned {
                Ok((buffer, handle)) => call_ensures(Self::create_buffer, (self, data), Ok(buffer))
                    && handle == BufferPinHandle::<'a>::guard(),
                Err(error) => call_ensures(Self::create_buffer, (self, data), Err(error)),
            },
    {
        match self.create_buffer(data) {
            Ok(buffer) => Ok((buffer, BufferPinHandle::new())),
            Err(error) => Err(error),
        }
    }

    /// Reads a buffer back as bytes of as many whole elements of
    /// `element_size` bytes as it holds.
    fn read_buffer(&self, buffer: &Self::Buffer, element_size: usize) -> Result<
        Vec<u8>,
        DeviceError,
    >;

    /// The number of dispatches that have begun and not yet completed; zero
    /// where the backend tracks none.
    fn in_flight(&self) -> (count: u64)
        default_ensures
            count == 0,
    {
        0
    }

    /// True when no GPU operation, compute or graphics, is outstanding.
    fn is_quiescent(&self) -> (quiescent: bool)
        default_ensures
            exists|count: u64|
                #[trigger] call_ensures(Self::in_flight, (self,), count) && quiescent == (count
                    == 0),
    {
        self.in_flight() == 0
    }

    /// Evidence of quiescence, if the device is idle now.
    fn prove_quiescent(&self) -> (evidence: Option<QuiescenceProof>)
        default_ensures
            exists|quiescent: bool|
                #[trigger] call_ensures(Self::is_quiescent, (self,), quiescent) && evidence is Some
                    == quiescent,
    {
        if self.is_quiescent() {
            QuiescenceProof::at(0)
        } else {
            None
        }
    }
}

/// Stub device: what stands in where no device backend is available. It cannot
/// be initialised, and its allocation methods report
/// [`DeviceError::NoDevice`].
pub struct NoDeviceStub;

impl Device for NoDeviceStub {
    type Buffer = ();

    fn init() -> (device: Result<NoDeviceStub, DeviceError>)
        ensures
            device matches Err(e) && e@ == ErrorView::NoDevice,
    {
        Err(DeviceError::NoDevice)
    }

    fn queues(&self) -> (queues: Queues)
        ensures
            queues == (Queues {
                compute: Queue { raw: 0, family_index: u32::MAX },
                graphics: None,
                transfer: None,
            }),
    {
        Queues::stub()
    }

    fn limits(&self) -> (limits: DeviceLimits)
        ensures
            limits.min_storage_buffer_offset_alignment == 0,
    {
        DeviceLimits::default()
    }

    fn memory_strategy(&self) -> (strategy: MemoryStrategy)
        ensures
            strategy == MemoryStrategy::Auto,
    {
        MemoryStrategy::Auto
    }

    fn create_buffer(&self, data: &[u8]) -> (buffer: Result<(), DeviceError>)
        ensures
            buffer matches Err(e) && e@ == ErrorView::NoDevice,
    {
        Err(DeviceError::NoDevice)
    }

    fn create_buffer_uninit(&self, len: usize, element_size: usize) -> (buffer: Result<
        (),
        DeviceError,
    >)
        ensures
            buffer matches Err(e) && e@ == ErrorView::NoDevice,
    {
        Err(DeviceError::NoDevice)
    }

    fn read_buffer(&self, buffer: &(), element_size: usize) -> (bytes: Result<Vec<u8>, DeviceError>)
        ensures
            bytes matches Err(e) && e@ == ErrorView::NoDevice,
    {
        Err(DeviceError::NoDevice)
    }
}

} // verus!
