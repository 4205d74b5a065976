//! What the interface's defaults promise, on every device that leaves them as
//! they are.

use crate::device::{BufferPinHandle, Device, DeviceLimits, NoDeviceStub, QuiescenceProof};
use crate::error::DeviceError;
use crate::queues::Queues;
use crate::request::{InitRequest, MemoryStrategy};
use vstd::prelude::*;

verus! {

/// A device that provides what every device must provide as another does, and
/// its count of work in flight, and leaves everything else to the interface's
/// defaults.
pub struct Plain<D> {
    /// The device that provides.
    pub device: D,
}

impl<D: Device> Device for Plain<D> {
    type Buffer = D::Buffer;

    fn init() -> (device: Result<Plain<D>, DeviceError>)
        ensures
            match device {
                Ok(plain) => call_ensures(D::init, (), Ok(plain.device)),
                Err(error) => call_ensures(D::init, (), Err(error)),
            },
    {
        match D::init() {
            Ok(device) => Ok(Plain { device }),
            Err(error) => Err(error),
        }
    }

    fn queues(&self) -> (queues: Queues)
        ensures
            call_ensures(D::queues, (&self.device,), queues),
    {
        self.device.queues()
    }

    fn limits(&self) -> (limits: DeviceLimits)
        ensures
            call_ensures(D::limits, (&self.device,), limits),
    {
        self.device.limits()
    }

    fn memory_strategy(&self) -> (strategy: MemoryStrategy)
        ensures
            call_ensures(D::memory_strategy, (&self.device,), strategy),
    {
        self.device.memory_strategy()
    }

    fn create_buffer(&self, data: &[u8]) -> (buffer: Result<D::Buffer, DeviceError>)
        ensures
            call_ensures(D::create_buffer, (&self.device, data), buffer),
    {
        self.device.create_buffer(data)
    }

    fn create_buffer_uninit(&self, len: usize, element_size: usize) -> (buffer: Result<
        D::Buffer,
        DeviceError,
    >)
        ensures
            call_ensures(D::create_buffer_uninit, (&self.device, len, element_size), buffer),
    {
        self.device.create_buffer_uninit(len, element_size)
    }

    fn read_buffer(&self, buffer: &D::Buffer, element_size: usize) -> (bytes: Result<
        Vec<u8>,
        DeviceError,
    >)
        ensures
            call_ensures(D::read_buffer, (&self.device, buffer, element_size), bytes),
    {
        self.device.read_buffer(buffer, element_size)
    }

    fn in_flight(&self) -> (count: u64)
        ensures
            call_ensures(D::in_flight, (&self.device,), count),
    {
        self.device.in_flight()
    }
}

/// Pinned creation is creation with a guard: the same slice goes to
/// `create_buffer`, its buffer comes with the guard, and its error as it is.
pub proof fn law_pinning_is_creating<'a, D: Device>(
    device: &Plain<D>,
    data: &'a [u8],
    pinned: Result<(D::Buffer, BufferPinHandle<'a>), DeviceError>,
)
    requires
        call_ensures(Plain::<D>::create_buffer_pinned, (device, data), pinned),
    ensures
        match pinned {
            Ok((buffer, handle)) => call_ensures(
                D::create_buffer,
                (&device.device, data),
                Ok(buffer),
            ) && handle == BufferPinHandle::<'a>::guard(),
            Err(error) => call_ensures(D::create_buffer, (&device.device, data), Err(error)),
        },
{
}

/// A device is quiescent exactly when its count of work in flight is zero,
/// where nothing begins or ends meanwhile.
pub proof fn law_quiescent_iff_nothing_in_flight<D: Device>(
    device: &Plain<D>,
    count: u64,
    quiescent: bool,
)
    requires
        forall|n: u64| call_ensures(D::in_flight, (&device.device,), n) ==> n == count,
        call_ensures(Plain::<D>::is_quiescent, (device,), quiescent),
    ensures
        quiescent <==> count == 0,
{
}

/// There is evidence of quiescence exactly when the count of work in flight is
/// zero, where nothing begins or ends meanwhile.
pub proof fn law_evidence_iff_nothing_in_flight<D: Device>(
    device: &Plain<D>,
    count: u64,
    evidence: Option<QuiescenceProof>,
)
    requires
        forall|n: u64| call_ensures(D::in_flight, (&device.device,), n) ==> n == count,
        call_ensures(Plain::<D>::prove_quiescent, (device,), evidence),
    ensures
        evidence is Some <==> count == 0,
{
}

/// The stub has nothing in flight, so it is quiescent and always gives evidence
/// of it.
pub proof fn law_stub_is_quiescent(
    stub: &NoDeviceStub,
    count: u64,
    quiescent: bool,
    evidence: Option<QuiescenceProof>,
)
    requires
        call_ensures(NoDeviceStub::in_flight, (stub,), count),
        call_ensures(NoDeviceStub::is_quiescent, (stub,), quiescent),
        call_ensures(NoDeviceStub::prove_quiescent, (stub,), evidence),
    ensures
        count == 0,
        quiescent,
        evidence is Some,
{
}

/// A device-local buffer is a buffer, with data and without.
pub proof fn law_device_buffers_are_buffers<D: Device>(
    device: &Plain<D>,
    data: &[u8],
    with_data: Result<D::Buffer, DeviceError>,
    len: usize,
    element_size: usize,
    without_data: Result<D::Buffer, DeviceError>,
)
    requires
        call_ensures(Plain::<D>::create_device_buffer, (device, data), with_data),
        call_ensures(
            Plain::<D>::create_device_buffer_uninit,
            (device, len, element_size),
            without_data,
        ),
    ensures
        call_ensures(D::create_buffer, (&device.device, data), with_data),
        call_ensures(D::create_buffer_uninit, (&device.device, len, element_size), without_data),
{
}

/// However a device is asked for, it is initialised.
pub proof fn law_every_request_initialises<D: Device>(
    strategy: MemoryStrategy,
    placed: Result<Plain<D>, DeviceError>,
    request: InitRequest,
    requested: Result<Plain<D>, DeviceError>,
)
    requires
        call_ensures(Plain::<D>::init_with_strategy, (strategy,), placed),
        call_ensures(Plain::<D>::init_with, (request,), requested),
    ensures
        initialises(placed),
        initialises(requested),
{
}

/// The device, or the error, is one that initialising gives.
pub open spec fn initialises<D: Device>(device: Result<Plain<D>, DeviceError>) -> bool {
    match device {
        Ok(plain) => call_ensures(D::init, (), Ok(plain.device)),
        Err(error) => call_ensures(D::init, (), Err(error)),
    }
}

/// The stub refuses everything for want of a device.
pub proof fn law_stub_refuses_everything(
    stub: &NoDeviceStub,
    request: InitRequest,
    requested: Result<NoDeviceStub, DeviceError>,
    data: &[u8],
    created: Result<(), DeviceError>,
    len: usize,
    element_size: usize,
    reserved: Result<(), DeviceError>,
    read: Result<Vec<u8>, DeviceError>,
)
    requires
        call_ensures(NoDeviceStub::init_with, (request,), requested),
        call_ensures(NoDeviceStub::create_buffer, (stub, data), created),
        call_ensures(NoDeviceStub::create_buffer_uninit, (stub, len, element_size), reserved),
        call_ensures(NoDeviceStub::read_buffer, (stub, &(), element_size), read),
    ensures
        requested matches Err(error) && error is NoDevice,
        created matches Err(error) && error is NoDevice,
        reserved matches Err(error) && error is NoDevice,
        read matches Err(error) && error is NoDevice,
{
}

} // verus!
