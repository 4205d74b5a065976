//! Creating, reading and releasing buffers.

use super::abi::{USAGE_TRANSFER_DST, USAGE_TRANSFER_SRC};
use super::allocation::{
    allocate_buffer, allocate_device_local_buffer, new_allocation, Allocated, Allocation, Placement,
};
use super::command::{Command, Outcome, Progress, Reply};
use super::device::{shared_usage, staging_usage, VulkanDevice};
use super::memory::{align_up, aligned_up, can_align, MemoryProperties};
use super::transfer::{new_transfer, one_shot_transfer, Transfer};
use crate::epoch::DispatchEvent;
use crate::error::{DeviceError, ErrorView};
use vstd::prelude::*;
use vstd::string::StringExecFns;

verus! {

/// A buffer of device memory.
#[derive(Debug)]
pub struct Buffer {
    /// `VkBuffer` handle.
    pub buffer: u64,
    /// `VkDeviceMemory` handle of the buffer's memory.
    pub memory: u64,
    /// Allocation size in bytes.
    pub size: u64,
    /// Host address of a mapping that lasts as long as the buffer: of the
    /// buffer itself in unified memory, of the staging buffer otherwise. Zero
    /// where nothing is mapped.
    pub mapped: u64,
    /// Staging buffer, for device-local memory.
    pub staging_buffer: Option<u64>,
    /// Memory of the staging buffer.
    pub staging_memory: Option<u64>,
    /// Length of the data in bytes.
    pub len: usize,
}

/// What must be done to a buffer that is given up, in order.
#[derive(Debug, Clone, Copy, PartialEq, Eq, Structural)]
pub enum BufferRelease {
    /// `vkDestroyBuffer`.
    DestroyBuffer {
        /// The buffer.
        buffer: u64,
    },
    /// `vkFreeMemory`, which also unmaps.
    FreeMemory {
        /// The memory.
        memory: u64,
    },
}

impl Buffer {
    /// What is done when the buffer is given up: the staging buffer and its
    /// memory, where there are any, then the buffer and its memory.
    pub open spec fn release(self) -> Seq<BufferRelease> {
        let staging_buffer = match self.staging_buffer {
            Some(buffer) => seq![BufferRelease::DestroyBuffer { buffer }],
            None => Seq::empty(),
        };
        let staging_memory = match self.staging_memory {
            Some(memory) => seq![BufferRelease::FreeMemory { memory }],
            None => Seq::empty(),
        };
        staging_buffer + staging_memory + seq![
            BufferRelease::DestroyBuffer { buffer: self.buffer },
            BufferRelease::FreeMemory { memory: self.memory },
        ]
    }

    /// What to do, in order, when the buffer is given up.
    pub fn release_plan(&self) -> (plan: Vec<BufferRelease>)
        ensures
            plan@ == self.release(),
    {
        let mut plan: Vec<BufferRelease> = Vec::new();
        if let Some(buffer) = self.staging_buffer {
            plan.push(BufferRelease::DestroyBuffer { buffer });
        }
        if let Some(memory) = self.staging_memory {
            plan.push(BufferRelease::FreeMemory { memory });
        }
        plan.push(BufferRelease::DestroyBuffer { buffer: self.buffer });
        plan.push(BufferRelease::FreeMemory { memory: self.memory });
        assert(plan@ =~= self.release());
        plan
    }
}

/// The size that is allocated for `byte_len` bytes of data: rounded up to the
/// alignment, and one alignment where there is no data.
pub open spec fn allocation_size(byte_len: u64, alignment: u64) -> int {
    if byte_len == 0 {
        alignment as int
    } else {
        aligned_up(byte_len, alignment)
    }
}

/// The allocation size does not leave 64 bits.
pub open spec fn can_allocate(byte_len: u64, alignment: u64) -> bool {
    byte_len == 0 || can_align(byte_len, alignment)
}

/// How far the creation of a buffer has come.
#[derive(Debug, Clone, Copy)]
pub enum CreationPhase<'a> {
    /// The device-local buffer is being allocated.
    Local(Allocation),
    /// The staging buffer is being allocated.
    Staging {
        /// The device-local buffer.
        target: Allocated,
        /// The staging buffer's allocation.
        allocation: Allocation,
    },
    /// The data is to be copied to the staging buffer.
    FillingStaging {
        /// The device-local buffer.
        target: Allocated,
        /// The staging buffer.
        staging: Allocated,
        /// The data.
        data: &'a [u8],
    },
    /// The staging buffer is being copied to the device-local buffer.
    Moving {
        /// The device-local buffer.
        target: Allocated,
        /// The staging buffer.
        staging: Allocated,
        /// The copy.
        transfer: Transfer,
    },
    /// The host-visible buffer is being allocated.
    Unified(Allocation),
    /// The data is to be copied to the host-visible buffer.
    FillingUnified {
        /// The host-visible buffer.
        host: Allocated,
        /// The data.
        data: &'a [u8],
    },
}

/// The creation of a buffer.
///
/// In device-local memory: a device-local buffer and a host-visible staging
/// buffer; data goes to the staging buffer and from there to the device. In
/// unified memory: one host-visible buffer that takes the data itself.
#[derive(Debug, Clone, Copy)]
pub struct BufferCreation<'a> {
    /// The memory that the device has.
    pub memory: MemoryProperties,
    /// The pool that command buffers for staging come from.
    pub command_pool: u64,
    /// The queue that staging uses.
    pub queue: u64,
    /// Length of the data in bytes.
    pub len: usize,
    /// Allocation size in bytes.
    pub size: u64,
    /// The data, where there is any to upload.
    pub data: Option<&'a [u8]>,
    /// How far the creation has come.
    pub phase: CreationPhase<'a>,
}

/// The creation that [`VulkanDevice::create_buffer`] and
/// [`VulkanDevice::create_buffer_uninit`] start.
pub open spec fn new_creation<'a>(
    device: &VulkanDevice,
    len: usize,
    data: Option<&'a [u8]>,
) -> BufferCreation<'a> {
    let alignment = device.limits.min_storage_buffer_offset_alignment;
    let size = allocation_size(len as u64, alignment) as u64;
    BufferCreation {
        memory: device.memory_properties,
        command_pool: device.command_pool,
        queue: device.compute_queue,
        len,
        size,
        data,
        phase: if device.uses_device_local {
            CreationPhase::Local(
                new_allocation(
                    device.memory_properties,
                    Placement::DeviceLocal,
                    size,
                    shared_usage(),
                ),
            )
        } else {
            CreationPhase::Unified(
                new_allocation(device.memory_properties, Placement::Host, size, shared_usage()),
            )
        },
    }
}

/// The data that is uploaded to a new buffer: none where there is none.
pub open spec fn to_upload<'a>(data: &'a [u8]) -> Option<&'a [u8]> {
    if data@.len() == 0 {
        None
    } else {
        Some(data)
    }
}

/// What creation reports of a length that cannot be allocated.
pub open spec fn too_large() -> ErrorView {
    ErrorView::BufferCreationFailed { message: "buffer size overflows"@ }
}

/// What the creation of a buffer of `byte_len` bytes starts with: the creation,
/// or the error where its allocation has no size.
pub open spec fn creation_start<'a>(
    device: &VulkanDevice,
    byte_len: int,
    data: Option<&'a [u8]>,
) -> Outcome<BufferCreation<'a>, Buffer> {
    if byte_len <= usize::MAX && can_allocate(
        byte_len as u64,
        device.limits.min_storage_buffer_offset_alignment,
    ) {
        Outcome::Pending(new_creation(device, byte_len as usize, data))
    } else {
        Outcome::Finished(Err(too_large()))
    }
}

/// Reports a length that cannot be allocated.
fn size_overflow() -> (error: DeviceError)
    ensures
        error@ == too_large(),
{
    DeviceError::BufferCreationFailed { message: String::from_str("buffer size overflows") }
}

/// The length in bytes of `len` elements of `element_size` bytes, where it can
/// be addressed.
pub fn byte_len(len: usize, element_size: usize) -> (bytes: Result<usize, DeviceError>)
    ensures
        match bytes {
            Ok(n) => n == len * element_size,
            Err(error) => len * element_size > usize::MAX && error@ == too_large(),
        },
{
    match len.checked_mul(element_size) {
        Some(n) => Ok(n),
        None => Err(size_overflow()),
    }
}

/// Starts the creation of a buffer of `len` bytes.
fn start_creation<'a>(device: &VulkanDevice, len: usize, data: Option<&'a [u8]>) -> (progress:
    Progress<BufferCreation<'a>, Buffer>)
    ensures
        progress@ == creation_start(device, len as int, data),
{
    let alignment: u64 = device.limits.min_storage_buffer_offset_alignment;
    let size: u64 = if len == 0 {
        alignment
    } else if alignment == 0 || (len as u64) <= u64::MAX - (alignment - 1) {
        align_up(len as u64, alignment)
    } else {
        return Progress::Finished(Err(size_overflow()));
    };
    let usage = VulkanDevice::buffer_usage();
    let phase = if device.uses_device_local {
        CreationPhase::Local(allocate_device_local_buffer(&device.memory_properties, size, usage))
    } else {
        CreationPhase::Unified(allocate_buffer(&device.memory_properties, size, usage))
    };
    Progress::Pending(
        BufferCreation {
            memory: device.memory_properties,
            command_pool: device.command_pool,
            queue: device.compute_queue,
            len,
            size,
            data,
            phase,
        },
    )
}

impl VulkanDevice {
    /// Starts the creation of a buffer that holds `data`.
    pub fn create_buffer<'a>(&self, data: &'a [u8]) -> (progress: Progress<
        BufferCreation<'a>,
        Buffer,
    >)
        requires
            self.wf(),
        ensures
            progress@ == creation_start(self, data@.len() as int, to_upload(data)),
            progress matches Progress::Pending(creation) ==> creation.wf() && creation.is_of(*self),
    {
        let upload = if data.len() == 0 {
            None
        } else {
            Some(data)
        };
        start_creation(self, data.len(), upload)
    }

    /// Starts the creation of an uninitialised buffer of `len` elements of
    /// `element_size` bytes.
    pub fn create_buffer_uninit<'a>(&self, len: usize, element_size: usize) -> (progress: Progress<
        BufferCreation<'a>,
        Buffer,
    >)
        requires
            self.wf(),
        ensures
            progress@ == creation_start(self, len * element_size, None),
            progress matches Progress::Pending(creation) ==> creation.wf() && creation.is_of(*self),
    {
        match byte_len(len, element_size) {
            Ok(bytes) => start_creation(self, bytes, None),
            Err(error) => Progress::Finished(Err(error)),
        }
    }
}

impl<'a> BufferCreation<'a> {
    /// The memory tables that the creation goes by are in order.
    pub open spec fn wf(self) -> bool {
        &&& self.memory.wf()
        &&& match self.phase {
            CreationPhase::Local(allocation) => allocation.memory == self.memory,
            CreationPhase::Staging { allocation, .. } => allocation.memory == self.memory,
            CreationPhase::Unified(allocation) => allocation.memory == self.memory,
            _ => true,
        }
    }

    /// The creation stages on the queue of this device.
    pub open spec fn is_of(self, device: VulkanDevice) -> bool {
        &&& self.queue == device.compute_queue
        &&& self.phase matches CreationPhase::Moving { transfer, .. } ==> transfer.queue
            == self.queue
    }

    /// The count of work in flight after `reply`, where `left` copies were left
    /// on the queue before.
    pub open spec fn count_after(self, reply: Reply, count: u64, left: u64) -> u64 {
        match self.phase {
            CreationPhase::Moving { transfer, .. } => transfer.count_after(reply, count, left),
            _ => count,
        }
    }

    /// How many copies are left on the queue after `reply`.
    pub open spec fn left_after(self, reply: Reply, left: u64) -> u64 {
        match self.phase {
            CreationPhase::Moving { transfer, .. } => transfer.left_after(reply, left),
            _ => left,
        }
    }

    /// A copy of the creation is counted as work in flight.
    pub open spec fn counted(self) -> bool {
        self.phase matches CreationPhase::Moving { transfer, .. } && transfer.counted()
    }

    /// What `reply` means for the count of work in flight.
    pub open spec fn event(self, reply: Reply) -> Option<DispatchEvent> {
        match self.phase {
            CreationPhase::Moving { transfer, .. } => transfer.event(reply),
            _ => None,
        }
    }

    /// The same creation at another phase.
    pub open spec fn at(self, phase: CreationPhase<'a>) -> BufferCreation<'a> {
        BufferCreation { phase, ..self }
    }

    /// The buffer that was made.
    pub open spec fn made(self, target: Allocated, staging: Option<Allocated>) -> Buffer {
        Buffer {
            buffer: target.buffer,
            memory: target.memory,
            size: self.size,
            mapped: match staging {
                Some(s) => s.mapped,
                None => target.mapped,
            },
            staging_buffer: match staging {
                Some(s) => Some(s.buffer),
                None => None,
            },
            staging_memory: match staging {
                Some(s) => Some(s.memory),
                None => None,
            },
            len: self.len,
        }
    }

    /// The call that this creation waits for.
    pub open spec fn wanted(self) -> Command<'a> {
        match self.phase {
            CreationPhase::Local(allocation) => allocation.wanted(),
            CreationPhase::Staging { allocation, .. } => allocation.wanted(),
            CreationPhase::FillingStaging { staging, data, .. } => Command::Upload {
                mapped: staging.mapped,
                data,
            },
            CreationPhase::Moving { transfer, .. } => transfer.wanted(),
            CreationPhase::Unified(allocation) => allocation.wanted(),
            CreationPhase::FillingUnified { host, data } => Command::Upload {
                mapped: host.mapped,
                data,
            },
        }
    }

    /// Where the creation stands after `reply`. A failed call ends it with the
    /// call's error; a reply to another call changes nothing.
    pub open spec fn step(self, reply: Reply) -> Outcome<BufferCreation<'a>, Buffer> {
        match self.phase {
            CreationPhase::Local(allocation) => match allocation.step(reply) {
                Outcome::Pending(next) => Outcome::Pending(self.at(CreationPhase::Local(next))),
                Outcome::Finished(Err(error)) => Outcome::Finished(Err(error)),
                Outcome::Finished(Ok(target)) => Outcome::Pending(
                    self.at(
                        CreationPhase::Staging {
                            target,
                            allocation: new_allocation(
                                self.memory,
                                Placement::Host,
                                self.size,
                                staging_usage(),
                            ),
                        },
                    ),
                ),
            },
            CreationPhase::Staging { target, allocation } => match allocation.step(reply) {
                Outcome::Pending(next) => Outcome::Pending(
                    self.at(CreationPhase::Staging { target, allocation: next }),
                ),
                Outcome::Finished(Err(error)) => Outcome::Finished(Err(error)),
                Outcome::Finished(Ok(staging)) => match self.data {
                    Some(data) => Outcome::Pending(
                        self.at(CreationPhase::FillingStaging { target, staging, data }),
                    ),
                    None => Outcome::Finished(Ok(self.made(target, Some(staging)))),
                },
            },
            CreationPhase::FillingStaging { target, staging, .. } => if reply is Completed {
                Outcome::Pending(
                    self.at(
                        CreationPhase::Moving {
                            target,
                            staging,
                            transfer: new_transfer(
                                self.command_pool,
                                self.queue,
                                staging.buffer,
                                target.buffer,
                                self.size,
                            ),
                        },
                    ),
                )
            } else {
                Outcome::Pending(self)
            },
            CreationPhase::Moving { target, staging, transfer } => match transfer.step(reply) {
                Outcome::Pending(next) => Outcome::Pending(
                    self.at(CreationPhase::Moving { target, staging, transfer: next }),
                ),
                Outcome::Finished(Err(error)) => Outcome::Finished(Err(error)),
                Outcome::Finished(Ok(_)) => Outcome::Finished(
                    Ok(self.made(target, Some(staging))),
                ),
            },
            CreationPhase::Unified(allocation) => match allocation.step(reply) {
                Outcome::Pending(next) => Outcome::Pending(self.at(CreationPhase::Unified(next))),
                Outcome::Finished(Err(error)) => Outcome::Finished(Err(error)),
                Outcome::Finished(Ok(host)) => match self.data {
                    Some(data) => Outcome::Pending(
                        self.at(CreationPhase::FillingUnified { host, data }),
                    ),
                    None => Outcome::Finished(Ok(self.made(host, None))),
                },
            },
            CreationPhase::FillingUnified { host, .. } => if reply is Completed {
                Outcome::Finished(Ok(self.made(host, None)))
            } else {
                Outcome::Pending(self)
            },
        }
    }

    /// The same creation at another phase.
    fn moved_to(self, phase: CreationPhase<'a>) -> (moved: BufferCreation<'a>)
        ensures
            moved == self.at(phase),
    {
        BufferCreation { phase, ..self }
    }

    /// The buffer that was made.
    fn make(self, target: Allocated, staging: Option<Allocated>) -> (buffer: Buffer)
        ensures
            buffer == self.made(target, staging),
    {
        match staging {
            Some(s) => Buffer {
                buffer: target.buffer,
                memory: target.memory,
                size: self.size,
                mapped: s.mapped,
                staging_buffer: Some(s.buffer),
                staging_memory: Some(s.memory),
                len: self.len,
            },
            None => Buffer {
                buffer: target.buffer,
                memory: target.memory,
                size: self.size,
                mapped: target.mapped,
                staging_buffer: None,
                staging_memory: None,
                len: self.len,
            },
        }
    }

    /// The call to make next.
    pub fn command(&self) -> (command: Command<'a>)
        ensures
            command == self.wanted(),
    {
        match self.phase {
            CreationPhase::Local(allocation) => allocation.command(),
            CreationPhase::Staging { allocation, .. } => allocation.command(),
            CreationPhase::FillingStaging { staging, data, .. } => Command::Upload {
                mapped: staging.mapped,
                data,
            },
            CreationPhase::Moving { transfer, .. } => transfer.command(),
            CreationPhase::Unified(allocation) => allocation.command(),
            CreationPhase::FillingUnified { host, data } => Command::Upload {
                mapped: host.mapped,
                data,
            },
        }
    }

    /// Whether a copy of the creation is counted as work in flight.
    pub fn is_counted(&self) -> (counted: bool)
        ensures
            counted == self.counted(),
    {
        match self.phase {
            CreationPhase::Moving { transfer, .. } => transfer.is_counted(),
            _ => false,
        }
    }

    /// Goes on with the outcome of the call, and counts the creation's copy as
    /// work of the device while it is in flight.
    pub fn resume(self, reply: Reply, device: &mut VulkanDevice) -> (progress: Progress<
        BufferCreation<'a>,
        Buffer,
    >)
        requires
            self.wf(),
            self.is_of(*old(device)),
            self.counted() ==> old(device).epoch@ > old(device).left_copies,
        ensures
            progress@ == self.step(reply),
            progress matches Progress::Pending(next) ==> next.wf() && next.is_of(*old(device)),
            final(device).epoch@ == self.count_after(
                reply,
                old(device).epoch@,
                old(device).left_copies,
            ),
            final(device).left_copies == self.left_after(reply, old(device).left_copies),
            *final(device) == (VulkanDevice {
                epoch: final(device).epoch,
                left_copies: final(device).left_copies,
                ..*old(device)
            }),
    {
        match self.phase {
            CreationPhase::Local(allocation) => match allocation.resume(reply) {
                Progress::Pending(next) => Progress::Pending(
                    self.moved_to(CreationPhase::Local(next)),
                ),
                Progress::Finished(Err(error)) => Progress::Finished(Err(error)),
                Progress::Finished(Ok(target)) => {
                    let allocation = allocate_buffer(
                        &self.memory,
                        self.size,
                        USAGE_TRANSFER_SRC | USAGE_TRANSFER_DST,
                    );
                    Progress::Pending(self.moved_to(CreationPhase::Staging { target, allocation }))
                },
            },
            CreationPhase::Staging { target, allocation } => match allocation.resume(reply) {
                Progress::Pending(next) => Progress::Pending(
                    self.moved_to(CreationPhase::Staging { target, allocation: next }),
                ),
                Progress::Finished(Err(error)) => Progress::Finished(Err(error)),
                Progress::Finished(Ok(staging)) => match self.data {
                    Some(data) => Progress::Pending(
                        self.moved_to(CreationPhase::FillingStaging { target, staging, data }),
                    ),
                    None => Progress::Finished(Ok(self.make(target, Some(staging)))),
                },
            },
            CreationPhase::FillingStaging { target, staging, .. } => match reply {
                Reply::Completed => {
                    let transfer = one_shot_transfer(
                        self.command_pool,
                        self.queue,
                        staging.buffer,
                        target.buffer,
                        self.size,
                    );
                    Progress::Pending(
                        self.moved_to(CreationPhase::Moving { target, staging, transfer }),
                    )
                },
                _ => Progress::Pending(self),
            },
            CreationPhase::Moving { target, staging, transfer } => match transfer.resume(
                reply,
                &mut device.epoch,
                &mut device.left_copies,
            ) {
                Progress::Pending(next) => Progress::Pending(
                    self.moved_to(CreationPhase::Moving { target, staging, transfer: next }),
                ),
                Progress::Finished(Err(error)) => Progress::Finished(Err(error)),
                Progress::Finished(Ok(_)) => Progress::Finished(
                    Ok(self.make(target, Some(staging))),
                ),
            },
            CreationPhase::Unified(allocation) => match allocation.resume(reply) {
                Progress::Pending(next) => Progress::Pending(
                    self.moved_to(CreationPhase::Unified(next)),
                ),
                Progress::Finished(Err(error)) => Progress::Finished(Err(error)),
                Progress::Finished(Ok(host)) => match self.data {
                    Some(data) => Progress::Pending(
                        self.moved_to(CreationPhase::FillingUnified { host, data }),
                    ),
                    None => Progress::Finished(Ok(self.make(host, None))),
                },
            },
            CreationPhase::FillingUnified { host, .. } => match reply {
                Reply::Completed => Progress::Finished(Ok(self.make(host, None))),
                _ => Progress::Pending(self),
            },
        }
    }
}

/// How many bytes of a buffer of `len` bytes are whole elements; none where an
/// element has no size.
pub open spec fn whole_elements(len: usize, element_size: usize) -> int {
    if element_size == 0 {
        0
    } else {
        len as int / element_size as int * element_size
    }
}

/// How far the reading of a buffer has come.
#[derive(Debug, Clone, Copy, PartialEq, Eq, Structural)]
pub enum ReadPhase {
    /// The device-local buffer is being copied to the staging buffer.
    Fetching(Transfer),
    /// The mapping is to be read.
    Downloading,
}

/// The reading of a buffer. A device-local buffer is copied to its staging
/// buffer first; then the mapping is read.
#[derive(Debug, Clone, Copy, PartialEq, Eq, Structural)]
pub struct BufferRead {
    /// Host address of the mapping.
    pub mapped: u64,
    /// How many bytes are read.
    pub len: usize,
    /// How far the reading has come.
    pub phase: ReadPhase,
}

/// What reading reports of a buffer that is not mapped.
pub open spec fn not_host_visible() -> ErrorView {
    ErrorView::BufferReadFailed { message: "buffer is not host-visible (no staging mapping)"@ }
}

/// A failed transfer as a reading reports it: the readback failed, for the
/// transfer's reason.
pub open spec fn readback_failed(error: ErrorView) -> ErrorView {
    match error {
        ErrorView::BufferCreationFailed { message } => ErrorView::BufferReadFailed { message },
        other => other,
    }
}

/// Reports a failed transfer as a failed readback.
fn as_readback_failure(error: DeviceError) -> (failure: DeviceError)
    ensures
        failure@ == readback_failed(error@),
{
    match error {
        DeviceError::BufferCreationFailed { message } => DeviceError::BufferReadFailed { message },
        other => other,
    }
}

/// The reading once the mapping holds the buffer's contents.
pub open spec fn ready_to_download(mapped: u64, len: usize) -> Outcome<BufferRead, Vec<u8>> {
    if mapped == 0 {
        Outcome::Finished(Err(not_host_visible()))
    } else {
        Outcome::Pending(BufferRead { mapped, len, phase: ReadPhase::Downloading })
    }
}

/// The reading that [`VulkanDevice::read_buffer`] starts.
pub open spec fn new_read(device: VulkanDevice, buffer: Buffer, element_size: usize) -> Outcome<
    BufferRead,
    Vec<u8>,
> {
    let len = whole_elements(buffer.len, element_size) as usize;
    match buffer.staging_buffer {
        Some(staging) => Outcome::Pending(
            BufferRead {
                mapped: buffer.mapped,
                len,
                phase: ReadPhase::Fetching(
                    new_transfer(
                        device.command_pool,
                        device.compute_queue,
                        buffer.buffer,
                        staging,
                        buffer.size,
                    ),
                ),
            },
        ),
        None => ready_to_download(buffer.mapped, len),
    }
}

/// Reads the mapping, if there is one.
fn start_download(mapped: u64, len: usize) -> (progress: Progress<BufferRead, Vec<u8>>)
    ensures
        progress@ == ready_to_download(mapped, len),
{
    if mapped == 0 {
        let message = String::from_str("buffer is not host-visible (no staging mapping)");
        Progress::Finished(Err(DeviceError::BufferReadFailed { message }))
    } else {
        Progress::Pending(BufferRead { mapped, len, phase: ReadPhase::Downloading })
    }
}

impl VulkanDevice {
    /// Starts reading back as many whole elements of `element_size` bytes as
    /// the buffer holds.
    pub fn read_buffer(&self, buffer: &Buffer, element_size: usize) -> (progress: Progress<
        BufferRead,
        Vec<u8>,
    >)
        ensures
            progress@ == new_read(*self, *buffer, element_size),
            progress matches Progress::Pending(read) ==> read.is_of(*self),
    {
        let len: usize = if element_size == 0 {
            0
        } else {
            proof {
                let (l, e) = (buffer.len as int, element_size as int);
                vstd::arithmetic::div_mod::lemma_fundamental_div_mod(l, e);
                vstd::arithmetic::div_mod::lemma_mod_bound(l, e);
                vstd::arithmetic::mul::lemma_mul_is_commutative(e, l / e);
            }
            buffer.len - buffer.len % element_size
        };
        match buffer.staging_buffer {
            Some(staging) => {
                let transfer = one_shot_transfer(
                    self.command_pool,
                    self.compute_queue,
                    buffer.buffer,
                    staging,
                    buffer.size,
                );
                Progress::Pending(
                    BufferRead {
                        mapped: buffer.mapped,
                        len,
                        phase: ReadPhase::Fetching(transfer),
                    },
                )
            },
            None => start_download(buffer.mapped, len),
        }
    }
}

impl BufferRead {
    /// The call that this reading waits for.
    pub open spec fn wanted<'a>(self) -> Command<'a> {
        match self.phase {
            ReadPhase::Fetching(transfer) => transfer.wanted(),
            ReadPhase::Downloading => Command::Download { mapped: self.mapped, len: self.len },
        }
    }

    /// The reading stages on the queue of this device.
    pub open spec fn is_of(self, device: VulkanDevice) -> bool {
        self.phase matches ReadPhase::Fetching(transfer) ==> transfer.queue == device.compute_queue
    }

    /// The count of work in flight after `reply`, where `left` copies were left
    /// on the queue before.
    pub open spec fn count_after(self, reply: Reply, count: u64, left: u64) -> u64 {
        match self.phase {
            ReadPhase::Fetching(transfer) => transfer.count_after(reply, count, left),
            ReadPhase::Downloading => count,
        }
    }

    /// How many copies are left on the queue after `reply`.
    pub open spec fn left_after(self, reply: Reply, left: u64) -> u64 {
        match self.phase {
            ReadPhase::Fetching(transfer) => transfer.left_after(reply, left),
            ReadPhase::Downloading => left,
        }
    }

    /// The reading's copy is counted as work in flight.
    pub open spec fn counted(self) -> bool {
        self.phase matches ReadPhase::Fetching(transfer) && transfer.counted()
    }

    /// What `reply` means for the count of work in flight.
    pub open spec fn event(self, reply: Reply) -> Option<DispatchEvent> {
        match self.phase {
            ReadPhase::Fetching(transfer) => transfer.event(reply),
            ReadPhase::Downloading => None,
        }
    }

    /// Where the reading stands after `reply`. A failed call ends it with the
    /// readback's error, which names the call; a reply to another call changes
    /// nothing.
    pub open spec fn step(self, reply: Reply) -> Outcome<BufferRead, Vec<u8>> {
        match self.phase {
            ReadPhase::Fetching(transfer) => match transfer.step(reply) {
                Outcome::Pending(next) => Outcome::Pending(
                    BufferRead { phase: ReadPhase::Fetching(next), ..self },
                ),
                Outcome::Finished(Err(error)) => Outcome::Finished(Err(readback_failed(error))),
                Outcome::Finished(Ok(_)) => ready_to_download(self.mapped, self.len),
            },
            ReadPhase::Downloading => if self.wanted().answered_by(reply) {
                Outcome::Finished(Ok(reply->Bytes_0))
            } else {
                Outcome::Pending(self)
            },
        }
    }

    /// The call to make next.
    pub fn command<'a>(&self) -> (command: Command<'a>)
        ensures
            command == self.wanted(),
    {
        match self.phase {
            ReadPhase::Fetching(transfer) => transfer.command(),
            ReadPhase::Downloading => Command::Download { mapped: self.mapped, len: self.len },
        }
    }

    /// Whether the reading's copy is counted as work in flight.
    pub fn is_counted(&self) -> (counted: bool)
        ensures
            counted == self.counted(),
    {
        match self.phase {
            ReadPhase::Fetching(transfer) => transfer.is_counted(),
            ReadPhase::Downloading => false,
        }
    }

    /// Goes on with the outcome of the call, and counts the reading's copy as
    /// work of the device while it is in flight.
    pub fn resume(self, reply: Reply, device: &mut VulkanDevice) -> (progress: Progress<
        BufferRead,
        Vec<u8>,
    >)
        requires
            self.is_of(*old(device)),
            self.counted() ==> old(device).epoch@ > old(device).left_copies,
        ensures
            progress@ == self.step(reply),
            progress matches Progress::Pending(next) ==> next.is_of(*old(device)),
            final(device).epoch@ == self.count_after(
                reply,
                old(device).epoch@,
                old(device).left_copies,
            ),
            final(device).left_copies == self.left_after(reply, old(device).left_copies),
            *final(device) == (VulkanDevice {
                epoch: final(device).epoch,
                left_copies: final(device).left_copies,
                ..*old(device)
            }),
    {
        match self.phase {
            ReadPhase::Fetching(transfer) => match transfer.resume(
                reply,
                &mut device.epoch,
                &mut device.left_copies,
            ) {
                Progress::Pending(next) => Progress::Pending(
                    BufferRead { phase: ReadPhase::Fetching(next), ..self },
                ),
                Progress::Finished(Err(error)) => Progress::Finished(
                    Err(as_readback_failure(error)),
                ),
                Progress::Finished(Ok(_)) => start_download(self.mapped, self.len),
            },
            ReadPhase::Downloading => match reply {
                Reply::Bytes(bytes) => if bytes.len() == self.len {
                    Progress::Finished(Ok(bytes))
                } else {
                    Progress::Pending(self)
                },
                _ => Progress::Pending(self),
            },
        }
    }
}

} // verus!
