//! Every operation comes to an end: each has a number of calls that it can
//! still make, and every answered call lowers it.

use super::allocation::{Allocated, Allocation, AllocationPhase};
use super::bringup::{Build, BuildPhase};
use super::buffer::{Buffer, BufferCreation, BufferRead, CreationPhase, ReadPhase};
use super::command::{Outcome, Reply};
use super::device::VulkanDevice;
use super::logical::{LogicalCreation, LogicalDevice, LogicalPhase};
use super::setup::{SetupReply, SetupRequest};
use super::transfer::{Transfer, TransferPhase};
use vstd::prelude::*;

verus! {

/// The most calls that an allocation can still make.
pub open spec fn allocation_calls(allocation: Allocation) -> nat {
    match allocation.phase {
        AllocationPhase::Creating => 5,
        AllocationPhase::Measuring { .. } => 4,
        AllocationPhase::Allocating { .. } => 3,
        AllocationPhase::Binding { .. } => 2,
        AllocationPhase::Mapping { .. } => 1,
    }
}

/// The most calls that a transfer can still make.
pub open spec fn transfer_calls(transfer: Transfer) -> nat {
    match transfer.phase {
        TransferPhase::Allocating => 7,
        TransferPhase::Beginning { .. } => 6,
        TransferPhase::Recording { .. } => 5,
        TransferPhase::Ending { .. } => 4,
        TransferPhase::Submitting { .. } => 3,
        TransferPhase::Waiting { .. } => 2,
        TransferPhase::Freeing { .. } => 1,
    }
}

/// The most calls that the creation of a buffer can still make: a staging
/// buffer takes five, the upload one and the transfer seven.
pub open spec fn creation_calls(creation: BufferCreation) -> nat {
    match creation.phase {
        CreationPhase::Local(allocation) => 13 + allocation_calls(allocation),
        CreationPhase::Staging { allocation, .. } => 8 + allocation_calls(allocation),
        CreationPhase::FillingStaging { .. } => 8,
        CreationPhase::Moving { transfer, .. } => transfer_calls(transfer),
        CreationPhase::Unified(allocation) => 1 + allocation_calls(allocation),
        CreationPhase::FillingUnified { .. } => 1,
    }
}

/// The most calls that the reading of a buffer can still make.
pub open spec fn reading_calls(read: BufferRead) -> nat {
    match read.phase {
        ReadPhase::Fetching(transfer) => 1 + transfer_calls(transfer),
        ReadPhase::Downloading => 1,
    }
}

/// The most calls that the creation of a logical device can still make.
pub open spec fn logical_calls(creation: LogicalCreation) -> nat {
    match creation.phase {
        LogicalPhase::Creating => 4,
        LogicalPhase::FetchingCompute { .. } => 3,
        LogicalPhase::FetchingGraphics { .. } => 2,
        LogicalPhase::FetchingTransfer { .. } => 1,
    }
}

/// The most calls that the building of a device can still make.
pub open spec fn build_calls(build: Build) -> nat {
    match build.phase {
        BuildPhase::Loading => 12,
        BuildPhase::Versioning => 11,
        BuildPhase::ListingInstanceExtensions { .. } => 10,
        BuildPhase::CreatingInstance { .. } => 9,
        BuildPhase::ListingDevices { .. } => 8,
        BuildPhase::Querying { .. } => 7,
        BuildPhase::ListingDeviceExtensions { .. } => 6,
        BuildPhase::CreatingDevice { creation, .. } => 1 + logical_calls(creation),
        BuildPhase::CreatingPool { .. } => 1,
    }
}

/// `reply` is of the kind that this call of device setup can answer with.
pub open spec fn setup_answered_by(request: SetupRequest, reply: SetupReply) -> bool {
    match request {
        SetupRequest::LoadLibrary => reply is Loaded || reply is LoadFailed,
        SetupRequest::QueryVersion => reply is Version || reply is Failed,
        SetupRequest::ListInstanceExtensions => reply is Names || reply is Failed,
        SetupRequest::CreateInstance { .. } => reply is Handle || reply is Failed,
        SetupRequest::ListPhysicalDevices { .. } => reply is Devices || reply is Failed,
        SetupRequest::QueryPhysicalDevice { .. } => reply is Properties,
        SetupRequest::ListDeviceExtensions { .. } => reply is Names || reply is Failed,
        SetupRequest::CreateDevice { .. } => reply is Handle || reply is Failed,
        SetupRequest::FetchQueue { .. } => reply is Handle,
        SetupRequest::CreateCommandPool { .. } => reply is Handle || reply is Failed,
    }
}

/// An allocation comes to an end: an answered call finishes it or leaves it
/// with fewer calls to make.
pub proof fn law_allocation_ends(allocation: Allocation, reply: Reply)
    requires
        allocation.wanted().answered_by(reply),
    ensures
        match allocation.step(reply) {
            Outcome::<Allocation, Allocated>::Pending(next) => allocation_calls(next)
                < allocation_calls(allocation),
            Outcome::Finished(_) => true,
        },
{
}

/// A transfer comes to an end: an answered call finishes it or leaves it with
/// fewer calls to make.
pub proof fn law_transfer_ends(transfer: Transfer, reply: Reply)
    requires
        transfer.wanted().answered_by(reply),
    ensures
        match transfer.step(reply) {
            Outcome::<Transfer, ()>::Pending(next) => transfer_calls(next) < transfer_calls(
                transfer,
            ),
            Outcome::Finished(_) => true,
        },
{
}

/// The creation of a buffer comes to an end: an answered call finishes it or
/// leaves it with fewer calls to make.
pub proof fn law_creation_ends(creation: BufferCreation, reply: Reply)
    requires
        creation.wanted().answered_by(reply),
    ensures
        match creation.step(reply) {
            Outcome::<BufferCreation, Buffer>::Pending(next) => creation_calls(next)
                < creation_calls(creation),
            Outcome::Finished(_) => true,
        },
{
    match creation.phase {
        CreationPhase::Local(allocation) => law_allocation_ends(allocation, reply),
        CreationPhase::Staging { allocation, .. } => law_allocation_ends(allocation, reply),
        CreationPhase::Moving { transfer, .. } => law_transfer_ends(transfer, reply),
        CreationPhase::Unified(allocation) => law_allocation_ends(allocation, reply),
        _ => {},
    }
}

/// The reading of a buffer comes to an end: an answered call finishes it or
/// leaves it with fewer calls to make.
pub proof fn law_reading_ends(read: BufferRead, reply: Reply)
    requires
        read.wanted().answered_by(reply),
    ensures
        match read.step(reply) {
            Outcome::<BufferRead, Vec<u8>>::Pending(next) => reading_calls(next) < reading_calls(
                read,
            ),
            Outcome::Finished(_) => true,
        },
{
    if let ReadPhase::Fetching(transfer) = read.phase {
        law_transfer_ends(transfer, reply);
    }
}

/// The creation of a logical device comes to an end: an answered call finishes
/// it or leaves it with fewer calls to make.
pub proof fn law_logical_creation_ends(creation: LogicalCreation, reply: SetupReply)
    requires
        setup_answered_by(creation.wanted(), reply),
    ensures
        match creation.step(reply) {
            Outcome::<LogicalCreation, LogicalDevice>::Pending(next) => logical_calls(next)
                < logical_calls(creation),
            Outcome::Finished(_) => true,
        },
{
}

/// The building of a device comes to an end: an answered call finishes it or
/// leaves it with fewer calls to make.
pub proof fn law_build_ends(build: Build, reply: SetupReply)
    requires
        setup_answered_by(build.wanted(), reply),
    ensures
        match build.step(reply) {
            Outcome::<Build, VulkanDevice>::Pending(next) => build_calls(next) < build_calls(build),
            Outcome::Finished(_) => true,
        },
{
    if let BuildPhase::CreatingDevice { creation, .. } = build.phase {
        law_logical_creation_ends(creation, reply);
    }
}

} // verus!
