//! What the building of a device promises, whatever the driver replies.

use super::abi::{kind_of, API_VERSION_1_1};
use super::adapter::{
    is_best, law_picked_device_is_listed, law_picks_iff_some_device_computes, pick_of,
    PhysicalDeviceInfo,
};
use super::bringup::{new_build, Adapter, Build, BuildPhase};
use super::command::Outcome;
use super::device::VulkanDevice;
use super::extensions::{law_enabled_iff_wanted_and_reported, reports, swapchain_extension};
use super::families::{
    any_offers, choice_of, is_first, law_choice_matches_hardware,
    law_dedicated_compute_is_isolated, Capability, QueueFamilyChoice,
};
use super::logical::queues_serve;
use super::memory::placed_locally;
use super::setup::{DeviceProperties, SetupReply, SetupRequest};
use crate::epoch::law_idle_tracker_is_quiescent;
use crate::error::ErrorView;
use crate::request::MemoryStrategy;
use vstd::prelude::*;

verus! {

/// Where a building stands after `replies`, in order. What comes after its end
/// changes nothing.
pub open spec fn run(start: Build, replies: Seq<SetupReply>) -> Outcome<Build, VulkanDevice>
    decreases replies.len(),
{
    if replies.len() == 0 {
        Outcome::Pending(start)
    } else {
        match run(start, replies.drop_last()) {
            Outcome::Pending(build) => build.step(replies.last()),
            Outcome::Finished(result) => Outcome::Finished(result),
        }
    }
}

/// The driver listed devices of which `physical_device` and `choice` are the
/// pick.
pub open spec fn was_picked(
    replies: Seq<SetupReply>,
    prefer_graphics: bool,
    physical_device: u64,
    choice: QueueFamilyChoice,
) -> bool {
    exists|devices: Vec<PhysicalDeviceInfo>| #[trigger]
        replies.contains(SetupReply::Devices(devices)) && pick_of(devices@, prefer_graphics)
            == Ok::<_, ErrorView>((physical_device, choice))
}

/// The driver listed an extension of this name.
pub open spec fn was_reported(replies: Seq<SetupReply>, name: Seq<char>) -> bool {
    exists|names: Vec<String>| #[trigger]
        replies.contains(SetupReply::Names(names)) && reports(names@, name)
}

/// The loader offered this API version, or it is 1.1 and the loader offered
/// none.
pub open spec fn version_settled(replies: Seq<SetupReply>, api_version: u32) -> bool {
    ||| replies.contains(SetupReply::Version(Some(api_version)))
    ||| api_version == API_VERSION_1_1 && (exists|reply: SetupReply| #[trigger]
        replies.contains(reply) && (reply is Failed || reply == SetupReply::Version(None)))
}

/// The picked device is one that was picked, with the properties that the
/// driver reported.
spec fn is_known(adapter: Adapter, prefer_graphics: bool, replies: Seq<SetupReply>) -> bool {
    &&& was_picked(replies, prefer_graphics, adapter.physical_device, adapter.choice)
    &&& replies.contains(SetupReply::Properties(adapter.properties))
}

/// Everything that the building has noted comes from the replies.
spec fn learnt(build: Build, replies: Seq<SetupReply>) -> bool {
    match build.phase {
        BuildPhase::Loading => true,
        BuildPhase::Versioning => true,
        BuildPhase::ListingInstanceExtensions { api_version } => build.prefer_graphics
            && version_settled(replies, api_version),
        BuildPhase::CreatingInstance { api_version, available } => {
            &&& version_settled(replies, api_version)
            &&& available matches Some(names) ==> build.prefer_graphics && replies.contains(
                SetupReply::Names(names),
            )
        },
        BuildPhase::ListingDevices { .. } => true,
        BuildPhase::Querying { physical_device, choice, .. } => was_picked(
            replies,
            build.prefer_graphics,
            physical_device,
            choice,
        ),
        BuildPhase::ListingDeviceExtensions { adapter } => build.prefer_graphics && is_known(
            adapter,
            build.prefer_graphics,
            replies,
        ),
        BuildPhase::CreatingDevice { adapter, creation } => {
            &&& is_known(adapter, build.prefer_graphics, replies)
            &&& creation.wf()
            &&& creation.choice == adapter.choice
            &&& creation.physical_device == adapter.physical_device
            &&& creation.swapchain ==> build.prefer_graphics && was_reported(
                replies,
                swapchain_extension(),
            )
        },
        BuildPhase::CreatingPool { adapter, logical } => {
            &&& is_known(adapter, build.prefer_graphics, replies)
            &&& logical.serves(adapter.choice)
        },
    }
}

/// What was heard stays heard.
proof fn lemma_heard(replies: Seq<SetupReply>, reply: SetupReply, prefer_graphics: bool)
    ensures
        forall|r: SetupReply| #[trigger]
            replies.contains(r) ==> replies.push(reply).contains(r),
        replies.push(reply).contains(reply),
        forall|device: u64, choice: QueueFamilyChoice|
            was_picked(replies, prefer_graphics, device, choice) ==> #[trigger] was_picked(
                replies.push(reply),
                prefer_graphics,
                device,
                choice,
            ),
        forall|name: Seq<char>|
            was_reported(replies, name) ==> #[trigger] was_reported(replies.push(reply), name),
{
    let longer = replies.push(reply);
    assert forall|r: SetupReply| #[trigger] replies.contains(r) implies longer.contains(r) by {
        let i = choose|i: int| 0 <= i < replies.len() && replies[i] == r;
        assert(longer[i] == r);
    }
    assert(longer[replies.len() as int] == reply);
    assert forall|device: u64, choice: QueueFamilyChoice|
        was_picked(replies, prefer_graphics, device, choice) implies #[trigger] was_picked(
        longer,
        prefer_graphics,
        device,
        choice,
    ) by {
        let devices = choose|devices: Vec<PhysicalDeviceInfo>| #[trigger]
            replies.contains(SetupReply::Devices(devices)) && pick_of(devices@, prefer_graphics)
                == Ok::<_, ErrorView>((device, choice));
        assert(longer.contains(SetupReply::Devices(devices)));
    }
    assert forall|name: Seq<char>| was_reported(replies, name) implies #[trigger] was_reported(
        longer,
        name,
    ) by {
        let names = choose|names: Vec<String>| #[trigger]
            replies.contains(SetupReply::Names(names)) && reports(names@, name);
        assert(longer.contains(SetupReply::Names(names)));
    }
}

proof fn lemma_learnt_step(build: Build, replies: Seq<SetupReply>, reply: SetupReply, next: Build)
    requires
        learnt(build, replies),
        build.step(reply) == Outcome::<Build, VulkanDevice>::Pending(next),
    ensures
        learnt(next, replies.push(reply)),
        next.strategy == build.strategy,
        next.prefer_graphics == build.prefer_graphics,
{
    lemma_heard(replies, reply, build.prefer_graphics);
}

/// Whatever the replies, a building that still goes on has noted only what it
/// was told.
proof fn lemma_learnt(
    strategy: MemoryStrategy,
    prefer_graphics: bool,
    replies: Seq<SetupReply>,
    build: Build,
)
    requires
        run(new_build(strategy, prefer_graphics), replies) == Outcome::<
            Build,
            VulkanDevice,
        >::Pending(build),
    ensures
        learnt(build, replies),
        build.strategy == strategy,
        build.prefer_graphics == prefer_graphics,
    decreases replies.len(),
{
    if replies.len() > 0 {
        let earlier = replies.drop_last();
        let before = run(new_build(strategy, prefer_graphics), earlier)->Pending_0;
        lemma_learnt(strategy, prefer_graphics, earlier, before);
        assert(earlier.push(replies.last()) =~= replies);
        lemma_learnt_step(before, earlier, replies.last(), build);
    }
}

/// A built device is what the driver described: it is the pick among the
/// devices listed, each queue is on the family chosen for it, staging uses the
/// compute queue, memory and limits are as reported, placement follows the
/// strategy, and no work is in flight.
pub proof fn law_built_device_is_as_described(
    strategy: MemoryStrategy,
    prefer_graphics: bool,
    replies: Seq<SetupReply>,
    device: VulkanDevice,
)
    requires
        run(new_build(strategy, prefer_graphics), replies) == Outcome::<
            Build,
            VulkanDevice,
        >::Finished(Ok(device)),
    ensures
        exists|choice: QueueFamilyChoice| #[trigger]
            was_picked(replies, prefer_graphics, device.physical_device, choice) && queues_serve(
                device.queues,
                choice,
            ),
        device.compute_queue == device.queues.compute.raw,
        exists|properties: DeviceProperties| #[trigger]
            replies.contains(SetupReply::Properties(properties)) && describes(
                properties,
                device,
            ),
        device.memory_strategy == strategy,
        device.epoch@ == 0,
        device.left_copies == 0,
    decreases replies.len(),
{
    if replies.len() > 0 {
        let earlier = replies.drop_last();
        assert(earlier.push(replies.last()) =~= replies);
        lemma_heard(earlier, replies.last(), prefer_graphics);
        match run(new_build(strategy, prefer_graphics), earlier) {
            Outcome::Pending(build) => {
                lemma_learnt(strategy, prefer_graphics, earlier, build);
                law_idle_tracker_is_quiescent();
                if let BuildPhase::CreatingPool { adapter, .. } = build.phase {
                    assert(describes(adapter.properties, device));
                    assert(replies.contains(SetupReply::Properties(adapter.properties)));
                    assert(was_picked(
                        replies,
                        prefer_graphics,
                        device.physical_device,
                        adapter.choice,
                    ));
                }
            },
            Outcome::Finished(_) => {
                law_built_device_is_as_described(strategy, prefer_graphics, earlier, device);
                let choice = choose|choice: QueueFamilyChoice| #[trigger]
                    was_picked(earlier, prefer_graphics, device.physical_device, choice)
                        && queues_serve(device.queues, choice);
                assert(was_picked(replies, prefer_graphics, device.physical_device, choice));
                let properties = choose|properties: DeviceProperties| #[trigger]
                    earlier.contains(SetupReply::Properties(properties)) && describes(
                        properties,
                        device,
                    );
                assert(replies.contains(SetupReply::Properties(properties)));
            },
        }
    }
}

/// The device's memory, limits and placement follow from these properties.
pub open spec fn describes(properties: DeviceProperties, device: VulkanDevice) -> bool {
    &&& device.memory_properties == properties.memory
    &&& device.limits.min_storage_buffer_offset_alignment
        == properties.min_storage_buffer_offset_alignment
    &&& device.uses_device_local == placed_locally(
        device.memory_strategy,
        kind_of(properties.device_type),
        properties.memory,
    )
}

/// The driver listed this device.
pub open spec fn was_listed(replies: Seq<SetupReply>, info: PhysicalDeviceInfo) -> bool {
    exists|devices: Vec<PhysicalDeviceInfo>| #[trigger]
        replies.contains(SetupReply::Devices(devices)) && devices@.contains(info)
}

/// The queues are what the device's families allow: compute is on a family
/// that computes, and on a dedicated one, apart from graphics, where there is
/// one; graphics and transfer are there exactly where some family draws or only
/// transfers, and on the first such family.
pub open spec fn queues_match(device: VulkanDevice, info: PhysicalDeviceInfo) -> bool {
    let families = info.families@;
    let compute = device.queues.compute.family_index;
    &&& info.handle == device.physical_device
    &&& compute < families.len()
    &&& Capability::Compute.offered_by(families[compute as int])
    &&& any_offers(families, Capability::DedicatedCompute) ==> {
        &&& Capability::DedicatedCompute.offered_by(families[compute as int])
        &&& device.queues.graphics matches Some(q) ==> q.family_index != compute
    }
    &&& device.queues.graphics is Some <==> any_offers(families, Capability::Graphics)
    &&& device.queues.graphics matches Some(q) ==> is_first(
        families,
        Capability::Graphics,
        q.family_index as int,
    )
    &&& device.queues.transfer is Some <==> any_offers(families, Capability::DedicatedTransfer)
    &&& device.queues.transfer matches Some(q) ==> is_first(
        families,
        Capability::DedicatedTransfer,
        q.family_index as int,
    )
}

/// Queues match the hardware: a built device is one that the driver listed, and
/// its queues are what that device's families allow. A driver numbers its
/// families in 32 bits.
pub proof fn law_queues_match_hardware(
    strategy: MemoryStrategy,
    prefer_graphics: bool,
    replies: Seq<SetupReply>,
    device: VulkanDevice,
)
    requires
        run(new_build(strategy, prefer_graphics), replies) == Outcome::<
            Build,
            VulkanDevice,
        >::Finished(Ok(device)),
        forall|info: PhysicalDeviceInfo| #[trigger]
            was_listed(replies, info) ==> info.families@.len() <= 0x1_0000_0000,
    ensures
        exists|info: PhysicalDeviceInfo| #[trigger]
            was_listed(replies, info) && queues_match(device, info),
{
    law_built_device_is_as_described(strategy, prefer_graphics, replies, device);
    let choice = choose|choice: QueueFamilyChoice| #[trigger]
        was_picked(replies, prefer_graphics, device.physical_device, choice) && queues_serve(
            device.queues,
            choice,
        );
    let devices = choose|devices: Vec<PhysicalDeviceInfo>| #[trigger]
        replies.contains(SetupReply::Devices(devices)) && pick_of(devices@, prefer_graphics)
            == Ok::<_, ErrorView>((device.physical_device, choice));
    law_picked_device_is_listed(devices@, prefer_graphics, device.physical_device, choice);
    let i = choose|i: int|
        is_best(devices@, prefer_graphics, i) && devices@[i].handle == device.physical_device
            && choice_of(devices@[i].families@) == Some(choice);
    let info = devices@[i];
    assert(devices@.contains(info));
    assert(was_listed(replies, info));
    law_choice_matches_hardware(info.families@, choice);
    if any_offers(info.families@, Capability::DedicatedCompute) {
        law_dedicated_compute_is_isolated(info.families@, choice);
    }
    assert(queues_match(device, info));
}

/// Graphics is never required: once the devices are listed, the building goes
/// on exactly where some device computes, whatever the preference.
pub proof fn law_build_requires_compute_only(
    build: Build,
    instance: u64,
    devices: Vec<PhysicalDeviceInfo>,
)
    requires
        build.phase == (BuildPhase::ListingDevices { instance }),
    ensures
        build.step(SetupReply::Devices(devices)) is Pending <==> exists|i: int|
            0 <= i < devices@.len() && any_offers(
                (#[trigger] devices@[i]).families@,
                Capability::Compute,
            ),
{
    law_picks_iff_some_device_computes(devices@, build.prefer_graphics);
}

/// A building without graphics never looks at extensions and enables none.
pub proof fn law_compute_only_enables_no_extension(
    strategy: MemoryStrategy,
    replies: Seq<SetupReply>,
    build: Build,
)
    requires
        run(new_build(strategy, false), replies) == Outcome::<Build, VulkanDevice>::Pending(build),
    ensures
        match build.wanted() {
            SetupRequest::ListInstanceExtensions => false,
            SetupRequest::ListDeviceExtensions { .. } => false,
            SetupRequest::CreateInstance { extensions, .. } => extensions.len() == 0,
            SetupRequest::CreateDevice { extensions, .. } => extensions.len() == 0,
            _ => true,
        },
{
    lemma_learnt(strategy, false, replies, build);
}

/// Nothing unsupported is asked for: every extension that a building enables
/// was reported by the driver.
pub proof fn law_enabled_extensions_were_reported(
    strategy: MemoryStrategy,
    prefer_graphics: bool,
    replies: Seq<SetupReply>,
    build: Build,
    name: Seq<char>,
)
    requires
        run(new_build(strategy, prefer_graphics), replies) == Outcome::<
            Build,
            VulkanDevice,
        >::Pending(build),
        match build.wanted() {
            SetupRequest::CreateInstance { extensions, .. } => extensions.contains(name),
            SetupRequest::CreateDevice { extensions, .. } => extensions.contains(name),
            _ => false,
        },
    ensures
        was_reported(replies, name),
{
    lemma_learnt(strategy, prefer_graphics, replies, build);
    match build.phase {
        BuildPhase::CreatingInstance { available, .. } => {
            law_enabled_iff_wanted_and_reported(available, name);
            if let Some(names) = available {
                assert(replies.contains(SetupReply::Names(names)));
            }
        },
        _ => {},
    }
}

/// No building asks for an API version that the loader did not offer, except
/// that it asks for 1.1 where the loader offers none.
pub proof fn law_api_version_was_offered(
    strategy: MemoryStrategy,
    prefer_graphics: bool,
    replies: Seq<SetupReply>,
    build: Build,
)
    requires
        run(new_build(strategy, prefer_graphics), replies) == Outcome::<
            Build,
            VulkanDevice,
        >::Pending(build),
    ensures
        build.wanted() matches SetupRequest::CreateInstance { api_version, .. } ==> version_settled(
            replies,
            api_version,
        ),
{
    lemma_learnt(strategy, prefer_graphics, replies, build);
}

/// A building that fails reports that the device could not be initialised.
pub proof fn law_build_fails_with_init_failed(
    strategy: MemoryStrategy,
    prefer_graphics: bool,
    replies: Seq<SetupReply>,
    error: ErrorView,
)
    requires
        run(new_build(strategy, prefer_graphics), replies) == Outcome::<
            Build,
            VulkanDevice,
        >::Finished(Err(error)),
    ensures
        error is InitFailed,
    decreases replies.len(),
{
    if replies.len() > 0 {
        let earlier = replies.drop_last();
        if let Outcome::Finished(_) = run(new_build(strategy, prefer_graphics), earlier) {
            law_build_fails_with_init_failed(strategy, prefer_graphics, earlier, error);
        }
    }
}

} // verus!
