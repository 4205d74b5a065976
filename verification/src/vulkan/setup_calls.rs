//! Which calls the building of a device makes, in which order and with which
//! arguments, what it ends in, and when it fails.

use super::abi::vk_result_message;
use super::adapter::{law_picks_iff_some_device_computes, pick_of, PhysicalDeviceInfo};
use super::bringup::{Adapter, Build, BuildPhase};
use super::command::Outcome;
use super::conversation::{lemma_talk_goes_on, talk};
use super::device::VulkanDevice;
use super::extensions::{enabled_surface_extensions, reports};
use super::families::{
    choice_of, law_choice_matches_hardware, law_transfer_is_separate, QueueFamilyChoice,
};
use super::hardware_laws::has_much_local_memory;
use super::logical::{new_logical, LogicalDevice, LogicalPhase};
use super::memory::MemoryProperties;
use super::selection_laws::{
    is_fit, is_pick, law_best_choice_is_unique, lemma_choice_serves_best, lemma_fit_iff_computes,
    lemma_pick_by_numbers, serves_best,
};
use super::setup::{DeviceProperties, SetupReply, SetupRequest};
use super::termination::setup_answered_by;
use crate::device::DeviceLimits;
use crate::epoch::GpuEpochTracker;
use crate::error::ErrorView;
use crate::queues::{Queue, Queues};
use crate::request::{InitRequest, MemoryStrategy};
use vstd::prelude::*;

verus! {

/// What a driver tells when a device is built.
pub struct Told {
    /// The answer on the loader's version.
    pub version: SetupReply,
    /// The answer on the loader's extensions.
    pub loader_extensions: SetupReply,
    /// The instance.
    pub instance: u64,
    /// The physical devices.
    pub devices: Vec<PhysicalDeviceInfo>,
    /// The properties of the picked one.
    pub properties: DeviceProperties,
    /// The answer on its extensions.
    pub device_extensions: SetupReply,
    /// The logical device.
    pub device: u64,
    /// The compute queue.
    pub compute: u64,
    /// The graphics queue, if there is one.
    pub graphics: u64,
    /// The transfer queue, if there is one.
    pub transfer: u64,
    /// The command pool.
    pub pool: u64,
}

/// The answer lists this extension.
pub open spec fn lists(reply: SetupReply, name: Seq<char>) -> bool {
    reply matches SetupReply::Names(names) && exists|i: int|
        0 <= i < names@.len() && (#[trigger] names@[i])@ == name
}

/// What the answer says of the loader's version: 1.1 where it says nothing.
pub open spec fn told_version(reply: SetupReply) -> u32 {
    if let SetupReply::Version(Some(version)) = reply {
        version
    } else {
        0x0040_1000
    }
}

/// Every extension with which a surface can be made that the answer lists, the
/// base first, then headless rendering, then the window systems.
pub open spec fn told_surfaces(reply: SetupReply) -> Seq<Seq<char>> {
    seq![
        "VK_KHR_surface"@,
        "VK_EXT_headless_surface"@,
        "VK_KHR_xlib_surface"@,
        "VK_KHR_xcb_surface"@,
        "VK_KHR_wayland_surface"@,
        "VK_KHR_win32_surface"@,
        "VK_KHR_android_surface"@,
        "VK_EXT_metal_surface"@,
    ].filter(|name: Seq<char>| lists(reply, name))
}

/// The swapchain extension, where the answer lists it.
pub open spec fn told_swapchain(reply: SetupReply) -> Seq<Seq<char>> {
    if lists(reply, "VK_KHR_swapchain"@) {
        seq!["VK_KHR_swapchain"@]
    } else {
        Seq::empty()
    }
}

/// Each family once: compute, then graphics where it is another, then transfer,
/// which always is.
pub open spec fn each_once(choice: QueueFamilyChoice) -> Seq<u32> {
    let first = seq![choice.compute];
    let second = match choice.graphics {
        Some(g) => if g == choice.compute {
            first
        } else {
            first.push(g)
        },
        None => first,
    };
    match choice.transfer {
        Some(t) => second.push(t),
        None => second,
    }
}

/// What is said until the physical device is known.
pub open spec fn said_known(prefer_graphics: bool, told: Told, physical_device: u64) -> Seq<
    (SetupRequest, SetupReply),
> {
    let said = Seq::empty().push((SetupRequest::LoadLibrary, SetupReply::Loaded)).push(
        (SetupRequest::QueryVersion, told.version),
    );
    let said = if prefer_graphics {
        said.push((SetupRequest::ListInstanceExtensions, told.loader_extensions))
    } else {
        said
    };
    said.push(
        (
            SetupRequest::CreateInstance {
                name: "zunesha"@,
                api_version: told_version(told.version),
                extensions: if prefer_graphics {
                    told_surfaces(told.loader_extensions)
                } else {
                    Seq::empty()
                },
            },
            SetupReply::Handle(told.instance),
        ),
    ).push(
        (
            SetupRequest::ListPhysicalDevices { instance: told.instance },
            SetupReply::Devices(told.devices),
        ),
    ).push(
        (
            SetupRequest::QueryPhysicalDevice { instance: told.instance, physical_device },
            SetupReply::Properties(told.properties),
        ),
    )
}

/// What is said until the logical device is created.
pub open spec fn said_created(
    prefer_graphics: bool,
    told: Told,
    physical_device: u64,
    choice: QueueFamilyChoice,
) -> Seq<(SetupRequest, SetupReply)> {
    let said = said_known(prefer_graphics, told, physical_device);
    let said = if prefer_graphics {
        said.push(
            (
                SetupRequest::ListDeviceExtensions { instance: told.instance, physical_device },
                told.device_extensions,
            ),
        )
    } else {
        said
    };
    said.push(
        (
            SetupRequest::CreateDevice {
                instance: told.instance,
                physical_device,
                families: each_once(choice),
                extensions: if prefer_graphics {
                    told_swapchain(told.device_extensions)
                } else {
                    Seq::empty()
                },
            },
            SetupReply::Handle(told.device),
        ),
    )
}

/// What is said until the device is built: the first queue of each family is
/// fetched, and a transient command pool is made on the compute family.
pub open spec fn said_built(
    prefer_graphics: bool,
    told: Told,
    physical_device: u64,
    choice: QueueFamilyChoice,
) -> Seq<(SetupRequest, SetupReply)> {
    let device = told.device;
    let said = said_created(prefer_graphics, told, physical_device, choice).push(
        (
            SetupRequest::FetchQueue { device, family: choice.compute, index: 0 },
            SetupReply::Handle(told.compute),
        ),
    );
    let said = match choice.graphics {
        Some(family) => said.push(
            (
                SetupRequest::FetchQueue { device, family, index: 0 },
                SetupReply::Handle(told.graphics),
            ),
        ),
        None => said,
    };
    let said = match choice.transfer {
        Some(family) => said.push(
            (
                SetupRequest::FetchQueue { device, family, index: 0 },
                SetupReply::Handle(told.transfer),
            ),
        ),
        None => said,
    };
    said.push(
        (
            SetupRequest::CreateCommandPool { device, family: choice.compute, flags: 0x1 },
            SetupReply::Handle(told.pool),
        ),
    )
}

/// A queue that was fetched, where there is a family for it.
pub open spec fn fetched(family: Option<u32>, raw: u64) -> Option<Queue> {
    match family {
        Some(family_index) => Some(Queue { raw, family_index }),
        None => None,
    }
}

/// Buffers go to device-local memory: because that was asked for, or because
/// nothing was asked for and the hardware is discrete (2) or has much of it.
pub open spec fn is_local(
    strategy: MemoryStrategy,
    device_type: i32,
    memory: MemoryProperties,
) -> bool {
    strategy is DeviceLocal || (strategy is Auto && (device_type == 2 || has_much_local_memory(
        memory,
    )))
}

/// The device that is built of what the driver told.
pub open spec fn told_device(
    strategy: MemoryStrategy,
    told: Told,
    physical_device: u64,
    choice: QueueFamilyChoice,
) -> VulkanDevice {
    VulkanDevice {
        instance: told.instance,
        device: told.device,
        physical_device,
        queues: Queues {
            compute: Queue { raw: told.compute, family_index: choice.compute },
            graphics: fetched(choice.graphics, told.graphics),
            transfer: fetched(choice.transfer, told.transfer),
        },
        compute_queue: told.compute,
        command_pool: told.pool,
        memory_properties: told.properties.memory,
        memory_strategy: strategy,
        uses_device_local: is_local(strategy, told.properties.device_type, told.properties.memory),
        limits: DeviceLimits {
            min_storage_buffer_offset_alignment:
                told.properties.min_storage_buffer_offset_alignment,
        },
        epoch: GpuEpochTracker::idle(),
        left_copies: 0,
    }
}

/// The answers are of the kind that the calls have.
pub open spec fn is_answer(told: Told) -> bool {
    &&& told.version is Version || told.version is Failed
    &&& told.loader_extensions is Names || told.loader_extensions is Failed
    &&& told.device_extensions is Names || told.device_extensions is Failed
    &&& told.properties.memory.wf()
}

/// The surface extensions that are enabled are those that are listed.
proof fn lemma_surfaces(reply: SetupReply, available: Option<Vec<String>>)
    requires
        match reply {
            SetupReply::Names(names) => available == Some(names),
            _ => available is None,
        },
    ensures
        enabled_surface_extensions(available) == told_surfaces(reply),
{
    broadcast use vstd::seq_lib::group_filter_ensures;

    let keeps = |name: Seq<char>| lists(reply, name);
    if let SetupReply::Names(names) = reply {
        let same = |name: Seq<char>| reports(names@, name);
        assert forall|name: Seq<char>| #[trigger] keeps(name) == same(name) by {
            assert(lists(reply, name) == reports(names@, name));
        }
        assert(keeps =~= same);
    } else {
        let kept = told_surfaces(reply);
        if kept.len() > 0 {
            assert(keeps(kept[0]));
        }
        assert(kept =~= Seq::empty());
    }
}

/// The families that are requested, where transfers have one of their own.
proof fn lemma_each_once(choice: QueueFamilyChoice)
    requires
        choice.transfer != Some(choice.compute),
        choice.transfer is Some ==> choice.transfer != choice.graphics,
    ensures
        choice.families() == each_once(choice),
{
    let first = seq![choice.compute];
    assert(forall|f: u32| first.contains(f) ==> f == choice.compute);
    assert(first.contains(choice.compute)) by {
        assert(first[0] == choice.compute);
    }
    if let Some(g) = choice.graphics {
        if g != choice.compute {
            let second = first.push(g);
            assert(forall|f: u32| second.contains(f) ==> f == choice.compute || f == g);
        }
    }
}

/// How a building goes until the physical device is known.
proof fn lemma_known(start: Build, told: Told, index: int, choice: QueueFamilyChoice)
    requires
        start.phase is Loading,
        is_answer(told),
        pick_of(told.devices@, start.prefer_graphics) == Ok::<_, ErrorView>(
            (told.devices@[index].handle, choice),
        ),
    ensures
        talk(start, said_known(start.prefer_graphics, told, told.devices@[index].handle)) == Some(
            Outcome::<Build, VulkanDevice>::Pending({
                let adapter = Adapter {
                    instance: told.instance,
                    physical_device: told.devices@[index].handle,
                    choice,
                    properties: told.properties,
                };
                if start.prefer_graphics {
                    start.at(BuildPhase::ListingDeviceExtensions { adapter })
                } else {
                    start.extensions_settled(adapter, false)
                }
            }),
        ),
{
    let physical_device = told.devices@[index].handle;
    let instance = told.instance;
    let api_version = told_version(told.version);
    let said = Seq::<(SetupRequest, SetupReply)>::empty();
    lemma_talk_goes_on(start, said, start, SetupRequest::LoadLibrary, SetupReply::Loaded);
    let said = said.push((SetupRequest::LoadLibrary, SetupReply::Loaded));
    let now = start.at(BuildPhase::Versioning);
    lemma_talk_goes_on(start, said, now, SetupRequest::QueryVersion, told.version);
    let said = said.push((SetupRequest::QueryVersion, told.version));
    let available = if start.prefer_graphics {
        match told.loader_extensions {
            SetupReply::Names(names) => Some(names),
            _ => None,
        }
    } else {
        None
    };
    let said = if start.prefer_graphics {
        lemma_surfaces(told.loader_extensions, available);
        let now = start.at(BuildPhase::ListingInstanceExtensions { api_version });
        let request = SetupRequest::ListInstanceExtensions;
        lemma_talk_goes_on(start, said, now, request, told.loader_extensions);
        said.push((request, told.loader_extensions))
    } else {
        said
    };
    let now = start.at(BuildPhase::CreatingInstance { api_version, available });
    let request = SetupRequest::CreateInstance {
        name: "zunesha"@,
        api_version,
        extensions: if start.prefer_graphics {
            told_surfaces(told.loader_extensions)
        } else {
            Seq::empty()
        },
    };
    lemma_talk_goes_on(start, said, now, request, SetupReply::Handle(instance));
    let said = said.push((request, SetupReply::Handle(instance)));
    let now = start.at(BuildPhase::ListingDevices { instance });
    let request = SetupRequest::ListPhysicalDevices { instance };
    lemma_talk_goes_on(start, said, now, request, SetupReply::Devices(told.devices));
    let said = said.push((request, SetupReply::Devices(told.devices)));
    let now = start.at(BuildPhase::Querying { instance, physical_device, choice });
    let request = SetupRequest::QueryPhysicalDevice { instance, physical_device };
    lemma_talk_goes_on(start, said, now, request, SetupReply::Properties(told.properties));
}

/// How a building goes once the physical device is known.
proof fn lemma_built(start: Build, told: Told, index: int, choice: QueueFamilyChoice)
    requires
        start.phase is Loading,
        is_answer(told),
        pick_of(told.devices@, start.prefer_graphics) == Ok::<_, ErrorView>(
            (told.devices@[index].handle, choice),
        ),
        choice.transfer != Some(choice.compute),
        choice.transfer is Some ==> choice.transfer != choice.graphics,
    ensures
        talk(start, said_built(start.prefer_graphics, told, told.devices@[index].handle, choice))
            == Some(
            Outcome::<Build, VulkanDevice>::Finished(
                Ok(told_device(start.strategy, told, told.devices@[index].handle, choice)),
            ),
        ),
{
    let physical_device = told.devices@[index].handle;
    let (instance, device, properties) = (told.instance, told.device, told.properties);
    let adapter = Adapter { instance, physical_device, choice, properties };
    lemma_known(start, told, index, choice);
    let said = said_known(start.prefer_graphics, told, physical_device);
    let swapchain = start.prefer_graphics && lists(told.device_extensions, "VK_KHR_swapchain"@);
    if let SetupReply::Names(names) = told.device_extensions {
        assert(reports(names@, "VK_KHR_swapchain"@) == lists(
            told.device_extensions,
            "VK_KHR_swapchain"@,
        ));
    }
    let said = if start.prefer_graphics {
        let now = start.at(BuildPhase::ListingDeviceExtensions { adapter });
        let request = SetupRequest::ListDeviceExtensions { instance, physical_device };
        lemma_talk_goes_on(start, said, now, request, told.device_extensions);
        said.push((request, told.device_extensions))
    } else {
        said
    };
    lemma_each_once(choice);
    let creation = new_logical(instance, physical_device, choice, swapchain);
    let now = start.at(BuildPhase::CreatingDevice { adapter, creation });
    let request = SetupRequest::CreateDevice {
        instance,
        physical_device,
        families: each_once(choice),
        extensions: if start.prefer_graphics {
            told_swapchain(told.device_extensions)
        } else {
            Seq::empty()
        },
    };
    lemma_talk_goes_on(start, said, now, request, SetupReply::Handle(device));
    let said = said.push((request, SetupReply::Handle(device)));
    let phase = LogicalPhase::FetchingCompute { device };
    let now = start.at(BuildPhase::CreatingDevice { adapter, creation: creation.at(phase) });
    let request = SetupRequest::FetchQueue { device, family: choice.compute, index: 0 };
    let compute = told.compute;
    lemma_talk_goes_on(start, said, now, request, SetupReply::Handle(compute));
    let said = said.push((request, SetupReply::Handle(compute)));
    let said = match choice.graphics {
        Some(family) => {
            let phase = LogicalPhase::FetchingGraphics { device, compute, family };
            let creation = creation.at(phase);
            let now = start.at(BuildPhase::CreatingDevice { adapter, creation });
            let request = SetupRequest::FetchQueue { device, family, index: 0 };
            lemma_talk_goes_on(start, said, now, request, SetupReply::Handle(told.graphics));
            said.push((request, SetupReply::Handle(told.graphics)))
        },
        None => said,
    };
    let graphics = fetched(choice.graphics, told.graphics);
    let said = match choice.transfer {
        Some(family) => {
            let phase = LogicalPhase::FetchingTransfer { device, compute, graphics, family };
            let creation = creation.at(phase);
            let now = start.at(BuildPhase::CreatingDevice { adapter, creation });
            let request = SetupRequest::FetchQueue { device, family, index: 0 };
            lemma_talk_goes_on(start, said, now, request, SetupReply::Handle(told.transfer));
            said.push((request, SetupReply::Handle(told.transfer)))
        },
        None => said,
    };
    let queues = Queues {
        compute: Queue { raw: compute, family_index: choice.compute },
        graphics,
        transfer: fetched(choice.transfer, told.transfer),
    };
    let logical = LogicalDevice { device, queues, compute_queue: compute };
    let now = start.at(BuildPhase::CreatingPool { adapter, logical });
    let request = SetupRequest::CreateCommandPool { device, family: choice.compute, flags: 0x1 };
    lemma_talk_goes_on(start, said, now, request, SetupReply::Handle(told.pool));
    if has_much_local_memory(properties.memory) {
        let i = choose|i: int|
            0 <= i < properties.memory.memory_heap_count && (
            #[trigger] properties.memory.memory_heaps[i]).flags & 0x1 == 0x1
                && properties.memory.memory_heaps[i].size > 0x4000_0000;
        assert(properties.memory.memory_heaps[i].size > 0x4000_0000);
    }
}

/// Whatever the driver tells, the building of a device makes these calls and no
/// others, and ends in a device that is what was told: the device that goes
/// before all others, the families that serve best, exactly those presentation
/// extensions that were asked for and are listed, a queue of each family, memory
/// and limits as reported, the placement that was asked for or that the hardware
/// calls for, and nothing in flight.
pub proof fn law_building_makes_these_calls(
    request: InitRequest,
    start: Build,
    told: Told,
    index: int,
    choice: QueueFamilyChoice,
)
    requires
        call_ensures(VulkanDevice::init_with, (request,), start),
        is_answer(told),
        is_pick(told.devices@, request.prefer_graphics, index),
        serves_best(told.devices@[index].families@, choice),
        told.devices@[index].families@.len() <= 0x1_0000_0000,
    ensures
        talk(start, said_built(request.prefer_graphics, told, told.devices@[index].handle, choice))
            == Some(
            Outcome::<Build, VulkanDevice>::Finished(
                Ok(told_device(request.memory, told, told.devices@[index].handle, choice)),
            ),
        ),
{
    let families = told.devices@[index].families@;
    lemma_pick_by_numbers(told.devices@, request.prefer_graphics, index);
    let found = choice_of(families).unwrap();
    lemma_choice_serves_best(families, found);
    law_best_choice_is_unique(families, found, choice);
    law_choice_matches_hardware(families, choice);
    if choice.transfer is Some {
        law_transfer_is_separate(families, choice);
    }
    lemma_built(start, told, index, choice);
}

/// Initialising the best compute device, or with a memory strategy, is
/// initialising without a preference for graphics.
pub proof fn law_initialisations_agree(
    plain: Build,
    strategy: MemoryStrategy,
    placed: Build,
    automatic: Build,
    without_graphics: Build,
)
    requires
        call_ensures(VulkanDevice::init, (), plain),
        call_ensures(VulkanDevice::init_with_strategy, (strategy,), placed),
        call_ensures(
            VulkanDevice::init_with,
            (InitRequest { memory: MemoryStrategy::Auto, prefer_graphics: false },),
            automatic,
        ),
        call_ensures(
            VulkanDevice::init_with,
            (InitRequest { memory: strategy, prefer_graphics: false },),
            without_graphics,
        ),
    ensures
        plain == automatic,
        placed == without_graphics,
{
}

/// What an error calls a call that can fail for good.
pub open spec fn name_of(request: SetupRequest) -> Option<Seq<char>> {
    match request {
        SetupRequest::CreateInstance { .. } => Some("vkCreateInstance"@),
        SetupRequest::ListPhysicalDevices { .. } => Some("vkEnumeratePhysicalDevices"@),
        SetupRequest::CreateDevice { .. } => Some("vkCreateDevice"@),
        SetupRequest::CreateCommandPool { .. } => Some("vkCreateCommandPool"@),
        _ => None,
    }
}

/// A failed call ends the building with an error that names the call and the
/// reason, except that a loader without a version or a list of extensions, and
/// a device without one, are gone on with. A library that cannot be loaded is
/// reported as it is.
pub proof fn law_failed_call_ends_the_building(build: Build, code: i32, reason: String)
    ensures
        match name_of(build.wanted()) {
            Some(name) => build.step(SetupReply::Failed(code)) == Outcome::<
                Build,
                VulkanDevice,
            >::Finished(
                Err(ErrorView::InitFailed(name + ": "@ + vk_result_message(code))),
            ),
            None => build.step(SetupReply::Failed(code)) is Pending,
        },
        build.wanted() is LoadLibrary ==> build.step(SetupReply::LoadFailed(reason)) == Outcome::<
            Build,
            VulkanDevice,
        >::Finished(Err(ErrorView::InitFailed(reason@))),
{
}

/// The building fails only where a call failed, the library could not be loaded,
/// or no listed device computes.
pub proof fn law_building_fails_only_for_a_call_or_its_devices(
    build: Build,
    reply: SetupReply,
    error: ErrorView,
)
    requires
        build.step(reply) == Outcome::<Build, VulkanDevice>::Finished(Err(error)),
    ensures
        reply is Failed || reply is LoadFailed || {
            &&& reply matches SetupReply::Devices(devices) && forall|i: int|
                0 <= i < devices@.len() ==> !is_fit(#[trigger] devices@[i])
            &&& error == ErrorView::InitFailed("no Vulkan device with a compute queue found"@)
        },
{
    if let SetupReply::Devices(devices) = reply {
        law_picks_iff_some_device_computes(devices@, build.prefer_graphics);
        assert forall|i: int| 0 <= i < devices@.len() implies !is_fit(#[trigger] devices@[i]) by {
            lemma_fit_iff_computes(devices@[i]);
        }
    }
}

/// Once the extensions of the picked device are listed, the swapchain extension
/// is enabled exactly where it is among them, whatever else the device has.
pub proof fn law_swapchain_is_enabled_where_it_is_listed(build: Build, reply: SetupReply)
    requires
        build.wf(),
        build.wanted() is ListDeviceExtensions,
        reply is Names || reply is Failed,
    ensures
        build.prefer_graphics,
        build.step(reply) matches Outcome::<Build, VulkanDevice>::Pending(next) && next.wanted()
            matches SetupRequest::CreateDevice { extensions, .. } && forall|name: Seq<char>|
            #[trigger] extensions.contains(name) <==> name == "VK_KHR_swapchain"@ && lists(
                reply,
                name,
            ),
{
    let swapchain = lists(reply, "VK_KHR_swapchain"@);
    if let SetupReply::Names(names) = reply {
        assert(reports(names@, "VK_KHR_swapchain"@) == swapchain);
    }
    let next = build.step(reply)->Pending_0;
    let extensions = next.wanted()->CreateDevice_extensions;
    if swapchain {
        assert(extensions[0] == "VK_KHR_swapchain"@);
    }
}

/// A reply to another call leaves the building where it stands.
pub proof fn law_stray_reply_changes_nothing(build: Build, reply: SetupReply)
    requires
        !setup_answered_by(build.wanted(), reply),
    ensures
        build.step(reply) == Outcome::<Build, VulkanDevice>::Pending(build),
{
}

} // verus!
