//! Which queue families and which physical device are chosen, in terms of the
//! numbers that the driver reports of them.

use super::adapter::{
    device_type_score, is_best, law_picks_iff_some_device_computes, lemma_best_is_unique, pick_of,
    pick_physical_device, PhysicalDeviceInfo,
};
use super::families::{
    any_offers, choice_of, law_choice_matches_hardware, law_dedicated_compute_is_isolated,
    law_only_compute_is_required, law_unified_hardware_falls_back, select_queue_families,
    Capability, QueueFamilyChoice, QueueFamilyProperties,
};
use crate::error::{DeviceError, ErrorView};
use vstd::prelude::*;

verus! {

/// Family `index` takes graphics work.
pub open spec fn draws(families: Seq<QueueFamilyProperties>, index: int) -> bool {
    0 <= index < families.len() && families[index].queue_flags & 0x1 == 0x1
}

/// Family `index` takes compute work.
pub open spec fn computes(families: Seq<QueueFamilyProperties>, index: int) -> bool {
    0 <= index < families.len() && families[index].queue_flags & 0x2 == 0x2
}

/// Family `index` takes transfers.
pub open spec fn transfers(families: Seq<QueueFamilyProperties>, index: int) -> bool {
    0 <= index < families.len() && families[index].queue_flags & 0x4 == 0x4
}

/// Family `index` takes compute work and no graphics work.
pub open spec fn only_computes(families: Seq<QueueFamilyProperties>, index: int) -> bool {
    computes(families, index) && !draws(families, index)
}

/// Family `index` takes transfers, and neither compute nor graphics work.
pub open spec fn only_transfers(families: Seq<QueueFamilyProperties>, index: int) -> bool {
    transfers(families, index) && !computes(families, index) && !draws(families, index)
}

/// `chosen` is the first family of which `is` holds, if there is one.
pub open spec fn is_first_of(chosen: Option<u32>, is: spec_fn(int) -> bool) -> bool {
    match chosen {
        Some(c) => is(c as int) && forall|j: int| #[trigger] is(j) ==> c <= j,
        None => forall|j: int| !#[trigger] is(j),
    }
}

/// Each capability is on the family that serves it best: compute on the first
/// that only computes or, where none does, on the first that computes; graphics
/// on the first that draws; transfers on the first that only transfers.
pub open spec fn serves_best(
    families: Seq<QueueFamilyProperties>,
    choice: QueueFamilyChoice,
) -> bool {
    &&& if exists|i: int| only_computes(families, i) {
        is_first_of(Some(choice.compute), |i: int| only_computes(families, i))
    } else {
        is_first_of(Some(choice.compute), |i: int| computes(families, i))
    }
    &&& is_first_of(choice.graphics, |i: int| draws(families, i))
    &&& is_first_of(choice.transfer, |i: int| only_transfers(families, i))
}

/// Capabilities in terms of flags.
proof fn lemma_capabilities(families: Seq<QueueFamilyProperties>)
    ensures
        forall|i: int|
            0 <= i < families.len() ==> {
                let family = #[trigger] families[i];
                &&& Capability::Compute.offered_by(family) == computes(families, i)
                &&& Capability::DedicatedCompute.offered_by(family) == only_computes(families, i)
                &&& Capability::Graphics.offered_by(family) == draws(families, i)
                &&& Capability::DedicatedTransfer.offered_by(family) == only_transfers(families, i)
            },
        any_offers(families, Capability::Compute) <==> exists|i: int| computes(families, i),
        any_offers(families, Capability::DedicatedCompute) <==> exists|i: int|
            only_computes(families, i),
        any_offers(families, Capability::Graphics) <==> exists|i: int| draws(families, i),
        any_offers(families, Capability::DedicatedTransfer) <==> exists|i: int|
            only_transfers(families, i),
{
    if exists|i: int| computes(families, i) {
        let i = choose|i: int| computes(families, i);
        assert(Capability::Compute.offered_by(families[i]));
    }
    if exists|i: int| only_computes(families, i) {
        let i = choose|i: int| only_computes(families, i);
        assert(Capability::DedicatedCompute.offered_by(families[i]));
    }
    if exists|i: int| draws(families, i) {
        let i = choose|i: int| draws(families, i);
        assert(Capability::Graphics.offered_by(families[i]));
    }
    if exists|i: int| only_transfers(families, i) {
        let i = choose|i: int| only_transfers(families, i);
        assert(Capability::DedicatedTransfer.offered_by(families[i]));
    }
    if any_offers(families, Capability::Compute) {
        let i = choose|i: int|
            0 <= i < families.len() && Capability::Compute.offered_by(#[trigger] families[i]);
        assert(computes(families, i));
    }
    if any_offers(families, Capability::DedicatedCompute) {
        let i = choose|i: int|
            0 <= i < families.len() && Capability::DedicatedCompute.offered_by(
                #[trigger] families[i],
            );
        assert(only_computes(families, i));
    }
    if any_offers(families, Capability::Graphics) {
        let i = choose|i: int|
            0 <= i < families.len() && Capability::Graphics.offered_by(#[trigger] families[i]);
        assert(draws(families, i));
    }
    if any_offers(families, Capability::DedicatedTransfer) {
        let i = choose|i: int|
            0 <= i < families.len() && Capability::DedicatedTransfer.offered_by(
                #[trigger] families[i],
            );
        assert(only_transfers(families, i));
    }
}

/// The families that are chosen serve best.
pub proof fn lemma_choice_serves_best(
    families: Seq<QueueFamilyProperties>,
    choice: QueueFamilyChoice,
)
    requires
        families.len() <= 0x1_0000_0000,
        choice_of(families) == Some(choice),
    ensures
        serves_best(families, choice),
{
    lemma_capabilities(families);
    law_choice_matches_hardware(families, choice);
    if any_offers(families, Capability::DedicatedCompute) {
        law_dedicated_compute_is_isolated(families, choice);
        assert(is_first_of(Some(choice.compute), |i: int| only_computes(families, i)));
    } else {
        law_unified_hardware_falls_back(families, choice);
        assert(is_first_of(Some(choice.compute), |i: int| computes(families, i)));
    }
    let graphics = |i: int| draws(families, i);
    let transfer = |i: int| only_transfers(families, i);
    if choice.graphics is None {
        assert forall|j: int| !#[trigger] graphics(j) by {
            assert(!draws(families, j));
        }
    }
    if choice.transfer is None {
        assert forall|j: int| !#[trigger] transfer(j) by {
            assert(!only_transfers(families, j));
        }
    }
    assert(is_first_of(choice.graphics, graphics));
    assert(is_first_of(choice.transfer, transfer));
}

/// Queue families are selected exactly where some family computes, and each
/// capability is on the family that serves it best. A driver numbers its
/// families in 32 bits.
pub proof fn law_selected_families_serve_best(
    families: &[QueueFamilyProperties],
    choice: Option<QueueFamilyChoice>,
)
    requires
        families@.len() <= 0x1_0000_0000,
        call_ensures(select_queue_families, (families,), choice),
    ensures
        choice is Some <==> exists|i: int| computes(families@, i),
        choice matches Some(c) ==> serves_best(families@, c),
{
    lemma_capabilities(families@);
    law_only_compute_is_required(families@);
    if let Some(c) = choice {
        lemma_choice_serves_best(families@, c);
    }
}

/// Only one choice serves best.
pub proof fn law_best_choice_is_unique(
    families: Seq<QueueFamilyProperties>,
    one: QueueFamilyChoice,
    other: QueueFamilyChoice,
)
    requires
        serves_best(families, one),
        serves_best(families, other),
    ensures
        one == other,
{
    let alone = |i: int| only_computes(families, i);
    let compute = |i: int| computes(families, i);
    let graphics = |i: int| draws(families, i);
    let transfer = |i: int| only_transfers(families, i);
    assert(one.compute == other.compute) by {
        assert(alone(one.compute as int) == only_computes(families, one.compute as int));
        assert(alone(other.compute as int) == only_computes(families, other.compute as int));
        assert(compute(one.compute as int) == computes(families, one.compute as int));
        assert(compute(other.compute as int) == computes(families, other.compute as int));
    }
    assert(is_first_of(one.graphics, graphics) && is_first_of(other.graphics, graphics));
    assert(is_first_of(one.transfer, transfer) && is_first_of(other.transfer, transfer));
    assert(one.graphics == other.graphics);
    assert(one.transfer == other.transfer);
}

/// The device has a family that computes.
pub open spec fn is_fit(device: PhysicalDeviceInfo) -> bool {
    exists|i: int| computes(device.families@, i)
}

/// The device has a family that draws.
pub open spec fn is_graphical(device: PhysicalDeviceInfo) -> bool {
    exists|i: int| draws(device.families@, i)
}

/// A device of type `one` is of a better kind than one of type `other`, as
/// `VkPhysicalDeviceType` numbers: discrete (2) before integrated (1) before
/// virtual (3) before processor (4) before anything else.
pub open spec fn is_better_kind(one: i32, other: i32) -> bool {
    ||| one == 2 && other != 2
    ||| one == 1 && other != 2 && other != 1
    ||| one == 3 && other != 2 && other != 1 && other != 3
    ||| one == 4 && other != 2 && other != 1 && other != 3 && other != 4
}

/// `one` goes before `other`: where graphics is preferred, a device that draws
/// goes before one that does not; among equals in that, or where graphics is not
/// preferred, the better kind does.
pub open spec fn goes_before(
    one: PhysicalDeviceInfo,
    other: PhysicalDeviceInfo,
    prefer_graphics: bool,
) -> bool {
    if prefer_graphics && is_graphical(one) != is_graphical(other) {
        is_graphical(one)
    } else {
        is_better_kind(one.device_type, other.device_type)
    }
}

/// Device `index` is fit, no fit device goes before it, and it goes before
/// every fit device that is listed earlier.
pub open spec fn is_pick(
    devices: Seq<PhysicalDeviceInfo>,
    prefer_graphics: bool,
    index: int,
) -> bool {
    &&& 0 <= index < devices.len()
    &&& is_fit(devices[index])
    &&& forall|j: int|
        0 <= j < devices.len() && is_fit(#[trigger] devices[j]) ==> {
            &&& !goes_before(devices[j], devices[index], prefer_graphics)
            &&& j < index ==> goes_before(devices[index], devices[j], prefer_graphics)
        }
}

/// Which device goes before which, in scores.
proof fn lemma_scores(one: PhysicalDeviceInfo, other: PhysicalDeviceInfo, prefer_graphics: bool)
    requires
        is_fit(one),
        is_fit(other),
    ensures
        one.eligible(),
        other.eligible(),
        one.score(prefer_graphics) > other.score(prefer_graphics) <==> goes_before(
            one,
            other,
            prefer_graphics,
        ),
{
    lemma_graphics_by_flags(one);
    lemma_graphics_by_flags(other);
}

/// A device is eligible where it is fit, and has graphics where it draws.
proof fn lemma_graphics_by_flags(device: PhysicalDeviceInfo)
    ensures
        device.eligible() <==> is_fit(device),
        choice_of(device.families@) matches Some(choice) ==> (choice.graphics is Some
            <==> is_graphical(device)),
{
    let families = device.families@;
    lemma_capabilities(families);
    law_only_compute_is_required(families);
    if let Some(choice) = choice_of(families) {
        if is_graphical(device) {
            super::families::lemma_family_found_iff_offered(families, Capability::Graphics);
        }
        if choice.graphics is Some {
            super::families::lemma_family_found_iff_offered(families, Capability::Graphics);
        }
    }
}

/// A device is fit where it offers compute.
pub proof fn lemma_fit_iff_computes(device: PhysicalDeviceInfo)
    ensures
        is_fit(device) <==> any_offers(device.families@, Capability::Compute),
{
    lemma_capabilities(device.families@);
}

/// The best device by score is the pick.
proof fn lemma_best_is_pick(devices: Seq<PhysicalDeviceInfo>, prefer_graphics: bool, index: int)
    ensures
        is_best(devices, prefer_graphics, index) <==> is_pick(devices, prefer_graphics, index),
{
    if 0 <= index < devices.len() {
        lemma_graphics_by_flags(devices[index]);
        if is_fit(devices[index]) {
            assert forall|j: int| 0 <= j < devices.len() implies ((#[trigger] devices[j]).eligible()
                <==> is_fit(devices[j])) && (is_fit(devices[j]) ==> {
                &&& (devices[j].score(prefer_graphics) <= devices[index].score(prefer_graphics)
                    <==> !goes_before(devices[j], devices[index], prefer_graphics))
                &&& (devices[j].score(prefer_graphics) < devices[index].score(prefer_graphics)
                    <==> goes_before(devices[index], devices[j], prefer_graphics))
            }) by {
                lemma_graphics_by_flags(devices[j]);
                if is_fit(devices[j]) {
                    lemma_scores(devices[j], devices[index], prefer_graphics);
                    lemma_scores(devices[index], devices[j], prefer_graphics);
                }
            }
        }
    }
}

/// What picking answers, by what the driver lists.
pub proof fn lemma_pick_by_numbers(
    devices: Seq<PhysicalDeviceInfo>,
    prefer_graphics: bool,
    index: int,
)
    requires
        is_pick(devices, prefer_graphics, index),
    ensures
        choice_of(devices[index].families@) is Some,
        pick_of(devices, prefer_graphics) == Ok::<_, ErrorView>(
            (devices[index].handle, choice_of(devices[index].families@).unwrap()),
        ),
{
    lemma_best_is_pick(devices, prefer_graphics, index);
    lemma_best_is_unique(devices, prefer_graphics, index);
}

/// A device is picked exactly where some device computes. It is listed, no
/// device that computes goes before it, and it comes with the families that
/// serve it best: graphics decides first where it is preferred, then the kind,
/// then the driver's order.
pub proof fn law_picked_device_goes_before_all(
    devices: &Vec<PhysicalDeviceInfo>,
    prefer_graphics: bool,
    picked: Result<(u64, QueueFamilyChoice), DeviceError>,
)
    requires
        call_ensures(
            pick_physical_device,
            (Ok::<&Vec<PhysicalDeviceInfo>, i32>(devices), prefer_graphics),
            picked,
        ),
        forall|i: int|
            0 <= i < devices@.len() ==> (#[trigger] devices@[i]).families@.len() <= 0x1_0000_0000,
    ensures
        picked is Ok <==> exists|i: int|
            0 <= i < devices@.len() && is_fit(#[trigger] devices@[i]),
        match picked {
            Ok((handle, choice)) => exists|i: int| #[trigger]
                is_pick(devices@, prefer_graphics, i) && devices@[i].handle == handle
                    && serves_best(devices@[i].families@, choice),
            Err(error) => error@ == ErrorView::InitFailed(
                "no Vulkan device with a compute queue found"@,
            ),
        },
{
    let all = devices@;
    law_picks_iff_some_device_computes(all, prefer_graphics);
    assert forall|i: int| 0 <= i < all.len() implies (is_fit(#[trigger] all[i]) <==> any_offers(
        all[i].families@,
        Capability::Compute,
    )) by {
        lemma_capabilities(all[i].families@);
    }
    if let Ok((handle, choice)) = picked {
        let i = choose|i: int| is_best(all, prefer_graphics, i);
        assert(is_best(all, prefer_graphics, i));
        lemma_best_is_pick(all, prefer_graphics, i);
        lemma_choice_serves_best(all[i].families@, choice);
        assert(is_pick(all, prefer_graphics, i) && all[i].handle == handle);
    }
}

/// With the preference the kind decides among equals in graphics, as it does
/// among all devices without it: no device that computes, and draws if the
/// picked one does, is of a better kind.
pub proof fn law_kind_decides_among_equals(
    devices: Seq<PhysicalDeviceInfo>,
    prefer_graphics: bool,
    picked: int,
    other: int,
)
    requires
        is_best(devices, prefer_graphics, picked),
        0 <= other < devices.len(),
        is_fit(devices[other]),
        !prefer_graphics || is_graphical(devices[other]) == is_graphical(devices[picked]),
    ensures
        !is_better_kind(devices[other].device_type, devices[picked].device_type),
{
    lemma_best_is_pick(devices, prefer_graphics, picked);
    assert(is_fit(devices[other]));
}

/// Without a list of devices none is picked, and the error tells why.
pub proof fn law_failed_listing_picks_nothing(
    code: i32,
    prefer_graphics: bool,
    picked: Result<(u64, QueueFamilyChoice), DeviceError>,
)
    requires
        call_ensures(
            pick_physical_device,
            (Err::<&Vec<PhysicalDeviceInfo>, i32>(code), prefer_graphics),
            picked,
        ),
    ensures
        picked matches Err(error) && error@ == ErrorView::InitFailed(
            "vkEnumeratePhysicalDevices"@ + ": "@ + super::abi::vk_result_message(code),
        ),
{
}

/// The better kind has the higher score, and only that.
pub proof fn law_score_orders_kinds(one: i32, other: i32, first: i32, second: i32)
    requires
        call_ensures(device_type_score, (one,), first),
        call_ensures(device_type_score, (other,), second),
    ensures
        first > second <==> is_better_kind(one, other),
{
}

} // verus!
