//! Physical device selection.

use super::abi::{device_kind, kind_of, vk_result_message, DeviceKind};
use super::families::{
    any_offers, choice_of, law_only_compute_is_required, select_queue_families, Capability,
    QueueFamilyChoice, QueueFamilyProperties,
};
use crate::error::{failure_text, vk_failure_message, DeviceError, ErrorView};
use vstd::prelude::*;
use vstd::string::StringExecFns;

verus! {

/// What a driver reports of a physical device before one is chosen.
#[derive(Debug)]
pub struct PhysicalDeviceInfo {
    /// `VkPhysicalDevice` handle.
    pub handle: u64,
    /// `VkPhysicalDeviceType` number.
    pub device_type: i32,
    /// The device's queue families, in the driver's order.
    pub families: Vec<QueueFamilyProperties>,
}

/// What a graphics-capable device gains where graphics is preferred: more than
/// any difference between kinds.
pub const GRAPHICS_BONUS: i32 = 100;

/// How a kind of device ranks: discrete, integrated, virtual, processor, other.
pub open spec fn rank(kind: DeviceKind) -> i32 {
    match kind {
        DeviceKind::Discrete => 4,
        DeviceKind::Integrated => 3,
        DeviceKind::Virtual => 2,
        DeviceKind::Cpu => 1,
        DeviceKind::Other => 0,
    }
}

/// Physical-device preference score by the `VkPhysicalDeviceType` number.
pub fn device_type_score(device_type: i32) -> (score: i32)
    ensures
        score == rank(kind_of(device_type)),
{
    match device_kind(device_type) {
        DeviceKind::Discrete => 4,
        DeviceKind::Integrated => 3,
        DeviceKind::Virtual => 2,
        DeviceKind::Cpu => 1,
        DeviceKind::Other => 0,
    }
}

impl PhysicalDeviceInfo {
    /// The device has a compute queue, and so can be picked.
    pub open spec fn eligible(self) -> bool {
        choice_of(self.families@) is Some
    }

    /// The device's score under the given preference.
    pub open spec fn score(self, prefer_graphics: bool) -> int {
        let draws = choice_of(self.families@) matches Some(choice) && choice.graphics is Some;
        rank(kind_of(self.device_type)) + if prefer_graphics && draws {
            GRAPHICS_BONUS as int
        } else {
            0
        }
    }
}

/// Device `index` is eligible, none scores higher, and none before it scores as
/// high.
pub open spec fn is_best(
    devices: Seq<PhysicalDeviceInfo>,
    prefer_graphics: bool,
    index: int,
) -> bool {
    &&& 0 <= index < devices.len()
    &&& devices[index].eligible()
    &&& forall|j: int|
        0 <= j < devices.len() && (#[trigger] devices[j]).eligible() ==> {
            &&& devices[j].score(prefer_graphics) <= devices[index].score(prefer_graphics)
            &&& j < index ==> devices[j].score(prefer_graphics) < devices[index].score(
                prefer_graphics,
            )
        }
}

/// The best device, if any is eligible.
pub open spec fn best_device(devices: Seq<PhysicalDeviceInfo>, prefer_graphics: bool) -> Option<
    int,
> {
    if exists|i: int| is_best(devices, prefer_graphics, i) {
        Some(choose|i: int| is_best(devices, prefer_graphics, i))
    } else {
        None
    }
}

/// A best device is the only one.
pub proof fn lemma_best_is_unique(
    devices: Seq<PhysicalDeviceInfo>,
    prefer_graphics: bool,
    index: int,
)
    requires
        is_best(devices, prefer_graphics, index),
    ensures
        best_device(devices, prefer_graphics) == Some(index),
{
    let other = choose|i: int| is_best(devices, prefer_graphics, i);
    assert(is_best(devices, prefer_graphics, other));
    assert(devices[other].eligible() && devices[index].eligible());
}

/// What selection reports when no device has a compute queue.
pub open spec fn no_compute_device() -> ErrorView {
    ErrorView::InitFailed("no Vulkan device with a compute queue found"@)
}

/// What selection answers for a list of devices.
pub open spec fn pick_of(devices: Seq<PhysicalDeviceInfo>, prefer_graphics: bool) -> Result<
    (u64, QueueFamilyChoice),
    ErrorView,
> {
    match best_device(devices, prefer_graphics) {
        Some(i) => Ok((devices[i].handle, choice_of(devices[i].families@).unwrap())),
        None => Err(no_compute_device()),
    }
}

/// What selection answers when the devices could not be listed.
pub open spec fn enumeration_failed(code: i32) -> ErrorView {
    ErrorView::InitFailed(failure_text("vkEnumeratePhysicalDevices"@, vk_result_message(code)))
}

/// Picks the best physical device that has a compute queue, and its queue
/// families. `enumerated` is what the driver listed, or the result code with
/// which it failed.
///
/// With `prefer_graphics`, graphics-capable devices win over compute-only ones;
/// where no device has graphics, the best compute device still wins.
pub fn pick_physical_device(
    enumerated: Result<&Vec<PhysicalDeviceInfo>, i32>,
    prefer_graphics: bool,
) -> (picked: Result<(u64, QueueFamilyChoice), DeviceError>)
    ensures
        match enumerated {
            Ok(devices) => match picked {
                Ok(found) => pick_of(devices@, prefer_graphics) == Ok::<_, ErrorView>(found),
                Err(error) => pick_of(devices@, prefer_graphics) == Err::<
                    (u64, QueueFamilyChoice),
                    _,
                >(error@),
            },
            Err(code) => picked matches Err(error) && error@ == enumeration_failed(code),
        },
{
    let devices = match enumerated {
        Ok(devices) => devices,
        Err(code) => {
            return Err(
                DeviceError::InitFailed(vk_failure_message("vkEnumeratePhysicalDevices", code)),
            );
        },
    };
    let mut best_score: i32 = -1;
    let mut best: Option<(u64, QueueFamilyChoice)> = None;
    let ghost mut best_index: int = -1;
    let mut i: usize = 0;
    while i < devices.len()
        invariant
            i <= devices.len(),
            -1 <= best_index < i,
            best is None <==> best_index == -1,
            best_index == -1 ==> best_score == -1,
            best matches Some(found) ==> {
                &&& devices@[best_index].eligible()
                &&& found == (
                    devices@[best_index].handle,
                    choice_of(devices@[best_index].families@).unwrap(),
                )
                &&& best_score == devices@[best_index].score(prefer_graphics)
            },
            forall|j: int|
                0 <= j < i && (#[trigger] devices@[j]).eligible() ==> {
                    &&& devices@[j].score(prefer_graphics) <= best_score
                    &&& j < best_index ==> devices@[j].score(prefer_graphics) < best_score
                },
        decreases devices.len() - i,
    {
        let device = &devices[i];
        if let Some(choice) = select_queue_families(device.families.as_slice()) {
            let mut score: i32 = device_type_score(device.device_type);
            if prefer_graphics && choice.graphics.is_some() {
                score = score + GRAPHICS_BONUS;
            }
            assert(score == devices@[i as int].score(prefer_graphics));
            if score > best_score {
                best_score = score;
                best = Some((device.handle, choice));
                proof {
                    best_index = i as int;
                }
            }
        }
        i += 1;
    }
    match best {
        Some(found) => {
            proof {
                assert(is_best(devices@, prefer_graphics, best_index));
                lemma_best_is_unique(devices@, prefer_graphics, best_index);
            }
            Ok(found)
        },
        None => {
            proof {
                if exists|k: int| is_best(devices@, prefer_graphics, k) {
                    let k = choose|k: int| is_best(devices@, prefer_graphics, k);
                    assert(devices@[k].eligible());
                }
            }
            Err(
                DeviceError::InitFailed(
                    String::from_str("no Vulkan device with a compute queue found"),
                ),
            )
        },
    }
}

/// Where some device is eligible, there is a best one.
proof fn lemma_best_exists(
    devices: Seq<PhysicalDeviceInfo>,
    prefer_graphics: bool,
    witness: int,
) -> (best: int)
    requires
        0 <= witness < devices.len(),
        devices[witness].eligible(),
    ensures
        is_best(devices, prefer_graphics, best),
    decreases devices.len(),
{
    let earlier = devices.drop_last();
    let last = devices.len() - 1;
    if exists|j: int| 0 <= j < earlier.len() && (#[trigger] earlier[j]).eligible() {
        let j = choose|j: int| 0 <= j < earlier.len() && (#[trigger] earlier[j]).eligible();
        let b = lemma_best_exists(earlier, prefer_graphics, j);
        assert(forall|j: int| 0 <= j < earlier.len() ==> earlier[j] == devices[j]);
        if devices[last].eligible() && devices[last].score(prefer_graphics) > devices[b].score(
            prefer_graphics,
        ) {
            assert forall|j: int|
                0 <= j < devices.len() && (#[trigger] devices[j]).eligible() implies {
                &&& devices[j].score(prefer_graphics) <= devices[last].score(prefer_graphics)
                &&& j < last ==> devices[j].score(prefer_graphics) < devices[last].score(
                    prefer_graphics,
                )
            } by {
                if j < last {
                    assert(earlier[j].eligible());
                }
            }
            last
        } else {
            assert forall|j: int|
                0 <= j < devices.len() && (#[trigger] devices[j]).eligible() implies {
                &&& devices[j].score(prefer_graphics) <= devices[b].score(prefer_graphics)
                &&& j < b ==> devices[j].score(prefer_graphics) < devices[b].score(prefer_graphics)
            } by {
                if j < last {
                    assert(earlier[j].eligible());
                }
            }
            b
        }
    } else {
        assert forall|j: int| 0 <= j < devices.len() && j != last implies !(
        #[trigger] devices[j]).eligible() by {
            assert(earlier[j] == devices[j]);
        }
        last
    }
}

/// Graphics is never required: whatever the preference, a device is picked
/// exactly where some device has a family that computes.
pub proof fn law_picks_iff_some_device_computes(
    devices: Seq<PhysicalDeviceInfo>,
    prefer_graphics: bool,
)
    ensures
        pick_of(devices, prefer_graphics) is Ok <==> exists|i: int|
            0 <= i < devices.len() && any_offers(
                (#[trigger] devices[i]).families@,
                Capability::Compute,
            ),
{
    if exists|i: int|
        0 <= i < devices.len() && any_offers(
            (#[trigger] devices[i]).families@,
            Capability::Compute,
        ) {
        let i = choose|i: int|
            0 <= i < devices.len() && any_offers(
                (#[trigger] devices[i]).families@,
                Capability::Compute,
            );
        law_only_compute_is_required(devices[i].families@);
        let best = lemma_best_exists(devices, prefer_graphics, i);
        lemma_best_is_unique(devices, prefer_graphics, best);
    }
    if pick_of(devices, prefer_graphics) is Ok {
        let i = choose|i: int| is_best(devices, prefer_graphics, i);
        law_only_compute_is_required(devices[i].families@);
    }
}

/// The picked device is one of those listed, with the families that serve it.
pub proof fn law_picked_device_is_listed(
    devices: Seq<PhysicalDeviceInfo>,
    prefer_graphics: bool,
    handle: u64,
    choice: QueueFamilyChoice,
)
    requires
        pick_of(devices, prefer_graphics) == Ok::<_, ErrorView>((handle, choice)),
    ensures
        exists|i: int|
            is_best(devices, prefer_graphics, i) && devices[i].handle == handle && choice_of(
                devices[i].families@,
            ) == Some(choice),
{
    let i = choose|i: int| is_best(devices, prefer_graphics, i);
    assert(is_best(devices, prefer_graphics, i));
}

/// The preference is honoured: with `prefer_graphics`, a device without
/// graphics is picked only where no device that computes has graphics.
pub proof fn law_graphics_preference_is_honoured(
    devices: Seq<PhysicalDeviceInfo>,
    handle: u64,
    choice: QueueFamilyChoice,
)
    requires
        pick_of(devices, true) == Ok::<_, ErrorView>((handle, choice)),
        choice.graphics is None,
    ensures
        forall|i: int|
            0 <= i < devices.len() ==> (choice_of((#[trigger] devices[i]).families@) matches Some(
                other,
            ) ==> other.graphics is None),
{
    let best = choose|i: int| is_best(devices, true, i);
    assert(is_best(devices, true, best));
    assert forall|i: int| 0 <= i < devices.len() implies (choice_of(
        (#[trigger] devices[i]).families@,
    ) matches Some(other) ==> other.graphics is None) by {
        if devices[i].eligible() {
            assert(devices[i].score(true) <= devices[best].score(true));
        }
    }
}

/// Without the preference the kind alone decides: no device that computes is of
/// a better kind than the picked one.
pub proof fn law_baseline_goes_by_kind(
    devices: Seq<PhysicalDeviceInfo>,
    best: int,
    other: int,
)
    requires
        is_best(devices, false, best),
        0 <= other < devices.len(),
        devices[other].eligible(),
    ensures
        rank(kind_of(devices[other].device_type)) <= rank(kind_of(devices[best].device_type)),
{
}

} // verus!
