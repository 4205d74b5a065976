//! Queue family selection by capability.
//!
//! `compute` is always served, by a dedicated family where the device has one;
//! `graphics` and `transfer` are served only where a family for them exists.

use super::abi::{has_flags, queue_flags_contain, QUEUE_COMPUTE, QUEUE_GRAPHICS, QUEUE_TRANSFER};
use vstd::prelude::*;

verus! {

/// What a device reports of one queue family.
#[derive(Debug, Clone, Copy, PartialEq, Eq, Structural)]
pub struct QueueFamilyProperties {
    /// `VkQueueFlags` of the family.
    pub queue_flags: u32,
}

/// Which queue family serves each capability.
#[derive(Debug, Clone, Copy, PartialEq, Eq)]
pub struct QueueFamilyChoice {
    /// A compute-capable family, dedicated where there is one. Always present.
    pub compute: u32,
    /// The first graphics-capable family, if any.
    pub graphics: Option<u32>,
    /// The first family that only transfers, if any.
    pub transfer: Option<u32>,
}

/// A capability by which a family is looked for.
#[derive(Debug, Clone, Copy, PartialEq, Eq, Structural)]
pub enum Capability {
    /// Takes compute work.
    Compute,
    /// Takes compute work and no graphics work.
    DedicatedCompute,
    /// Takes graphics work.
    Graphics,
    /// Takes transfers, and neither compute nor graphics work.
    DedicatedTransfer,
}

impl Capability {
    /// The family has this capability.
    pub open spec fn offered_by(self, family: QueueFamilyProperties) -> bool {
        let computes = has_flags(family.queue_flags, QUEUE_COMPUTE);
        let draws = has_flags(family.queue_flags, QUEUE_GRAPHICS);
        let transfers = has_flags(family.queue_flags, QUEUE_TRANSFER);
        match self {
            Capability::Compute => computes,
            Capability::DedicatedCompute => computes && !draws,
            Capability::Graphics => draws,
            Capability::DedicatedTransfer => transfers && !computes && !draws,
        }
    }

    /// Whether the family has this capability.
    pub fn is_offered_by(self, family: &QueueFamilyProperties) -> (offered: bool)
        ensures
            offered == self.offered_by(*family),
    {
        let computes = queue_flags_contain(family.queue_flags, QUEUE_COMPUTE);
        let draws = queue_flags_contain(family.queue_flags, QUEUE_GRAPHICS);
        let transfers = queue_flags_contain(family.queue_flags, QUEUE_TRANSFER);
        match self {
            Capability::Compute => computes,
            Capability::DedicatedCompute => computes && !draws,
            Capability::Graphics => draws,
            Capability::DedicatedTransfer => transfers && !computes && !draws,
        }
    }
}

/// Some family has the capability.
pub open spec fn any_offers(families: Seq<QueueFamilyProperties>, wanted: Capability) -> bool {
    exists|i: int| 0 <= i < families.len() && wanted.offered_by(#[trigger] families[i])
}

/// `index` is the first family with the capability.
pub open spec fn is_first(
    families: Seq<QueueFamilyProperties>,
    wanted: Capability,
    index: int,
) -> bool {
    &&& 0 <= index < families.len()
    &&& wanted.offered_by(families[index])
    &&& forall|j: int| 0 <= j < index ==> !wanted.offered_by(#[trigger] families[j])
}

/// The first family with the capability, if there is one.
pub open spec fn first_family(
    families: Seq<QueueFamilyProperties>,
    wanted: Capability,
) -> Option<int> {
    if exists|i: int| is_first(families, wanted, i) {
        Some(choose|i: int| is_first(families, wanted, i))
    } else {
        None
    }
}

/// A position as the 32-bit index by which the driver names a family.
pub open spec fn family_index(position: Option<int>) -> Option<u32> {
    match position {
        Some(i) => Some(i as u32),
        None => None,
    }
}

/// The families that serve a device with these properties; `None` where no
/// family computes.
pub open spec fn choice_of(families: Seq<QueueFamilyProperties>) -> Option<QueueFamilyChoice> {
    let dedicated = first_family(families, Capability::DedicatedCompute);
    let compute = if dedicated is Some {
        dedicated
    } else {
        first_family(families, Capability::Compute)
    };
    match compute {
        None => None,
        Some(i) => Some(
            QueueFamilyChoice {
                compute: i as u32,
                graphics: family_index(first_family(families, Capability::Graphics)),
                transfer: family_index(first_family(families, Capability::DedicatedTransfer)),
            },
        ),
    }
}

/// A first position is the only one.
pub proof fn lemma_first_is_unique(
    families: Seq<QueueFamilyProperties>,
    wanted: Capability,
    index: int,
)
    requires
        is_first(families, wanted, index),
    ensures
        first_family(families, wanted) == Some(index),
{
    let other = choose|k: int| is_first(families, wanted, k);
    assert(is_first(families, wanted, other));
    if other < index {
        assert(!wanted.offered_by(families[other]));
    } else if index < other {
        assert(!wanted.offered_by(families[index]));
    }
}

/// Where some family has the capability, there is a first one.
proof fn lemma_first_exists(families: Seq<QueueFamilyProperties>, wanted: Capability, witness: int)
    requires
        0 <= witness < families.len(),
        wanted.offered_by(families[witness]),
    ensures
        exists|i: int| is_first(families, wanted, i),
    decreases witness,
{
    if exists|j: int| 0 <= j < witness && wanted.offered_by(#[trigger] families[j]) {
        let j = choose|j: int| 0 <= j < witness && wanted.offered_by(#[trigger] families[j]);
        lemma_first_exists(families, wanted, j);
    } else {
        assert(is_first(families, wanted, witness));
    }
}

/// A family with the capability is found exactly where there is one.
pub proof fn lemma_family_found_iff_offered(
    families: Seq<QueueFamilyProperties>,
    wanted: Capability,
)
    ensures
        first_family(families, wanted) is Some <==> any_offers(families, wanted),
{
    if any_offers(families, wanted) {
        let i = choose|i: int| 0 <= i < families.len() && wanted.offered_by(#[trigger] families[i]);
        lemma_first_exists(families, wanted, i);
    }
    if first_family(families, wanted) is Some {
        let i = choose|i: int| is_first(families, wanted, i);
        assert(wanted.offered_by(families[i]));
    }
}

/// The position of the first family with the capability.
fn position(families: &[QueueFamilyProperties], wanted: Capability) -> (found: Option<usize>)
    ensures
        match found {
            Some(i) => first_family(families@, wanted) == Some(i as int) && is_first(
                families@,
                wanted,
                i as int,
            ),
            None => first_family(families@, wanted) is None,
        },
{
    let mut i: usize = 0;
    while i < families.len()
        invariant
            i <= families.len(),
            forall|j: int| 0 <= j < i ==> !wanted.offered_by(#[trigger] families@[j]),
        decreases families.len() - i,
    {
        if wanted.is_offered_by(&families[i]) {
            proof {
                lemma_first_is_unique(families@, wanted, i as int);
            }
            return Some(i);
        }
        i += 1;
    }
    None
}

/// The position as a family index, where there is one.
fn index_of(found: Option<usize>) -> (index: Option<u32>)
    ensures
        index == match found {
            Some(i) => Some(i as u32),
            None => None,
        },
{
    match found {
        Some(i) => Some(
            #[verifier::truncate]
            (i as u32),
        ),
        None => None,
    }
}

/// Selects the queue families of a device.
///
/// - `compute`: the first family that computes and does not draw; where there
///   is none (unified hardware), the first that computes.
/// - `graphics`: the first family that draws, else `None`.
/// - `transfer`: the first family that only transfers, else `None`; consumers
///   then transfer on `compute`.
pub fn select_queue_families(families: &[QueueFamilyProperties]) -> (choice: Option<
    QueueFamilyChoice,
>)
    ensures
        choice == choice_of(families@),
{
    let compute = match position(families, Capability::DedicatedCompute) {
        Some(i) => i,
        None => match position(families, Capability::Compute) {
            Some(i) => i,
            None => return None,
        },
    };
    let graphics = index_of(position(families, Capability::Graphics));
    let transfer = index_of(position(families, Capability::DedicatedTransfer));
    Some(
        QueueFamilyChoice {
            compute: #[verifier::truncate]
            (compute as u32),
            graphics,
            transfer,
        },
    )
}

impl QueueFamilyChoice {
    /// The families of the choice, without repetition: compute first, then
    /// graphics, then transfer.
    pub open spec fn families(self) -> Seq<u32> {
        let base = seq![self.compute];
        let drawn = match self.graphics {
            Some(g) => if base.contains(g) {
                base
            } else {
                base.push(g)
            },
            None => base,
        };
        match self.transfer {
            Some(t) => if drawn.contains(t) {
                drawn
            } else {
                drawn.push(t)
            },
            None => drawn,
        }
    }

    /// The distinct family indices to request when the logical device is
    /// created.
    pub fn distinct_families(&self) -> (families: Vec<u32>)
        ensures
            families@ == self.families(),
    {
        let mut families: Vec<u32> = Vec::new();
        families.push(self.compute);
        assert(families@ =~= seq![self.compute]);
        if let Some(g) = self.graphics {
            if !holds(&families, g) {
                families.push(g);
            }
        }
        if let Some(t) = self.transfer {
            if !holds(&families, t) {
                families.push(t);
            }
        }
        families
    }
}

/// Whether `families` holds `index`.
fn holds(families: &Vec<u32>, index: u32) -> (held: bool)
    ensures
        held == families@.contains(index),
{
    let mut i: usize = 0;
    while i < families.len()
        invariant
            i <= families.len(),
            forall|j: int| 0 <= j < i ==> families@[j] != index,
        decreases families.len() - i,
    {
        if families[i] == index {
            return true;
        }
        i += 1;
    }
    false
}

/// Compute is the one requirement: families are chosen exactly where some
/// family computes, whatever else the device lacks.
pub proof fn law_only_compute_is_required(families: Seq<QueueFamilyProperties>)
    ensures
        choice_of(families) is Some <==> any_offers(families, Capability::Compute),
{
    if any_offers(families, Capability::Compute) {
        let i = choose|i: int|
            0 <= i < families.len() && Capability::Compute.offered_by(#[trigger] families[i]);
        lemma_first_exists(families, Capability::Compute, i);
    }
    if choice_of(families) is Some {
        if first_family(families, Capability::DedicatedCompute) is Some {
            let i = choose|i: int| is_first(families, Capability::DedicatedCompute, i);
            assert(Capability::Compute.offered_by(families[i]));
        } else {
            let i = choose|i: int| is_first(families, Capability::Compute, i);
            assert(Capability::Compute.offered_by(families[i]));
        }
    }
}

/// The chosen indices are what the hardware has: compute is a family that
/// computes; graphics is present exactly where some family draws, and is the
/// first such family; transfer is present exactly where some family only
/// transfers, and is the first such family. A driver numbers its families in
/// 32 bits.
pub proof fn law_choice_matches_hardware(
    families: Seq<QueueFamilyProperties>,
    choice: QueueFamilyChoice,
)
    requires
        families.len() <= 0x1_0000_0000,
        choice_of(families) == Some(choice),
    ensures
        choice.compute < families.len(),
        Capability::Compute.offered_by(families[choice.compute as int]),
        choice.graphics is Some <==> any_offers(families, Capability::Graphics),
        choice.graphics matches Some(g) ==> is_first(families, Capability::Graphics, g as int),
        choice.transfer is Some <==> any_offers(families, Capability::DedicatedTransfer),
        choice.transfer matches Some(t) ==> is_first(
            families,
            Capability::DedicatedTransfer,
            t as int,
        ),
{
    if any_offers(families, Capability::Graphics) {
        let i = choose|i: int|
            0 <= i < families.len() && Capability::Graphics.offered_by(#[trigger] families[i]);
        lemma_first_exists(families, Capability::Graphics, i);
    }
    if any_offers(families, Capability::DedicatedTransfer) {
        let i = choose|i: int|
            0 <= i < families.len() && Capability::DedicatedTransfer.offered_by(
                #[trigger] families[i],
            );
        lemma_first_exists(families, Capability::DedicatedTransfer, i);
    }
    if first_family(families, Capability::Graphics) is Some {
        let i = choose|i: int| is_first(families, Capability::Graphics, i);
        assert(Capability::Graphics.offered_by(families[i]));
    }
    if first_family(families, Capability::DedicatedTransfer) is Some {
        let i = choose|i: int| is_first(families, Capability::DedicatedTransfer, i);
        assert(Capability::DedicatedTransfer.offered_by(families[i]));
    }
    if first_family(families, Capability::DedicatedCompute) is Some {
        let i = choose|i: int| is_first(families, Capability::DedicatedCompute, i);
        assert(choice.compute == i);
    } else {
        let i = choose|i: int| is_first(families, Capability::Compute, i);
        assert(choice.compute == i);
    }
}

/// Async-compute isolation: where the device has a dedicated compute family,
/// compute is placed on the first one, apart from graphics.
pub proof fn law_dedicated_compute_is_isolated(
    families: Seq<QueueFamilyProperties>,
    choice: QueueFamilyChoice,
)
    requires
        families.len() <= 0x1_0000_0000,
        choice_of(families) == Some(choice),
        any_offers(families, Capability::DedicatedCompute),
    ensures
        is_first(families, Capability::DedicatedCompute, choice.compute as int),
        choice.graphics != Some(choice.compute),
{
    let i = choose|i: int|
        0 <= i < families.len() && Capability::DedicatedCompute.offered_by(#[trigger] families[i]);
    lemma_first_exists(families, Capability::DedicatedCompute, i);
    let first = choose|i: int| is_first(families, Capability::DedicatedCompute, i);
    assert(choice.compute == first);
    law_choice_matches_hardware(families, choice);
}

/// Unified hardware: where no family is dedicated to compute, compute falls
/// back to the first family that computes, which then draws too.
pub proof fn law_unified_hardware_falls_back(
    families: Seq<QueueFamilyProperties>,
    choice: QueueFamilyChoice,
)
    requires
        families.len() <= 0x1_0000_0000,
        choice_of(families) == Some(choice),
        !any_offers(families, Capability::DedicatedCompute),
    ensures
        is_first(families, Capability::Compute, choice.compute as int),
        Capability::Graphics.offered_by(families[choice.compute as int]),
        choice.graphics is Some,
{
    if first_family(families, Capability::DedicatedCompute) is Some {
        let i = choose|i: int| is_first(families, Capability::DedicatedCompute, i);
        assert(Capability::DedicatedCompute.offered_by(families[i]));
    }
    let i = choose|i: int| is_first(families, Capability::Compute, i);
    assert(choice.compute == i);
    assert(!Capability::DedicatedCompute.offered_by(families[i]));
    law_choice_matches_hardware(families, choice);
}

/// A transfer family is always a separate one: neither compute nor graphics is
/// served by it.
pub proof fn law_transfer_is_separate(
    families: Seq<QueueFamilyProperties>,
    choice: QueueFamilyChoice,
)
    requires
        families.len() <= 0x1_0000_0000,
        choice_of(families) == Some(choice),
        choice.transfer is Some,
    ensures
        choice.transfer != Some(choice.compute),
        choice.transfer != choice.graphics,
{
    law_choice_matches_hardware(families, choice);
}

/// What is requested of the driver: compute first, every chosen family, no
/// other, none twice.
pub proof fn law_families_are_requested_once(choice: QueueFamilyChoice)
    ensures
        choice.families()[0] == choice.compute,
        choice.families().no_duplicates(),
        forall|f: u32|
            #[trigger] choice.families().contains(f) <==> f == choice.compute || choice.graphics
                == Some(f) || choice.transfer == Some(f),
{
    let base = seq![choice.compute];
    assert(base[0] == choice.compute);
    assert forall|f: u32| #[trigger] choice.families().contains(f) implies f == choice.compute
        || choice.graphics == Some(f) || choice.transfer == Some(f) by {
        let i = choose|i: int| 0 <= i < choice.families().len() && choice.families()[i] == f;
    }
    let drawn = match choice.graphics {
        Some(g) => if base.contains(g) {
            base
        } else {
            base.push(g)
        },
        None => base,
    };
    assert(drawn[0] == choice.compute);
    if let Some(g) = choice.graphics {
        if !base.contains(g) {
            assert(drawn[1] == g);
        }
        assert(drawn.contains(g));
    }
    assert forall|f: u32|
        f == choice.compute || choice.graphics == Some(f) || choice.transfer == Some(
            f,
        ) implies #[trigger] choice.families().contains(f) by {
        if choice.transfer == Some(f) && !drawn.contains(f) {
            assert(choice.families()[drawn.len() as int] == f);
        } else {
            let i = choose|i: int| 0 <= i < drawn.len() && drawn[i] == f;
            assert(choice.families()[i] == f);
        }
    }
}

} // verus!
