//! The queues a device exposes.

use vstd::prelude::*;

verus! {

/// Handle to a single device queue. The device backend owns the queue, so the
/// handle can be copied freely.
#[derive(Debug, Clone, Copy, PartialEq, Eq, Structural)]
pub struct Queue {
    /// Backend-specific raw queue handle (e.g. a Vulkan `VkQueue`); zero is
    /// the null handle.
    pub raw: u64,
    /// Queue family that the queue belongs to.
    pub family_index: u32,
}

impl Queue {
    /// The null queue: a null handle on no family.
    #[must_use]
    pub fn null() -> (queue: Queue)
        ensures
            queue == (Queue { raw: 0, family_index: u32::MAX }),
    {
        Queue { raw: 0, family_index: u32::MAX }
    }
}

/// The queues of a device: `compute` is always present, `graphics` and
/// `transfer` only where the device has families for them.
#[derive(Debug, Clone, Copy, PartialEq, Eq)]
pub struct Queues {
    /// The compute queue. Always present.
    pub compute: Queue,
    /// The graphics queue, if the device exposes one.
    pub graphics: Option<Queue>,
    /// A dedicated transfer queue, if distinct from `compute`. Where there is
    /// none, transfers go through `compute`.
    pub transfer: Option<Queue>,
}

impl Queues {
    /// The queues of no device: a null compute queue and nothing else.
    #[must_use]
    pub fn stub() -> (queues: Queues)
        ensures
            queues == (Queues {
                compute: Queue { raw: 0, family_index: u32::MAX },
                graphics: None,
                transfer: None,
            }),
    {
        Queues { compute: Queue::null(), graphics: None, transfer: None }
    }

    /// True exactly when the device can drive a render pipeline.
    #[must_use]
    pub fn has_graphics(&self) -> (has: bool)
        ensures
            has == self.graphics is Some,
    {
        self.graphics.is_some()
    }
}

/// A device can drive a render pipeline exactly where it has a graphics queue,
/// whatever that queue's family.
pub proof fn law_graphics_is_a_graphics_queue(queues: &Queues, has: bool)
    requires
        call_ensures(Queues::has_graphics, (queues,), has),
    ensures
        has <==> queues.graphics is Some,
{
}

} // verus!
