//! What a caller asks for at device initialisation.

use vstd::prelude::*;

verus! {

/// Memory allocation strategy for GPU buffers: whether buffer data lives in
/// memory shared with the host or in dedicated GPU memory reached by staging
/// transfers.
#[derive(Debug, Clone, Copy, PartialEq, Eq, Structural)]
pub enum MemoryStrategy {
    /// Let the backend choose by the hardware: discrete GPUs, and any device
    /// with a device-local heap above 1 GiB, get device-local memory; other
    /// devices get host-visible memory.
    Auto,
    /// Force host-visible, host-coherent memory.
    Unified,
    /// Force device-local memory with staging transfers.
    DeviceLocal,
}

impl Default for MemoryStrategy {
    fn default() -> (strategy: MemoryStrategy)
        ensures
            strategy == MemoryStrategy::Auto,
    {
        MemoryStrategy::Auto
    }
}

/// Capabilities and preferences requested at device initialisation.
#[derive(Debug, Clone, Copy, PartialEq, Eq, Structural)]
pub struct InitRequest {
    /// Memory allocation strategy.
    pub memory: MemoryStrategy,
    /// Prefer a graphics-capable physical device and enable the presentation
    /// extensions that the driver supports.
    ///
    /// A preference, not a requirement: where no graphics-capable device
    /// exists, the best compute device is returned, without a graphics queue.
    pub prefer_graphics: bool,
}

impl Default for InitRequest {
    fn default() -> (request: InitRequest)
        ensures
            request == (InitRequest { memory: MemoryStrategy::Auto, prefer_graphics: false }),
    {
        InitRequest { memory: MemoryStrategy::Auto, prefer_graphics: false }
    }
}

impl InitRequest {
    /// A compute-only request.
    #[must_use]
    pub fn compute_only() -> (request: InitRequest)
        ensures
            request == (InitRequest { memory: MemoryStrategy::Auto, prefer_graphics: false }),
    {
        InitRequest { memory: MemoryStrategy::Auto, prefer_graphics: false }
    }

    /// A request that prefers a graphics-capable device.
    #[must_use]
    pub fn prefer_graphics() -> (request: InitRequest)
        ensures
            request == (InitRequest { memory: MemoryStrategy::Auto, prefer_graphics: true }),
    {
        InitRequest { memory: MemoryStrategy::Auto, prefer_graphics: true }
    }
}

} // verus!
