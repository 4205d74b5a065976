//! The Vulkan backend's decisions.
//!
//! Nothing here calls the driver. An operation is a value: its `command` is the
//! driver call to make next, with its arguments, and `resume` takes the call's
//! outcome and says where the operation stands then. Driver objects are plain
//! handles, and zero is the null handle.
//!
//! `bringup` builds a device, `buffer` creates, reads and releases buffers.
//! What whole operations promise stands in `bringup_laws` and `buffer_laws`;
//! the latter rests on `model`, which says what driver calls do to memory, and
//! on `settling`, which says what work left on queues does to it. That a
//! device's own copies count as work in flight stands in `counting_laws`, that
//! it outlives its buffers in `lifetime_laws`, and that operations come to an
//! end in `termination`.
//!
//! What is chosen, in terms of the numbers that a driver reports, stands in
//! `selection_laws` and `hardware_laws`. Which calls an operation makes, from
//! its first to its last, stands in `setup_calls` and `buffer_calls`, over the
//! conversations of `conversation`; what failed calls lead to, in
//! `buffer_failures`.

pub mod abi;
pub mod adapter;
pub mod allocation;
pub mod bringup;
pub mod bringup_laws;
pub mod buffer;
pub mod buffer_calls;
pub mod buffer_failures;
pub mod buffer_laws;
pub mod command;
pub mod conversation;
pub mod counting_laws;
pub mod device;
pub mod extensions;
pub mod families;
pub mod hardware_laws;
pub mod lifetime_laws;
pub mod logical;
pub mod memory;
pub mod model;
pub mod selection_laws;
pub mod settling;
pub mod setup;
pub mod setup_calls;
pub mod termination;
pub mod transfer;
