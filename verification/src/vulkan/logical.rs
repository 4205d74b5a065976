//! Creating the logical device and fetching its queues.

use super::abi::vk_result_message;
use super::command::{Outcome, Progress};
use super::extensions::{swapchain_extension, texts};
use super::families::QueueFamilyChoice;
use super::setup::{SetupCommand, SetupReply, SetupRequest};
use crate::error::{failure_text, vk_failure_message, DeviceError, ErrorView};
use crate::queues::{Queue, Queues};
use vstd::prelude::*;

verus! {

/// A logical device and its queues.
#[derive(Debug, Clone, Copy, PartialEq, Eq)]
pub struct LogicalDevice {
    /// `VkDevice` handle.
    pub device: u64,
    /// The queues that consumers use.
    pub queues: Queues,
    /// Compute queue handle, used for staging transfers.
    pub compute_queue: u64,
}

/// How far the creation of a logical device has come.
#[derive(Debug, Clone, Copy, PartialEq, Eq)]
pub enum LogicalPhase {
    /// The device is to be created.
    Creating,
    /// The compute queue is to be fetched.
    FetchingCompute {
        /// The device.
        device: u64,
    },
    /// The graphics queue is to be fetched.
    FetchingGraphics {
        /// The device.
        device: u64,
        /// The compute queue.
        compute: u64,
        /// The graphics family.
        family: u32,
    },
    /// The transfer queue is to be fetched.
    FetchingTransfer {
        /// The device.
        device: u64,
        /// The compute queue.
        compute: u64,
        /// The graphics queue, if there is one.
        graphics: Option<Queue>,
        /// The transfer family.
        family: u32,
    },
}

/// The creation of a logical device with every family of the choice, and the
/// fetching of each queue.
#[derive(Debug, Clone, Copy, PartialEq, Eq)]
pub struct LogicalCreation {
    /// `VkInstance` handle.
    pub instance: u64,
    /// `VkPhysicalDevice` handle.
    pub physical_device: u64,
    /// The families that serve.
    pub choice: QueueFamilyChoice,
    /// Whether the swapchain extension is enabled.
    pub swapchain: bool,
    /// How far the creation has come.
    pub phase: LogicalPhase,
}

/// The creation that [`create_logical_device`] starts.
pub open spec fn new_logical(
    instance: u64,
    physical_device: u64,
    choice: QueueFamilyChoice,
    swapchain: bool,
) -> LogicalCreation {
    LogicalCreation {
        instance,
        physical_device,
        choice,
        swapchain,
        phase: LogicalPhase::Creating,
    }
}

/// Starts the creation of a logical device.
pub fn create_logical_device(
    instance: u64,
    physical_device: u64,
    choice: QueueFamilyChoice,
    swapchain: bool,
) -> (creation: LogicalCreation)
    ensures
        creation == new_logical(instance, physical_device, choice, swapchain),
{
    LogicalCreation {
        instance,
        physical_device,
        choice,
        swapchain,
        phase: LogicalPhase::Creating,
    }
}

impl LogicalDevice {
    /// There is a queue for each family of the choice, on that family, and
    /// staging uses the compute queue.
    pub open spec fn serves(self, choice: QueueFamilyChoice) -> bool {
        queues_serve(self.queues, choice) && self.compute_queue == self.queues.compute.raw
    }
}

/// There is a queue for each family of the choice, on that family.
pub open spec fn queues_serve(queues: Queues, choice: QueueFamilyChoice) -> bool {
    &&& queues.compute.family_index == choice.compute
    &&& queue_serves(queues.graphics, choice.graphics)
    &&& queue_serves(queues.transfer, choice.transfer)
}

/// There is a queue exactly where there is a family, and on that family.
pub open spec fn queue_serves(queue: Option<Queue>, family: Option<u32>) -> bool {
    match queue {
        Some(q) => family == Some(q.family_index),
        None => family is None,
    }
}

impl LogicalCreation {
    /// The same creation at another phase.
    pub open spec fn at(self, phase: LogicalPhase) -> LogicalCreation {
        LogicalCreation { phase, ..self }
    }

    /// What was fetched so far is of the choice's families.
    pub open spec fn wf(self) -> bool {
        match self.phase {
            LogicalPhase::Creating => true,
            LogicalPhase::FetchingCompute { .. } => true,
            LogicalPhase::FetchingGraphics { family, .. } => self.choice.graphics == Some(family),
            LogicalPhase::FetchingTransfer { graphics, family, .. } => {
                &&& queue_serves(graphics, self.choice.graphics)
                &&& self.choice.transfer == Some(family)
            },
        }
    }

    /// The call that this creation waits for.
    pub open spec fn wanted(self) -> SetupRequest {
        match self.phase {
            LogicalPhase::Creating => SetupRequest::CreateDevice {
                instance: self.instance,
                physical_device: self.physical_device,
                families: self.choice.families(),
                extensions: if self.swapchain {
                    seq![swapchain_extension()]
                } else {
                    Seq::empty()
                },
            },
            LogicalPhase::FetchingCompute { device } => SetupRequest::FetchQueue {
                device,
                family: self.choice.compute,
                index: 0,
            },
            LogicalPhase::FetchingGraphics { device, family, .. } => SetupRequest::FetchQueue {
                device,
                family,
                index: 0,
            },
            LogicalPhase::FetchingTransfer { device, family, .. } => SetupRequest::FetchQueue {
                device,
                family,
                index: 0,
            },
        }
    }

    /// Where the creation stands once compute and, where there is one, graphics
    /// are fetched.
    pub open spec fn graphics_fetched(self, device: u64, compute: u64, graphics: Option<Queue>)
        -> Outcome<LogicalCreation, LogicalDevice> {
        match self.choice.transfer {
            Some(family) => Outcome::Pending(
                self.at(LogicalPhase::FetchingTransfer { device, compute, graphics, family }),
            ),
            None => Outcome::Finished(Ok(self.fetched(device, compute, graphics, None))),
        }
    }

    /// The logical device with the queues that were fetched.
    pub open spec fn fetched(
        self,
        device: u64,
        compute: u64,
        graphics: Option<Queue>,
        transfer: Option<Queue>,
    ) -> LogicalDevice {
        LogicalDevice {
            device,
            queues: Queues {
                compute: Queue { raw: compute, family_index: self.choice.compute },
                graphics,
                transfer,
            },
            compute_queue: compute,
        }
    }

    /// Where the creation stands after `reply`. A failed call ends it with an
    /// error that names the call; a reply to another call changes nothing.
    pub open spec fn step(self, reply: SetupReply) -> Outcome<LogicalCreation, LogicalDevice> {
        match (self.phase, reply) {
            (LogicalPhase::Creating, SetupReply::Failed(code)) => Outcome::Finished(
                Err(
                    ErrorView::InitFailed(
                        failure_text("vkCreateDevice"@, vk_result_message(code)),
                    ),
                ),
            ),
            (LogicalPhase::Creating, SetupReply::Handle(device)) => Outcome::Pending(
                self.at(LogicalPhase::FetchingCompute { device }),
            ),
            (
                LogicalPhase::FetchingCompute { device },
                SetupReply::Handle(compute),
            ) => match self.choice.graphics {
                Some(family) => Outcome::Pending(
                    self.at(LogicalPhase::FetchingGraphics { device, compute, family }),
                ),
                None => self.graphics_fetched(device, compute, None),
            },
            (
                LogicalPhase::FetchingGraphics { device, compute, family },
                SetupReply::Handle(raw),
            ) => self.graphics_fetched(device, compute, Some(Queue { raw, family_index: family })),
            (
                LogicalPhase::FetchingTransfer { device, compute, graphics, family },
                SetupReply::Handle(raw),
            ) => Outcome::Finished(
                Ok(
                    self.fetched(
                        device,
                        compute,
                        graphics,
                        Some(Queue { raw, family_index: family }),
                    ),
                ),
            ),
            _ => Outcome::Pending(self),
        }
    }

    /// The same creation at another phase.
    fn moved_to(self, phase: LogicalPhase) -> (moved: LogicalCreation)
        ensures
            moved == self.at(phase),
    {
        LogicalCreation { phase, ..self }
    }

    /// The logical device with the queues that were fetched.
    fn finish(
        self,
        device: u64,
        compute: u64,
        graphics: Option<Queue>,
        transfer: Option<Queue>,
    ) -> (logical: LogicalDevice)
        ensures
            logical == self.fetched(device, compute, graphics, transfer),
    {
        LogicalDevice {
            device,
            queues: Queues {
                compute: Queue { raw: compute, family_index: self.choice.compute },
                graphics,
                transfer,
            },
            compute_queue: compute,
        }
    }

    /// Goes on once compute and, where there is one, graphics are fetched.
    fn after_graphics(self, device: u64, compute: u64, graphics: Option<Queue>) -> (progress:
        Progress<LogicalCreation, LogicalDevice>)
        ensures
            progress@ == self.graphics_fetched(device, compute, graphics),
    {
        match self.choice.transfer {
            Some(family) => Progress::Pending(
                self.moved_to(LogicalPhase::FetchingTransfer { device, compute, graphics, family }),
            ),
            None => Progress::Finished(Ok(self.finish(device, compute, graphics, None))),
        }
    }

    /// The call to make next.
    pub fn command(&self) -> (command: SetupCommand)
        ensures
            command@ == self.wanted(),
    {
        match self.phase {
            LogicalPhase::Creating => {
                let mut extensions: Vec<&'static str> = Vec::new();
                if self.swapchain {
                    extensions.push("VK_KHR_swapchain");
                    assert(texts(extensions@) =~= seq![swapchain_extension()]);
                } else {
                    assert(texts(extensions@) =~= Seq::<Seq<char>>::empty());
                }
                SetupCommand::CreateDevice {
                    instance: self.instance,
                    physical_device: self.physical_device,
                    families: self.choice.distinct_families(),
                    extensions,
                }
            },
            LogicalPhase::FetchingCompute { device } => SetupCommand::FetchQueue {
                device,
                family: self.choice.compute,
                index: 0,
            },
            LogicalPhase::FetchingGraphics { device, family, .. } => SetupCommand::FetchQueue {
                device,
                family,
                index: 0,
            },
            LogicalPhase::FetchingTransfer { device, family, .. } => SetupCommand::FetchQueue {
                device,
                family,
                index: 0,
            },
        }
    }

    /// Goes on with the outcome of the call.
    pub fn resume(self, reply: SetupReply) -> (progress: Progress<LogicalCreation, LogicalDevice>)
        ensures
            progress@ == self.step(reply),
            self.wf() ==> match progress {
                Progress::Pending(next) => next.wf() && next.choice == self.choice,
                Progress::Finished(Ok(logical)) => logical.serves(self.choice),
                Progress::Finished(Err(_)) => true,
            },
    {
        match (self.phase, reply) {
            (LogicalPhase::Creating, SetupReply::Failed(code)) => {
                let message = vk_failure_message("vkCreateDevice", code);
                Progress::Finished(Err(DeviceError::InitFailed(message)))
            },
            (LogicalPhase::Creating, SetupReply::Handle(device)) => Progress::Pending(
                self.moved_to(LogicalPhase::FetchingCompute { device }),
            ),
            (LogicalPhase::FetchingCompute { device }, SetupReply::Handle(compute)) => {
                match self.choice.graphics {
                    Some(family) => Progress::Pending(
                        self.moved_to(LogicalPhase::FetchingGraphics { device, compute, family }),
                    ),
                    None => self.after_graphics(device, compute, None),
                }
            },
            (
                LogicalPhase::FetchingGraphics { device, compute, family },
                SetupReply::Handle(raw),
            ) => self.after_graphics(device, compute, Some(Queue { raw, family_index: family })),
            (
                LogicalPhase::FetchingTransfer { device, compute, graphics, family },
                SetupReply::Handle(raw),
            ) => Progress::Finished(
                Ok(
                    self.finish(
                        device,
                        compute,
                        graphics,
                        Some(Queue { raw, family_index: family }),
                    ),
                ),
            ),
            _ => Progress::Pending(self),
        }
    }
}

} // verus!
