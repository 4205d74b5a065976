//! Copying one buffer to another on the device.

use super::abi::{vk_result_message, COMMAND_BUFFER_PRIMARY, ONE_TIME_SUBMIT};
use super::command::{Command, Outcome, Progress, Reply};
use crate::epoch::{after_event, DispatchEvent, GpuEpochTracker};
use crate::error::{failure_text, vk_failure_message, DeviceError, ErrorView};
use vstd::prelude::*;

verus! {

/// How far a transfer has come.
#[derive(Debug, Clone, Copy, PartialEq, Eq, Structural)]
pub enum TransferPhase {
    /// A command buffer is to be allocated.
    Allocating,
    /// Recording is to begin.
    Beginning {
        /// The command buffer.
        recorder: u64,
    },
    /// The copy is to be recorded.
    Recording {
        /// The command buffer.
        recorder: u64,
    },
    /// Recording is to end.
    Ending {
        /// The command buffer.
        recorder: u64,
    },
    /// The command buffer is to be submitted.
    Submitting {
        /// The command buffer.
        recorder: u64,
    },
    /// The queue is to be waited for.
    Waiting {
        /// The command buffer.
        recorder: u64,
    },
    /// The command buffer is to be freed.
    Freeing {
        /// The command buffer.
        recorder: u64,
    },
}

/// A one-time copy of the first `size` bytes of `source` to `target`: record it
/// in a command buffer of its own, submit that, wait until the queue is idle,
/// and free the command buffer.
///
/// The copy is GPU work like any other, so it is counted: it begins before it
/// is submitted, and ends once the queue has been waited for or the submission
/// has failed. Where the wait fails, nobody knows that the work is done: it is
/// left, and stays counted, until another transfer has waited for the queue. By
/// then everything that was submitted before is done, so the outcome of a wait
/// is to be handed over before anything else is submitted to the queue.
#[derive(Debug, Clone, Copy, PartialEq, Eq, Structural)]
pub struct Transfer {
    /// The pool that command buffers come from.
    pub pool: u64,
    /// The queue that does the work.
    pub queue: u64,
    /// The buffer read from.
    pub source: u64,
    /// The buffer written to.
    pub target: u64,
    /// How many bytes are copied.
    pub size: u64,
    /// How far the transfer has come.
    pub phase: TransferPhase,
}

/// The transfer that [`one_shot_transfer`] starts.
pub open spec fn new_transfer(
    pool: u64,
    queue: u64,
    source: u64,
    target: u64,
    size: u64,
) -> Transfer {
    Transfer { pool, queue, source, target, size, phase: TransferPhase::Allocating }
}

/// Starts a one-time transfer.
pub fn one_shot_transfer(pool: u64, queue: u64, source: u64, target: u64, size: u64) -> (transfer:
    Transfer)
    ensures
        transfer == new_transfer(pool, queue, source, target, size),
{
    Transfer { pool, queue, source, target, size, phase: TransferPhase::Allocating }
}

impl Transfer {
    /// The same transfer at another phase.
    pub open spec fn at(self, phase: TransferPhase) -> Transfer {
        Transfer { phase, ..self }
    }

    /// The call that this transfer waits for.
    pub open spec fn wanted<'a>(self) -> Command<'a> {
        match self.phase {
            TransferPhase::Allocating => Command::AllocateCommandBuffer {
                pool: self.pool,
                level: COMMAND_BUFFER_PRIMARY,
            },
            TransferPhase::Beginning { recorder } => Command::BeginCommandBuffer {
                recorder,
                usage: ONE_TIME_SUBMIT,
            },
            TransferPhase::Recording { recorder } => Command::CopyBuffer {
                recorder,
                source: self.source,
                target: self.target,
                size: self.size,
            },
            TransferPhase::Ending { recorder } => Command::EndCommandBuffer { recorder },
            TransferPhase::Submitting { recorder } => Command::Submit {
                queue: self.queue,
                recorder,
            },
            TransferPhase::Waiting { .. } => Command::WaitIdle { queue: self.queue },
            TransferPhase::Freeing { recorder } => Command::FreeCommandBuffer {
                pool: self.pool,
                recorder,
            },
        }
    }

    /// What an error calls the call that this transfer waits for.
    pub open spec fn call_name(self) -> Seq<char> {
        match self.phase {
            TransferPhase::Allocating => "transfer allocate"@,
            TransferPhase::Beginning { .. } => "transfer begin"@,
            TransferPhase::Recording { .. } => "transfer record"@,
            TransferPhase::Ending { .. } => "transfer end"@,
            TransferPhase::Submitting { .. } => "transfer submit"@,
            TransferPhase::Waiting { .. } => "transfer wait"@,
            TransferPhase::Freeing { .. } => "transfer free"@,
        }
    }

    /// Where the transfer stands after `reply`. A failed call ends it with an
    /// error that names the call; a reply to another call changes nothing.
    pub open spec fn step(self, reply: Reply) -> Outcome<Transfer, ()> {
        if !self.wanted().answered_by(reply) {
            Outcome::Pending(self)
        } else if let Reply::Failed(code) = reply {
            Outcome::Finished(
                Err(
                    ErrorView::BufferCreationFailed {
                        message: failure_text(self.call_name(), vk_result_message(code)),
                    },
                ),
            )
        } else {
            match self.phase {
                TransferPhase::Allocating => Outcome::Pending(
                    self.at(TransferPhase::Beginning { recorder: reply->Handle_0 }),
                ),
                TransferPhase::Beginning { recorder } => Outcome::Pending(
                    self.at(TransferPhase::Recording { recorder }),
                ),
                TransferPhase::Recording { recorder } => Outcome::Pending(
                    self.at(TransferPhase::Ending { recorder }),
                ),
                TransferPhase::Ending { recorder } => Outcome::Pending(
                    self.at(TransferPhase::Submitting { recorder }),
                ),
                TransferPhase::Submitting { recorder } => Outcome::Pending(
                    self.at(TransferPhase::Waiting { recorder }),
                ),
                TransferPhase::Waiting { recorder } => Outcome::Pending(
                    self.at(TransferPhase::Freeing { recorder }),
                ),
                TransferPhase::Freeing { .. } => Outcome::Finished(Ok(())),
            }
        }
    }

    /// The copy is counted as work in flight.
    pub open spec fn counted(self) -> bool {
        self.phase is Submitting || self.phase is Waiting
    }

    /// What `reply` means for the count of work in flight.
    pub open spec fn event(self, reply: Reply) -> Option<DispatchEvent> {
        match (self.phase, reply) {
            (TransferPhase::Ending { .. }, Reply::Completed) => Some(DispatchEvent::Begin),
            (TransferPhase::Submitting { .. }, Reply::Failed(_)) => Some(DispatchEvent::End),
            (TransferPhase::Waiting { .. }, Reply::Completed) => Some(DispatchEvent::End),
            _ => None,
        }
    }

    /// The wait for the queue succeeded: everything submitted to it is done.
    pub open spec fn waited(self, reply: Reply) -> bool {
        self.phase is Waiting && reply is Completed
    }

    /// The wait for the queue failed: the copy is left.
    pub open spec fn leaves(self, reply: Reply) -> bool {
        self.phase is Waiting && reply is Failed
    }

    /// The count of work in flight after `reply`, where `left` copies were left
    /// on the queue before.
    pub open spec fn count_after(self, reply: Reply, count: u64, left: u64) -> u64 {
        if self.waited(reply) {
            (count - 1 - left) as u64
        } else {
            after_event(count, self.event(reply))
        }
    }

    /// How many copies are left on the queue after `reply`.
    pub open spec fn left_after(self, reply: Reply, left: u64) -> u64 {
        if self.waited(reply) {
            0
        } else if self.leaves(reply) {
            (left + 1) as u64
        } else {
            left
        }
    }

    /// The call to make next.
    pub fn command<'a>(&self) -> (command: Command<'a>)
        ensures
            command == self.wanted(),
    {
        match self.phase {
            TransferPhase::Allocating => Command::AllocateCommandBuffer {
                pool: self.pool,
                level: COMMAND_BUFFER_PRIMARY,
            },
            TransferPhase::Beginning { recorder } => Command::BeginCommandBuffer {
                recorder,
                usage: ONE_TIME_SUBMIT,
            },
            TransferPhase::Recording { recorder } => Command::CopyBuffer {
                recorder,
                source: self.source,
                target: self.target,
                size: self.size,
            },
            TransferPhase::Ending { recorder } => Command::EndCommandBuffer { recorder },
            TransferPhase::Submitting { recorder } => Command::Submit {
                queue: self.queue,
                recorder,
            },
            TransferPhase::Waiting { .. } => Command::WaitIdle { queue: self.queue },
            TransferPhase::Freeing { recorder } => Command::FreeCommandBuffer {
                pool: self.pool,
                recorder,
            },
        }
    }

    /// What an error calls the call to make next.
    fn name_of_call(&self) -> (name: &'static str)
        ensures
            name@ == self.call_name(),
    {
        match self.phase {
            TransferPhase::Allocating => "transfer allocate",
            TransferPhase::Beginning { .. } => "transfer begin",
            TransferPhase::Recording { .. } => "transfer record",
            TransferPhase::Ending { .. } => "transfer end",
            TransferPhase::Submitting { .. } => "transfer submit",
            TransferPhase::Waiting { .. } => "transfer wait",
            TransferPhase::Freeing { .. } => "transfer free",
        }
    }

    /// The same transfer at another phase.
    fn moved_to(self, phase: TransferPhase) -> (moved: Transfer)
        ensures
            moved == self.at(phase),
    {
        Transfer { phase, ..self }
    }

    /// Whether the copy is counted as work in flight.
    pub fn is_counted(&self) -> (counted: bool)
        ensures
            counted == self.counted(),
    {
        matches!(
            self.phase,
            TransferPhase::Submitting { .. } | TransferPhase::Waiting { .. }
        )
    }

    /// Counts what `reply` means for the work in flight.
    fn count(&self, reply: &Reply, tracker: &mut GpuEpochTracker, left: &mut u64)
        requires
            self.counted() ==> old(tracker)@ > *old(left),
        ensures
            final(tracker)@ == self.count_after(*reply, old(tracker)@, *old(left)),
            *final(left) == self.left_after(*reply, *old(left)),
    {
        match (self.phase, reply) {
            (TransferPhase::Ending { .. }, Reply::Completed) => tracker.begin_dispatch(),
            (TransferPhase::Submitting { .. }, Reply::Failed(_)) => tracker.end_dispatch(),
            (TransferPhase::Waiting { .. }, Reply::Completed) => {
                tracker.end_dispatches(*left + 1);
                *left = 0;
            },
            (TransferPhase::Waiting { .. }, Reply::Failed(_)) => {
                *left = *left + 1;
            },
            _ => {},
        }
    }

    /// Goes on with the outcome of the call, and counts the copy on `tracker`
    /// while it is in flight. `left` is the number of copies that transfers
    /// left on this queue.
    pub fn resume(self, reply: Reply, tracker: &mut GpuEpochTracker, left: &mut u64) -> (progress:
        Progress<Transfer, ()>)
        requires
            self.counted() ==> old(tracker)@ > *old(left),
        ensures
            progress@ == self.step(reply),
            final(tracker)@ == self.count_after(reply, old(tracker)@, *old(left)),
            *final(left) == self.left_after(reply, *old(left)),
    {
        self.count(&reply, tracker, left);
        let command = self.command();
        if !command.is_answered_by(&reply) {
            return Progress::Pending(self);
        }
        if let Reply::Failed(code) = reply {
            let message = vk_failure_message(self.name_of_call(), code);
            return Progress::Finished(Err(DeviceError::BufferCreationFailed { message }));
        }
        match self.phase {
            TransferPhase::Allocating => match reply {
                Reply::Handle(recorder) => Progress::Pending(
                    self.moved_to(TransferPhase::Beginning { recorder }),
                ),
                _ => Progress::Pending(self),
            },
            TransferPhase::Beginning { recorder } => Progress::Pending(
                self.moved_to(TransferPhase::Recording { recorder }),
            ),
            TransferPhase::Recording { recorder } => Progress::Pending(
                self.moved_to(TransferPhase::Ending { recorder }),
            ),
            TransferPhase::Ending { recorder } => Progress::Pending(
                self.moved_to(TransferPhase::Submitting { recorder }),
            ),
            TransferPhase::Submitting { recorder } => Progress::Pending(
                self.moved_to(TransferPhase::Waiting { recorder }),
            ),
            TransferPhase::Waiting { recorder } => Progress::Pending(
                self.moved_to(TransferPhase::Freeing { recorder }),
            ),
            TransferPhase::Freeing { .. } => Progress::Finished(Ok(())),
        }
    }
}

} // verus!
