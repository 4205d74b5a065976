//! What the driver's calls do to buffers and memory, as far as buffer
//! operations depend on it.
//!
//! The model says of each call what its documentation promises when it
//! succeeds. It is what the laws on whole buffer operations are stated over.
//!
//! Work on a queue may be done at any time until the queue is waited for. So
//! the model says what memory holds only where no work can interfere: what the
//! host reads or writes must not be worked on, and of memory that several queues
//! work on nothing is known once one of them has been waited for.

use super::buffer::{Buffer, BufferRelease};
use super::command::{Command, Reply};
use vstd::prelude::*;

verus! {

/// Work that a queue does.
pub enum Job {
    /// A copy of the first `size` bytes of one buffer to another.
    Copy {
        /// The buffer read from.
        source: u64,
        /// The buffer written to.
        target: u64,
        /// How many bytes are copied.
        size: u64,
    },
    /// Work of a consumer, by what it leaves in memory.
    Dispatch {
        /// The memory that is written, with what it holds then.
        writes: Map<u64, Seq<u8>>,
    },
}

/// The driver's objects.
#[verifier::ext_equal]
pub struct World {
    /// The buffers, with the sizes that they were created with.
    pub sizes: Map<u64, u64>,
    /// The memory that each buffer is bound to, at its start.
    pub bindings: Map<u64, u64>,
    /// The allocated memory, with what it holds.
    pub contents: Map<u64, Seq<u8>>,
    /// The mappings: host address to memory, from its start.
    pub mappings: Map<u64, u64>,
    /// What each command buffer has recorded.
    pub recorded: Map<u64, Seq<Job>>,
    /// What each queue was given and may not have finished.
    pub submitted: Map<u64, Seq<Job>>,
}

/// `bytes` with its beginning replaced.
pub open spec fn overwritten(bytes: Seq<u8>, beginning: Seq<u8>) -> Seq<u8> {
    beginning + bytes.skip(beginning.len() as int)
}

impl World {
    /// Only buffers that exist are bound, only memory that exists is bound or
    /// mapped, and what the queues have left to do stays within it.
    pub open spec fn wf(self) -> bool {
        &&& forall|b: u64| #[trigger]
            self.bindings.contains_key(b) ==> self.sizes.contains_key(b)
                && self.contents.contains_key(self.bindings[b])
        &&& forall|p: u64| #[trigger]
            self.mappings.contains_key(p) ==> self.contents.contains_key(self.mappings[p])
        &&& forall|q: u64| #[trigger] self.can_settle(q)
    }

    /// What the queue has left to do.
    pub open spec fn queued(self, queue: u64) -> Seq<Job> {
        if self.submitted.contains_key(queue) {
            self.submitted[queue]
        } else {
            Seq::empty()
        }
    }

    /// The buffer is bound to memory of at least `size` bytes.
    pub open spec fn backs(self, buffer: u64, size: u64) -> bool {
        &&& self.bindings.contains_key(buffer)
        &&& self.contents.contains_key(self.bindings[buffer])
        &&& self.contents[self.bindings[buffer]].len() >= size
    }

    /// The work stays within memory that exists.
    pub open spec fn can_do(self, job: Job) -> bool {
        match job {
            Job::Copy { source, target, size } => self.backs(source, size) && self.backs(
                target,
                size,
            ),
            Job::Dispatch { writes } => forall|m: u64| #[trigger]
                writes.contains_key(m) ==> self.contents.contains_key(m) && writes[m].len()
                    == self.contents[m].len(),
        }
    }

    /// All the work stays within memory that exists.
    pub open spec fn can_do_all(self, jobs: Seq<Job>) -> bool {
        forall|i: int| 0 <= i < jobs.len() ==> self.can_do(#[trigger] jobs[i])
    }

    /// The world after one piece of work.
    pub open spec fn after_job(self, job: Job) -> World {
        World {
            contents: match job {
                Job::Copy { source, target, size } => {
                    let bytes = self.contents[self.bindings[source]].take(size as int);
                    self.contents.insert(
                        self.bindings[target],
                        overwritten(self.contents[self.bindings[target]], bytes),
                    )
                },
                Job::Dispatch { writes } => self.contents.union_prefer_right(writes),
            },
            ..self
        }
    }

    /// The world after all the work, in order.
    pub open spec fn after_jobs(self, jobs: Seq<Job>) -> World
        decreases jobs.len(),
    {
        if jobs.len() == 0 {
            self
        } else {
            self.after_jobs(jobs.drop_last()).after_job(jobs.last())
        }
    }

    /// The work touches the memory: a copy both what it reads and what it
    /// writes, a consumer's work what it writes.
    pub open spec fn touches(self, job: Job, memory: u64) -> bool {
        match job {
            Job::Copy { source, target, .. } => self.bindings[source] == memory
                || self.bindings[target] == memory,
            Job::Dispatch { writes } => writes.contains_key(memory),
        }
    }

    /// No queue has work left that touches the memory.
    pub open spec fn calm(self, memory: u64) -> bool {
        forall|q: u64, i: int|
            0 <= i < self.queued(q).len() ==> !self.touches(#[trigger] self.queued(q)[i], memory)
    }

    /// No queue but `queue` has work left that touches the memory.
    pub open spec fn calm_elsewhere(self, queue: u64, memory: u64) -> bool {
        forall|q: u64, i: int|
            q != queue && 0 <= i < self.queued(q).len() ==> !self.touches(
                #[trigger] self.queued(q)[i],
                memory,
            )
    }

    /// The work copies nothing to these memories from elsewhere.
    pub open spec fn confined(self, job: Job, memories: Set<u64>) -> bool {
        match job {
            Job::Copy { source, target, .. } => memories.contains(self.bindings[target])
                ==> memories.contains(self.bindings[source]),
            Job::Dispatch { .. } => true,
        }
    }

    /// What the queue's work leaves in these memories depends on them alone:
    /// no other queue works on them, and nothing is copied to them from
    /// elsewhere.
    pub open spec fn isolated(self, queue: u64, memories: Set<u64>) -> bool {
        &&& forall|m: u64| #[trigger] memories.contains(m) ==> self.calm_elsewhere(queue, m)
        &&& forall|i: int|
            0 <= i < self.queued(queue).len() ==> self.confined(
                #[trigger] self.queued(queue)[i],
                memories,
            )
    }

    /// No queue has a copy left that reads or writes the buffer.
    pub open spec fn unused(self, buffer: u64) -> bool {
        forall|q: u64, i: int|
            0 <= i < self.queued(q).len() ==> (#[trigger] self.queued(q)[i] matches Job::Copy {
                source,
                target,
                ..
            } ==> source != buffer && target != buffer)
    }

    /// What the queue has left to do stays within memory that exists.
    pub open spec fn can_settle(self, queue: u64) -> bool {
        self.can_do_all(self.queued(queue))
    }

    /// The world once the queue has done what it had left to do, if nothing
    /// else is done meanwhile.
    pub open spec fn settled(self, queue: u64) -> World {
        World {
            submitted: self.submitted.insert(queue, Seq::empty()),
            ..self.after_jobs(self.queued(queue))
        }
    }

    /// `after` is what waiting for the queue can lead to. The queue has nothing
    /// left to do. Memory that only this queue works on holds what its work
    /// left there; memory that it shares with other queues may hold anything.
    pub open spec fn settles_to(self, queue: u64, after: World) -> bool {
        &&& after == World {
            contents: after.contents,
            submitted: self.submitted.insert(queue, Seq::empty()),
            ..self
        }
        &&& after.contents.dom() == self.contents.dom()
        &&& forall|m: u64| #[trigger]
            self.contents.contains_key(m) ==> after.contents[m].len() == self.contents[m].len()
        &&& forall|memories: Set<u64>, m: u64| #[trigger]
            self.isolated(queue, memories) && #[trigger] memories.contains(m)
                && self.contents.contains_key(m) ==> after.contents[m] == self.settled(
                queue,
            ).contents[m]
    }

    /// The memory is not mapped.
    pub open spec fn unmapped(self, memory: u64) -> bool {
        forall|p: u64| #[trigger] self.mappings.contains_key(p) ==> self.mappings[p] != memory
    }

    /// There is a mapping at `mapped` of memory of at least `len` bytes.
    pub open spec fn maps(self, mapped: u64, len: nat) -> bool {
        &&& self.mappings.contains_key(mapped)
        &&& self.contents.contains_key(self.mappings[mapped])
        &&& self.contents[self.mappings[mapped]].len() >= len
    }

    /// The host can access `len` bytes through the mapping at `mapped`: they
    /// are there, and no queue works on them.
    pub open spec fn can_access(self, mapped: u64, len: nat) -> bool {
        self.maps(mapped, len) && self.calm(self.mappings[mapped])
    }

    /// The driver can answer `command` with `reply` and be as `after` says
    /// then. Nothing is said of a call that Vulkan does not allow.
    pub open spec fn allows(self, command: Command, reply: Reply, after: World) -> bool {
        &&& command.answered_by(reply)
        &&& reply is Failed ==> after == self
        &&& !(reply is Failed) ==> match command {
            Command::CreateBuffer { size, .. } => {
                let buffer = reply->Handle_0;
                &&& !self.sizes.contains_key(buffer)
                &&& after == World { sizes: self.sizes.insert(buffer, size), ..self }
            },
            Command::MeasureBuffer { buffer } => self.sizes.contains_key(buffer) ==> {
                &&& reply->size >= self.sizes[buffer]
                &&& after == self
            },
            Command::AllocateMemory { size, .. } => {
                let memory = reply->Handle_0;
                &&& !self.contents.contains_key(memory)
                &&& after.contents[memory].len() == size
                &&& after == World {
                    contents: self.contents.insert(memory, after.contents[memory]),
                    ..self
                }
            },
            Command::BindMemory { buffer, memory, offset } => self.sizes.contains_key(buffer)
                && !self.bindings.contains_key(buffer) && self.contents.contains_key(memory)
                && offset == 0 && self.contents[memory].len() >= self.sizes[buffer] ==> after == (World {
                bindings: self.bindings.insert(buffer, memory),
                ..self
            }),
            Command::MapMemory { memory, offset, size } => self.contents.contains_key(memory)
                && self.unmapped(memory) && offset == 0 && self.contents[memory].len() >= size
                ==> {
                let mapped = reply->Handle_0;
                &&& mapped != 0
                &&& !self.mappings.contains_key(mapped)
                &&& after == World { mappings: self.mappings.insert(mapped, memory), ..self }
            },
            Command::Upload { mapped, data } => self.can_access(mapped, data@.len()) ==> {
                let memory = self.mappings[mapped];
                after == (World {
                    contents: self.contents.insert(
                        memory,
                        overwritten(self.contents[memory], data@),
                    ),
                    ..self
                })
            },
            Command::AllocateCommandBuffer { .. } => {
                let recorder = reply->Handle_0;
                &&& !self.recorded.contains_key(recorder)
                &&& after == World {
                    recorded: self.recorded.insert(recorder, Seq::empty()),
                    ..self
                }
            },
            Command::BeginCommandBuffer { recorder, .. } => after == (World {
                recorded: self.recorded.insert(recorder, Seq::empty()),
                ..self
            }),
            Command::CopyBuffer { recorder, source, target, size } => {
                let job = Job::Copy { source, target, size };
                self.recorded.contains_key(recorder) ==> after == (World {
                    recorded: self.recorded.insert(recorder, self.recorded[recorder].push(job)),
                    ..self
                })
            },
            Command::EndCommandBuffer { .. } => after == self,
            Command::Submit { queue, recorder } => self.recorded.contains_key(recorder) ==> after
                == (World {
                submitted: self.submitted.insert(
                    queue,
                    self.queued(queue) + self.recorded[recorder],
                ),
                ..self
            }),
            Command::WaitIdle { queue } => self.can_settle(queue) ==> self.settles_to(queue, after),
            Command::FreeCommandBuffer { recorder, .. } => after == (World {
                recorded: self.recorded.remove(recorder),
                ..self
            }),
            Command::Download { mapped, len } => self.can_access(mapped, len as nat) ==> {
                &&& reply->Bytes_0@ == self.contents[self.mappings[mapped]].take(len as int)
                &&& after == self
            },
        }
    }

    /// The buffer exists and holds `data`, and can be read back.
    pub open spec fn holds(self, buffer: Buffer, data: Seq<u8>) -> bool {
        &&& buffer.len == data.len()
        &&& buffer.len <= buffer.size
        &&& self.backs(buffer.buffer, buffer.size)
        &&& self.bindings[buffer.buffer] == buffer.memory
        &&& self.contents[buffer.memory].take(buffer.len as int) == data
        &&& buffer.mapped != 0
        &&& match (buffer.staging_buffer, buffer.staging_memory) {
            (Some(staging), Some(memory)) => {
                &&& self.backs(staging, buffer.size)
                &&& self.bindings[staging] == memory
                &&& memory != buffer.memory
                &&& self.maps(buffer.mapped, buffer.size as nat)
                &&& self.mappings[buffer.mapped] == memory
            },
            (None, None) => {
                &&& self.maps(buffer.mapped, buffer.size as nat)
                &&& self.mappings[buffer.mapped] == buffer.memory
            },
            _ => false,
        }
    }

    /// The world after one step of a release.
    pub open spec fn after_release(self, step: BufferRelease) -> World {
        match step {
            BufferRelease::DestroyBuffer { buffer } => World {
                sizes: self.sizes.remove(buffer),
                bindings: self.bindings.remove(buffer),
                ..self
            },
            BufferRelease::FreeMemory { memory } => World {
                contents: self.contents.remove(memory),
                mappings: self.mappings.restrict(
                    self.mappings.dom().filter(|p: u64| self.mappings[p] != memory),
                ),
                ..self
            },
        }
    }

    /// The world after all steps of a release, in order.
    pub open spec fn after_releases(self, plan: Seq<BufferRelease>) -> World
        decreases plan.len(),
    {
        if plan.len() == 0 {
            self
        } else {
            self.after_release(plan[0]).after_releases(plan.skip(1))
        }
    }

    /// The step releases something that is there and that no queue works on,
    /// and memory only once no buffer is bound to it.
    pub open spec fn may_release(self, step: BufferRelease) -> bool {
        match step {
            BufferRelease::DestroyBuffer { buffer } => self.sizes.contains_key(buffer)
                && self.unused(buffer),
            BufferRelease::FreeMemory { memory } => {
                &&& self.contents.contains_key(memory)
                &&& self.calm(memory)
                &&& forall|b: u64| #[trigger]
                    self.bindings.contains_key(b) ==> self.bindings[b] != memory
            },
        }
    }

    /// Each step of the release is allowed when its turn comes.
    pub open spec fn may_release_all(self, plan: Seq<BufferRelease>) -> bool
        decreases plan.len(),
    {
        plan.len() > 0 ==> self.may_release(plan[0]) && self.after_release(
            plan[0],
        ).may_release_all(plan.skip(1))
    }
}

} // verus!
