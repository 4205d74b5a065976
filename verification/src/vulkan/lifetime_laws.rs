//! Buffers do not outlive the device: when it may be released, and how all
//! buffers come to be gone by then.

use super::buffer::{Buffer, BufferRelease};
use super::buffer_laws::{gained, law_creation_keeps_order};
use super::device::{DeviceRelease, VulkanDevice};
use super::model::{Job, World};
use super::settling::law_settling_keeps_order;
use vstd::prelude::*;

verus! {

/// No buffer and no memory is left.
pub open spec fn vacant(world: World) -> bool {
    &&& forall|b: u64| !#[trigger] world.sizes.contains_key(b)
    &&& forall|m: u64| !#[trigger] world.contents.contains_key(m)
}

/// No queue has anything left to do.
pub open spec fn idle(world: World) -> bool {
    forall|q: u64| #[trigger] world.queued(q).len() == 0
}

/// A device's objects, with the device itself and what it stands on.
pub struct Session {
    /// The buffers, memory and queues.
    pub world: World,
    /// The command pools that are there.
    pub pools: Set<u64>,
    /// The logical devices that are there.
    pub devices: Set<u64>,
    /// The instances that are there.
    pub instances: Set<u64>,
}

impl Session {
    /// Vulkan allows this step of a device's release: a pool goes once its work
    /// is done, the device once everything made on it is gone, the instance
    /// once its device is gone.
    pub open spec fn may_release(self, step: DeviceRelease) -> bool {
        match step {
            DeviceRelease::WaitIdle { device } => self.devices.contains(device),
            DeviceRelease::DestroyCommandPool { pool } => self.pools.contains(pool) && idle(
                self.world,
            ),
            DeviceRelease::DestroyDevice { device } => self.devices.contains(device) && vacant(
                self.world,
            ) && idle(self.world) && self.pools == Set::<u64>::empty(),
            DeviceRelease::DestroyInstance { instance } => self.instances.contains(instance)
                && self.devices == Set::<u64>::empty(),
        }
    }

    /// `after` is what the step can lead to. Waiting leaves no work, and may
    /// change what memory holds.
    pub open spec fn releases_to(self, step: DeviceRelease, after: Session) -> bool {
        match step {
            DeviceRelease::WaitIdle { .. } => {
                &&& after == Session { world: after.world, ..self }
                &&& idle(after.world)
                &&& after.world.sizes == self.world.sizes
                &&& after.world.contents.dom() == self.world.contents.dom()
            },
            DeviceRelease::DestroyCommandPool { pool } => after == (Session {
                pools: self.pools.remove(pool),
                ..self
            }),
            DeviceRelease::DestroyDevice { device } => after == (Session {
                devices: self.devices.remove(device),
                ..self
            }),
            DeviceRelease::DestroyInstance { instance } => after == (Session {
                instances: self.instances.remove(instance),
                ..self
            }),
        }
    }

    /// Each step of the release is allowed when its turn comes.
    pub open spec fn may_release_all(self, plan: Seq<DeviceRelease>) -> bool
        decreases plan.len(),
    {
        plan.len() > 0 ==> {
            &&& self.may_release(plan[0])
            &&& forall|after: Session| #[trigger]
                self.releases_to(plan[0], after) ==> after.may_release_all(plan.skip(1))
        }
    }
}

/// A device may be released exactly when no buffer and no memory made on it is
/// left.
pub proof fn law_device_outlives_its_buffers(device: VulkanDevice, session: Session)
    requires
        session.pools == set![device.command_pool],
        session.devices == set![device.device],
        session.instances == set![device.instance],
    ensures
        session.may_release_all(device.release()) <==> vacant(session.world),
{
    reveal_with_fuel(Session::may_release_all, 5);
    let plan = device.release();
    let rest1 = plan.skip(1);
    let rest2 = rest1.skip(1);
    let rest3 = rest2.skip(1);
    assert(rest1[0] == plan[1] && rest2[0] == plan[2] && rest3[0] == plan[3]);
    assert(rest3.skip(1).len() == 0);
    if vacant(session.world) {
        assert forall|s1: Session| #[trigger] session.releases_to(
            plan[0],
            s1,
        ) implies s1.may_release_all(rest1) by {
            assert(vacant(s1.world)) by {
                assert forall|m: u64| !#[trigger] s1.world.contents.contains_key(m) by {
                    assert(!session.world.contents.contains_key(m));
                }
            }
            assert forall|s2: Session| #[trigger] s1.releases_to(
                plan[1],
                s2,
            ) implies s2.may_release_all(rest2) by {
                assert(s2.pools =~= Set::<u64>::empty());
                assert forall|s3: Session| #[trigger] s2.releases_to(
                    plan[2],
                    s3,
                ) implies s3.may_release_all(rest3) by {
                    assert(s3.devices =~= Set::<u64>::empty());
                }
            }
        }
    }
    if session.may_release_all(plan) {
        let quiet = World {
            submitted: session.world.submitted.map_values(|jobs: Seq<Job>| Seq::<Job>::empty()),
            ..session.world
        };
        let s1 = Session { world: quiet, ..session };
        assert(session.releases_to(plan[0], s1));
        let s2 = Session { pools: s1.pools.remove(device.command_pool), ..s1 };
        assert(s1.releases_to(plan[1], s2));
        assert(s2.may_release(plan[2]));
        assert forall|b: u64| !#[trigger] session.world.sizes.contains_key(b) by {
            assert(!s2.world.sizes.contains_key(b));
        }
        assert forall|m: u64| !#[trigger] session.world.contents.contains_key(m) by {
            assert(!s2.world.contents.contains_key(m));
        }
    }
}

/// The buffer handles that belong to a buffer.
pub open spec fn own_buffers(buffer: Buffer) -> Set<u64> {
    match buffer.staging_buffer {
        Some(staging) => set![buffer.buffer, staging],
        None => set![buffer.buffer],
    }
}

/// The memory that belongs to a buffer.
pub open spec fn own_memory(buffer: Buffer) -> Set<u64> {
    match buffer.staging_memory {
        Some(memory) => set![buffer.memory, memory],
        None => set![buffer.memory],
    }
}

/// The buffer and its staging buffer are there, each bound to memory of its
/// own.
pub open spec fn stands(world: World, buffer: Buffer) -> bool {
    &&& world.sizes.contains_key(buffer.buffer)
    &&& world.bindings.contains_key(buffer.buffer)
    &&& world.bindings[buffer.buffer] == buffer.memory
    &&& world.contents.contains_key(buffer.memory)
    &&& match (buffer.staging_buffer, buffer.staging_memory) {
        (Some(staging), Some(memory)) => {
            &&& staging != buffer.buffer
            &&& memory != buffer.memory
            &&& world.sizes.contains_key(staging)
            &&& world.bindings.contains_key(staging)
            &&& world.bindings[staging] == memory
            &&& world.contents.contains_key(memory)
        },
        (None, None) => true,
        _ => false,
    }
}

/// Nothing belongs to both buffers.
pub open spec fn apart(one: Buffer, other: Buffer) -> bool {
    own_buffers(one).disjoint(own_buffers(other)) && own_memory(one).disjoint(own_memory(other))
}

/// Some of the buffers owns the buffer handle.
#[verifier::opaque]
pub open spec fn some_owns_buffer(buffers: Seq<Buffer>, handle: u64) -> bool {
    exists|i: int| 0 <= i < buffers.len() && own_buffers(#[trigger] buffers[i]).contains(handle)
}

/// Some of the buffers owns the memory.
#[verifier::opaque]
pub open spec fn some_owns_memory(buffers: Seq<Buffer>, memory: u64) -> bool {
    exists|i: int| 0 <= i < buffers.len() && own_memory(#[trigger] buffers[i]).contains(memory)
}

/// The world holds these buffers, what belongs to them, and nothing else.
pub open spec fn holds_exactly(world: World, buffers: Seq<Buffer>) -> bool {
    &&& world.wf()
    &&& forall|i: int| 0 <= i < buffers.len() ==> stands(world, #[trigger] buffers[i])
    &&& forall|b: u64| #[trigger]
        world.sizes.contains_key(b) ==> some_owns_buffer(buffers, b)
    &&& forall|m: u64| #[trigger]
        world.contents.contains_key(m) ==> some_owns_memory(buffers, m)
    &&& forall|i: int, j: int|
        0 <= i < buffers.len() && 0 <= j < buffers.len() && i != j ==> #[trigger] apart(
            buffers[i],
            buffers[j],
        )
}

/// Where no buffers are held, nothing is left.
pub proof fn law_no_buffers_leave_nothing(world: World)
    requires
        holds_exactly(world, Seq::empty()),
    ensures
        vacant(world),
{
    reveal(some_owns_buffer);
    reveal(some_owns_memory);
}

/// What stood before a creation stands after it, apart from what was created.
proof fn lemma_gain_keeps_others(before: World, after: World, created: Buffer, other: Buffer)
    requires
        before.wf(),
        gained(before, after, created),
        stands(before, other),
    ensures
        stands(after, other),
        apart(other, created),
        apart(created, other),
{
}

/// What was created stands, and nothing else is new.
proof fn lemma_gain_is_owned(before: World, after: World, created: Buffer)
    requires
        gained(before, after, created),
    ensures
        stands(after, created),
        forall|b: u64| #[trigger]
            after.sizes.contains_key(b) ==> before.sizes.contains_key(b) || own_buffers(
                created,
            ).contains(b),
        forall|m: u64| #[trigger]
            after.contents.contains_key(m) ==> before.contents.contains_key(m) || own_memory(
                created,
            ).contains(m),
{
}

/// One more buffer, apart from those that are held, is held with them.
proof fn lemma_one_more(before: World, buffers: Seq<Buffer>, after: World, created: Buffer)
    requires
        holds_exactly(before, buffers),
        after.wf(),
        stands(after, created),
        forall|i: int|
            0 <= i < buffers.len() ==> stands(after, #[trigger] buffers[i]) && apart(
                buffers[i],
                created,
            ) && apart(created, buffers[i]),
        forall|b: u64| #[trigger]
            after.sizes.contains_key(b) ==> before.sizes.contains_key(b) || own_buffers(
                created,
            ).contains(b),
        forall|m: u64| #[trigger]
            after.contents.contains_key(m) ==> before.contents.contains_key(m) || own_memory(
                created,
            ).contains(m),
    ensures
        holds_exactly(after, buffers.push(created)),
{
    let more = buffers.push(created);
    let n = buffers.len() as int;
    assert(more[n] == created);
    assert forall|i: int| 0 <= i < more.len() implies stands(after, #[trigger] more[i]) by {
        if i < n {
            assert(more[i] == buffers[i]);
        }
    }
    assert forall|b: u64| #[trigger] after.sizes.contains_key(b) implies some_owns_buffer(
        more,
        b,
    ) by {
        reveal(some_owns_buffer);
        if before.sizes.contains_key(b) {
            let i = choose|i: int|
                0 <= i < buffers.len() && own_buffers(#[trigger] buffers[i]).contains(b);
            assert(more[i] == buffers[i]);
        }
    }
    assert forall|m: u64| #[trigger] after.contents.contains_key(m) implies some_owns_memory(
        more,
        m,
    ) by {
        reveal(some_owns_memory);
        if before.contents.contains_key(m) {
            let i = choose|i: int|
                0 <= i < buffers.len() && own_memory(#[trigger] buffers[i]).contains(m);
            assert(more[i] == buffers[i]);
        }
    }
    assert forall|i: int, j: int|
        0 <= i < more.len() && 0 <= j < more.len() && i != j implies #[trigger] apart(
        more[i],
        more[j],
    ) by {
        if i < n {
            assert(more[i] == buffers[i]);
        }
        if j < n {
            assert(more[j] == buffers[j]);
        }
        if i < n && j < n {
            assert(apart(buffers[i], buffers[j]));
        }
    }
}

/// Creating a buffer adds it to those that are held.
pub proof fn law_creation_adds_one(
    before: World,
    buffers: Seq<Buffer>,
    after: World,
    created: Buffer,
)
    requires
        holds_exactly(before, buffers),
        gained(before, after, created),
    ensures
        holds_exactly(after, buffers.push(created)),
{
    law_creation_keeps_order(before, after, created);
    lemma_gain_is_owned(before, after, created);
    assert forall|i: int| 0 <= i < buffers.len() implies stands(after, #[trigger] buffers[i])
        && apart(buffers[i], created) && apart(created, buffers[i]) by {
        assert(stands(before, buffers[i]));
        lemma_gain_keeps_others(before, after, created, buffers[i]);
    }
    lemma_one_more(before, buffers, after, created);
}

/// Waiting for a queue leaves the buffers that are held.
pub proof fn law_waiting_keeps_buffers(
    before: World,
    buffers: Seq<Buffer>,
    queue: u64,
    after: World,
)
    requires
        holds_exactly(before, buffers),
        before.settles_to(queue, after),
    ensures
        holds_exactly(after, buffers),
{
    law_settling_keeps_order(before, queue, after);
    assert forall|i: int| 0 <= i < buffers.len() implies stands(after, #[trigger] buffers[i]) by {
        assert(stands(before, buffers[i]));
    }
}

/// The queues have nothing left to do with the buffer.
pub open spec fn done_with(world: World, buffer: Buffer) -> bool {
    &&& forall|b: u64| own_buffers(buffer).contains(b) ==> #[trigger] world.unused(b)
    &&& forall|m: u64| own_memory(buffer).contains(m) ==> #[trigger] world.calm(m)
}

/// What is left of a world once a buffer is gone.
pub open spec fn without(world: World, buffer: Buffer) -> World {
    World {
        sizes: world.sizes.remove_keys(own_buffers(buffer)),
        bindings: world.bindings.remove_keys(own_buffers(buffer)),
        contents: world.contents.remove_keys(own_memory(buffer)),
        mappings: world.mappings.restrict(
            world.mappings.dom().filter(|p: u64| !own_memory(buffer).contains(world.mappings[p])),
        ),
        ..world
    }
}

/// Destroying a buffer that no copy uses leaves what work touches as it was.
proof fn lemma_destroy_keeps_calm(world: World, buffer: u64, memory: u64)
    requires
        world.unused(buffer),
        world.calm(memory),
    ensures
        world.after_release(BufferRelease::DestroyBuffer { buffer }).calm(memory),
{
    let after = world.after_release(BufferRelease::DestroyBuffer { buffer });
    assert(forall|q: u64| after.queued(q) == world.queued(q));
    assert forall|q: u64, i: int| 0 <= i < after.queued(q).len() implies !after.touches(
        #[trigger] after.queued(q)[i],
        memory,
    ) by {
        assert(!world.touches(world.queued(q)[i], memory));
    }
}

/// Any release leaves unused what was unused.
proof fn lemma_release_keeps_unused(world: World, step: BufferRelease, buffer: u64)
    requires
        world.unused(buffer),
    ensures
        world.after_release(step).unused(buffer),
{
    let after = world.after_release(step);
    assert(forall|q: u64| after.queued(q) == world.queued(q));
}

/// Freeing memory leaves calm what was calm.
proof fn lemma_free_keeps_calm(world: World, freed: u64, memory: u64)
    requires
        world.calm(memory),
    ensures
        world.after_release(BufferRelease::FreeMemory { memory: freed }).calm(memory),
{
    let after = world.after_release(BufferRelease::FreeMemory { memory: freed });
    assert(forall|q: u64| after.queued(q) == world.queued(q));
    assert forall|q: u64, i: int| 0 <= i < after.queued(q).len() implies !after.touches(
        #[trigger] after.queued(q)[i],
        memory,
    ) by {
        assert(!world.touches(world.queued(q)[i], memory));
    }
}

/// Running a buffer's release is allowed step by step where only it is bound to
/// its memory, and takes away the buffer and what belongs to it.
proof fn lemma_release_runs(world: World, buffer: Buffer)
    requires
        stands(world, buffer),
        done_with(world, buffer),
        forall|b: u64| #[trigger]
            world.bindings.contains_key(b) && own_memory(buffer).contains(world.bindings[b])
                ==> own_buffers(buffer).contains(b),
    ensures
        world.may_release_all(buffer.release()),
        world.after_releases(buffer.release()) == without(world, buffer),
{
    reveal_with_fuel(World::after_releases, 5);
    reveal_with_fuel(World::may_release_all, 5);
    let plan = buffer.release();
    let end = without(world, buffer);
    assert(own_buffers(buffer).contains(buffer.buffer));
    assert(own_memory(buffer).contains(buffer.memory));
    match (buffer.staging_buffer, buffer.staging_memory) {
        (Some(staging), Some(memory)) => {
            assert(plan =~= seq![
                BufferRelease::DestroyBuffer { buffer: staging },
                BufferRelease::FreeMemory { memory },
                BufferRelease::DestroyBuffer { buffer: buffer.buffer },
                BufferRelease::FreeMemory { memory: buffer.memory },
            ]);
            assert(own_buffers(buffer).contains(staging));
            assert(own_memory(buffer).contains(memory));
            let w1 = world.after_release(plan[0]);
            let w2 = w1.after_release(plan[1]);
            let w3 = w2.after_release(plan[2]);
            let w4 = w3.after_release(plan[3]);
            assert(plan.skip(1)[0] == plan[1]);
            assert(plan.skip(1).skip(1)[0] == plan[2]);
            assert(plan.skip(1).skip(1).skip(1)[0] == plan[3]);
            lemma_destroy_keeps_calm(world, staging, memory);
            lemma_destroy_keeps_calm(world, staging, buffer.memory);
            lemma_release_keeps_unused(world, plan[0], buffer.buffer);
            lemma_release_keeps_unused(w1, plan[1], buffer.buffer);
            lemma_free_keeps_calm(w1, memory, buffer.memory);
            lemma_destroy_keeps_calm(w2, buffer.buffer, buffer.memory);
            assert(world.may_release(plan[0]));
            assert(w1.may_release(plan[1]));
            assert(w2.may_release(plan[2]));
            assert(w3.may_release(plan[3]));
            assert(world.after_releases(plan) == w4);
            assert(w4.sizes =~= end.sizes);
            assert(w4.bindings =~= end.bindings);
            assert(w4.contents =~= end.contents);
            assert(w4.mappings =~= end.mappings);
        },
        _ => {
            assert(plan =~= seq![
                BufferRelease::DestroyBuffer { buffer: buffer.buffer },
                BufferRelease::FreeMemory { memory: buffer.memory },
            ]);
            let w1 = world.after_release(plan[0]);
            let w2 = w1.after_release(plan[1]);
            assert(plan.skip(1)[0] == plan[1]);
            lemma_destroy_keeps_calm(world, buffer.buffer, buffer.memory);
            assert(world.may_release(plan[0]));
            assert(w1.may_release(plan[1]));
            assert(world.after_releases(plan) == w2);
            assert(w2.sizes =~= end.sizes);
            assert(w2.bindings =~= end.bindings);
            assert(w2.contents =~= end.contents);
            assert(w2.mappings =~= end.mappings);
        },
    }
}

/// Releasing any of the buffers that are held, once the queues are done with
/// it, is allowed step by step and leaves the others.
pub proof fn law_release_removes_one(world: World, buffers: Seq<Buffer>, index: int)
    requires
        holds_exactly(world, buffers),
        0 <= index < buffers.len(),
        done_with(world, buffers[index]),
    ensures
        world.may_release_all(buffers[index].release()),
        holds_exactly(
            world.after_releases(buffers[index].release()),
            buffers.remove(index),
        ),
{
    let buffer = buffers[index];
    let end = without(world, buffer);
    assert(stands(world, buffer));
    assert forall|b: u64| #[trigger]
        world.bindings.contains_key(b) && own_memory(buffer).contains(
            world.bindings[b],
        ) implies own_buffers(buffer).contains(b) by {
        assert(world.sizes.contains_key(b));
        reveal(some_owns_buffer);
        let i = choose|i: int|
            0 <= i < buffers.len() && own_buffers(#[trigger] buffers[i]).contains(b);
        assert(stands(world, buffers[i]));
        assert(own_memory(buffers[i]).contains(world.bindings[b]));
        if i != index {
            assert(apart(buffers[i], buffers[index]));
        }
    }
    lemma_release_runs(world, buffer);
    lemma_without_keeps_order(world, buffer);
    assert forall|i: int| 0 <= i < buffers.len() && i != index implies stands(
        end,
        #[trigger] buffers[i],
    ) by {
        assert(stands(world, buffers[i]));
        assert(apart(buffers[i], buffers[index]));
        lemma_without_keeps_others(world, buffer, buffers[i]);
    }
    lemma_one_less(world, buffers, index, end);
}

/// What is apart from a buffer stands without it.
proof fn lemma_without_keeps_others(world: World, buffer: Buffer, other: Buffer)
    requires
        stands(world, other),
        apart(other, buffer),
    ensures
        stands(without(world, buffer), other),
{
    assert(own_buffers(other).contains(other.buffer));
    assert(own_memory(other).contains(other.memory));
    if let Some(staging) = other.staging_buffer {
        assert(own_buffers(other).contains(staging));
    }
    if let Some(memory) = other.staging_memory {
        assert(own_memory(other).contains(memory));
    }
}

/// Where one buffer is gone and the others stand, the others are held.
proof fn lemma_one_less(world: World, buffers: Seq<Buffer>, index: int, end: World)
    requires
        holds_exactly(world, buffers),
        0 <= index < buffers.len(),
        end.wf(),
        forall|i: int|
            0 <= i < buffers.len() && i != index ==> stands(end, #[trigger] buffers[i]),
        forall|b: u64| #[trigger]
            end.sizes.contains_key(b) ==> world.sizes.contains_key(b) && !own_buffers(
                buffers[index],
            ).contains(b),
        forall|m: u64| #[trigger]
            end.contents.contains_key(m) ==> world.contents.contains_key(m) && !own_memory(
                buffers[index],
            ).contains(m),
    ensures
        holds_exactly(end, buffers.remove(index)),
{
    let fewer = buffers.remove(index);
    assert(forall|i: int| 0 <= i < index ==> #[trigger] fewer[i] == buffers[i]);
    assert(forall|i: int| index <= i < fewer.len() ==> #[trigger] fewer[i] == buffers[i + 1]);
    assert forall|b: u64| #[trigger] end.sizes.contains_key(b) implies some_owns_buffer(
        fewer,
        b,
    ) by {
        reveal(some_owns_buffer);
        let i = choose|i: int|
            0 <= i < buffers.len() && own_buffers(#[trigger] buffers[i]).contains(b);
        let j = if i < index {
            i
        } else {
            i - 1
        };
        assert(fewer[j] == buffers[i]);
    }
    assert forall|m: u64| #[trigger] end.contents.contains_key(m) implies some_owns_memory(
        fewer,
        m,
    ) by {
        reveal(some_owns_memory);
        let i = choose|i: int|
            0 <= i < buffers.len() && own_memory(#[trigger] buffers[i]).contains(m);
        let j = if i < index {
            i
        } else {
            i - 1
        };
        assert(fewer[j] == buffers[i]);
    }
    assert forall|i: int, j: int|
        0 <= i < fewer.len() && 0 <= j < fewer.len() && i != j implies #[trigger] apart(
        fewer[i],
        fewer[j],
    ) by {
        let k = if i < index {
            i
        } else {
            i + 1
        };
        let l = if j < index {
            j
        } else {
            j + 1
        };
        assert(apart(buffers[k], buffers[l]));
    }
}

/// A world without the buffer is in order where the queues are done with it.
proof fn lemma_without_keeps_order(world: World, buffer: Buffer)
    requires
        world.wf(),
        done_with(world, buffer),
        forall|b: u64| #[trigger]
            world.bindings.contains_key(b) && own_memory(buffer).contains(world.bindings[b])
                ==> own_buffers(buffer).contains(b),
    ensures
        without(world, buffer).wf(),
{
    let end = without(world, buffer);
    assert forall|b: u64| #[trigger]
        end.bindings.contains_key(b) implies end.sizes.contains_key(b)
        && end.contents.contains_key(end.bindings[b]) by {
        assert(world.bindings.contains_key(b));
    }
    assert forall|p: u64| #[trigger]
        end.mappings.contains_key(p) implies end.contents.contains_key(end.mappings[p]) by {
        assert(world.mappings.contains_key(p));
    }
    assert forall|q: u64| #[trigger] end.can_settle(q) by {
        assert(world.can_settle(q));
        assert(end.queued(q) == world.queued(q));
        assert forall|i: int| 0 <= i < end.queued(q).len() implies end.can_do(
            #[trigger] end.queued(q)[i],
        ) by {
            let job = world.queued(q)[i];
            assert(world.can_do(job));
            match job {
                Job::Copy { source, target, .. } => {
                    if own_buffers(buffer).contains(source) {
                        assert(world.unused(source));
                    }
                    if own_buffers(buffer).contains(target) {
                        assert(world.unused(target));
                    }
                },
                Job::Dispatch { writes } => {
                    assert forall|m: u64| #[trigger]
                        writes.contains_key(m) implies end.contents.contains_key(m)
                        && writes[m].len() == end.contents[m].len() by {
                        if own_memory(buffer).contains(m) {
                            assert(world.calm(m));
                            assert(world.touches(job, m));
                        }
                    }
                },
            }
        }
    }
}

/// The world once all the buffers are released, the last first.
pub open spec fn after_all_releases(world: World, buffers: Seq<Buffer>) -> World
    decreases buffers.len(),
{
    if buffers.len() == 0 {
        world
    } else {
        after_all_releases(
            world.after_releases(buffers.last().release()),
            buffers.drop_last(),
        )
    }
}

/// Each buffer may be released when its turn comes, the last first.
pub open spec fn may_release_each(world: World, buffers: Seq<Buffer>) -> bool
    decreases buffers.len(),
{
    buffers.len() > 0 ==> {
        &&& world.may_release_all(buffers.last().release())
        &&& may_release_each(
            world.after_releases(buffers.last().release()),
            buffers.drop_last(),
        )
    }
}

/// Once the work is done, every buffer may be released; and once each buffer's
/// release has run, nothing made on the device is left, and the device may be
/// released.
pub proof fn law_device_can_go_once_its_buffers_are_gone(
    device: VulkanDevice,
    session: Session,
    buffers: Seq<Buffer>,
)
    requires
        session.pools == set![device.command_pool],
        session.devices == set![device.device],
        session.instances == set![device.instance],
        holds_exactly(session.world, buffers),
        idle(session.world),
    ensures
        may_release_each(session.world, buffers),
        vacant(after_all_releases(session.world, buffers)),
        (Session {
            world: after_all_releases(session.world, buffers),
            ..session
        }).may_release_all(device.release()),
    decreases buffers.len(),
{
    if buffers.len() > 0 {
        let last = buffers.len() - 1;
        let world = session.world;
        assert forall|b: u64| own_buffers(buffers[last]).contains(
            b,
        ) implies #[trigger] world.unused(b) by {}
        assert forall|m: u64| own_memory(buffers[last]).contains(m) implies #[trigger] world.calm(
            m,
        ) by {}
        law_release_removes_one(world, buffers, last);
        assert(buffers.remove(last) =~= buffers.drop_last());
        let next = world.after_releases(buffers.last().release());
        lemma_releases_keep_queues(world, buffers.last().release());
        assert forall|q: u64| #[trigger] next.queued(q).len() == 0 by {
            assert(world.queued(q).len() == 0);
        }
        law_device_can_go_once_its_buffers_are_gone(
            device,
            Session { world: next, ..session },
            buffers.drop_last(),
        );
    } else {
        assert(buffers =~= Seq::<Buffer>::empty());
        law_no_buffers_leave_nothing(session.world);
    }
    let end = Session { world: after_all_releases(session.world, buffers), ..session };
    law_device_outlives_its_buffers(device, end);
}

/// Releases change nothing on the queues.
proof fn lemma_releases_keep_queues(world: World, plan: Seq<BufferRelease>)
    ensures
        world.after_releases(plan).submitted == world.submitted,
    decreases plan.len(),
{
    if plan.len() > 0 {
        lemma_releases_keep_queues(world.after_release(plan[0]), plan.skip(1));
    }
}

} // verus!
