//! What whole buffer operations achieve on a driver that keeps its promises.

use super::allocation::{new_allocation, Allocated, Allocation, AllocationPhase, Placement};
use super::buffer::{
    allocation_size, can_allocate, new_creation, new_read, to_upload, whole_elements, Buffer,
    BufferCreation, BufferRead, BufferRelease, CreationPhase, ReadPhase,
};
use super::command::{Command, Outcome, Reply};
use super::device::{staging_usage, VulkanDevice};
use super::memory::{law_align_up_is_least_multiple, no_memory_type};
use super::model::{overwritten, Job, World};
use super::settling::{
    extends, law_settling_keeps_order, lemma_new_memory_is_isolated, lemma_work_depends_on_memory,
    lemma_work_keeps_shape, lemma_work_spares_calm_memory, lemma_work_spares_new_memory,
    lemma_work_stays_in_order,
};
use super::transfer::{new_transfer, Transfer, TransferPhase};
use crate::error::ErrorView;
use vstd::prelude::*;

verus! {

/// One call: the driver's reply, and the world after it.
pub struct Call {
    /// The reply.
    pub reply: Reply,
    /// The world after the call.
    pub after: World,
}

/// The creation, run from the world `before`, makes the calls of `trace` and
/// ends in `buffer`.
pub open spec fn creates(
    creation: BufferCreation,
    before: World,
    trace: Seq<Call>,
    buffer: Buffer,
) -> bool
    decreases trace.len(),
{
    &&& trace.len() > 0
    &&& before.allows(creation.wanted(), trace[0].reply, trace[0].after)
    &&& match creation.step(trace[0].reply) {
        Outcome::Pending(next) => creates(next, trace[0].after, trace.skip(1), buffer),
        Outcome::Finished(result) => trace.len() == 1 && result == Ok::<_, ErrorView>(buffer),
    }
}

/// The reading, run from the world `before`, makes the calls of `trace` and
/// ends in `bytes`.
pub open spec fn reads(
    reading: Outcome<BufferRead, Vec<u8>>,
    before: World,
    trace: Seq<Call>,
    bytes: Vec<u8>,
) -> bool
    decreases trace.len(),
{
    match reading {
        Outcome::Finished(result) => trace.len() == 0 && result == Ok::<_, ErrorView>(bytes),
        Outcome::Pending(read) => {
            &&& trace.len() > 0
            &&& before.allows(read.wanted(), trace[0].reply, trace[0].after)
            &&& reads(read.step(trace[0].reply), trace[0].after, trace.skip(1), bytes)
        },
    }
}

/// The allocation started in `start` and has come to `now`.
spec fn allocation_at(a: Allocation, start: World, now: World) -> bool {
    match a.phase {
        AllocationPhase::Creating => now == start,
        AllocationPhase::Measuring { buffer } => {
            &&& !start.sizes.contains_key(buffer)
            &&& now == World { sizes: start.sizes.insert(buffer, a.size), ..start }
        },
        AllocationPhase::Allocating { buffer, size, .. } => {
            &&& !start.sizes.contains_key(buffer)
            &&& now == World { sizes: start.sizes.insert(buffer, a.size), ..start }
            &&& size >= a.size
        },
        AllocationPhase::Binding { buffer, memory } => {
            &&& !start.sizes.contains_key(buffer)
            &&& !start.contents.contains_key(memory)
            &&& now.contents[memory].len() >= a.size
            &&& now == World {
                sizes: start.sizes.insert(buffer, a.size),
                contents: start.contents.insert(memory, now.contents[memory]),
                ..start
            }
        },
        AllocationPhase::Mapping { buffer, memory } => {
            &&& a.placement is Host
            &&& !start.sizes.contains_key(buffer)
            &&& !start.contents.contains_key(memory)
            &&& now.contents[memory].len() >= a.size
            &&& now == World {
                sizes: start.sizes.insert(buffer, a.size),
                contents: start.contents.insert(memory, now.contents[memory]),
                bindings: start.bindings.insert(buffer, memory),
                ..start
            }
        },
    }
}

/// An allocation that started in `start` ended in `now` with `made`.
spec fn allocation_done(
    size: u64,
    placement: Placement,
    start: World,
    now: World,
    made: Allocated,
) -> bool {
    &&& !start.sizes.contains_key(made.buffer)
    &&& !start.contents.contains_key(made.memory)
    &&& now.contents[made.memory].len() >= size
    &&& placement is Host ==> made.mapped != 0 && !start.mappings.contains_key(made.mapped)
    &&& now == World {
        sizes: start.sizes.insert(made.buffer, size),
        contents: start.contents.insert(made.memory, now.contents[made.memory]),
        bindings: start.bindings.insert(made.buffer, made.memory),
        mappings: if placement is Host {
            start.mappings.insert(made.mapped, made.memory)
        } else {
            start.mappings
        },
        ..start
    }
}

proof fn lemma_allocation_step(
    a: Allocation,
    start: World,
    now: World,
    reply: Reply,
    after: World,
)
    requires
        start.wf(),
        allocation_at(a, start, now),
        now.allows(a.wanted(), reply, after),
    ensures
        match a.step(reply) {
            Outcome::Pending(next) => allocation_at(next, start, after) && next.size == a.size
                && next.placement == a.placement && next.memory == a.memory,
            Outcome::Finished(Ok(made)) => allocation_done(
                a.size,
                a.placement,
                start,
                after,
                made,
            ),
            Outcome::Finished(Err(_)) => true,
        },
{
    if !(reply is Failed) {
        match a.phase {
            AllocationPhase::Allocating { buffer, .. } => {
                let memory = reply->Handle_0;
                assert(after =~= World {
                    sizes: start.sizes.insert(buffer, a.size),
                    contents: start.contents.insert(memory, after.contents[memory]),
                    ..start
                });
            },
            _ => {},
        }
    }
}

/// An allocation keeps the world in order.
proof fn lemma_allocation_keeps_order(
    size: u64,
    placement: Placement,
    start: World,
    now: World,
    made: Allocated,
)
    requires
        start.wf(),
        allocation_done(size, placement, start, now, made),
    ensures
        now.wf(),
{
    assert(!start.bindings.contains_key(made.buffer));
    lemma_work_stays_in_order(start, now);
}

/// The copy that a transfer is for.
spec fn job_of(t: Transfer) -> Job {
    Job::Copy { source: t.source, target: t.target, size: t.size }
}

/// The transfer started in `start` and has come to `now`.
spec fn transfer_at(t: Transfer, start: World, now: World) -> bool {
    match t.phase {
        TransferPhase::Allocating => now == start,
        TransferPhase::Beginning { recorder } => {
            &&& now == World { recorded: now.recorded, ..start }
            &&& now.recorded.contains_key(recorder)
        },
        TransferPhase::Recording { recorder } => {
            &&& now == World { recorded: now.recorded, ..start }
            &&& now.recorded.contains_key(recorder)
            &&& now.recorded[recorder] == Seq::<Job>::empty()
        },
        TransferPhase::Ending { recorder } | TransferPhase::Submitting { recorder } => {
            &&& now == World { recorded: now.recorded, ..start }
            &&& now.recorded.contains_key(recorder)
            &&& now.recorded[recorder] == seq![job_of(t)]
        },
        TransferPhase::Waiting { .. } => now == World {
            recorded: now.recorded,
            ..waiting(t, start)
        },
        TransferPhase::Freeing { .. } => transfer_done(t, start, now),
    }
}

/// The world that a transfer waits in: the copy is submitted.
spec fn waiting(t: Transfer, start: World) -> World {
    World {
        submitted: start.submitted.insert(t.queue, start.queued(t.queue).push(job_of(t))),
        ..start
    }
}

/// The transfer that started in `start` ended in `now`: the queue did what it
/// had left to do, and then the copy.
spec fn transfer_done(t: Transfer, start: World, now: World) -> bool {
    waiting(t, start).settles_to(t.queue, World { recorded: start.recorded, ..now })
}

/// The transfer and the work before it stay within memory that exists.
spec fn can_transfer(t: Transfer, start: World) -> bool {
    start.can_settle(t.queue) && start.can_do(job_of(t))
}

/// Waiting does what was left to do, and then the copy.
proof fn lemma_wait(t: Transfer, start: World, now: World, after: World)
    requires
        can_transfer(t, start),
        now == (World { recorded: now.recorded, ..waiting(t, start) }),
        now.allows(Command::WaitIdle { queue: t.queue }, Reply::Completed, after),
    ensures
        transfer_done(t, start, after),
{
    let w = waiting(t, start);
    let jobs = start.queued(t.queue).push(job_of(t));
    assert(now.queued(t.queue) == jobs && w.queued(t.queue) == jobs);
    assert(forall|q: u64| now.queued(q) == w.queued(q));
    assert forall|i: int| 0 <= i < jobs.len() implies now.can_do(#[trigger] jobs[i]) by {
        if i < start.queued(t.queue).len() {
            assert(start.can_do(start.queued(t.queue)[i]));
        }
    }
    assert(now.settles_to(t.queue, after));
    lemma_work_depends_on_memory(w, now, jobs);
    let done = World { recorded: start.recorded, ..after };
    assert forall|memories: Set<u64>, m: u64| #[trigger]
        w.isolated(t.queue, memories) && #[trigger] memories.contains(m) && w.contents.contains_key(
            m,
        ) implies done.contents[m] == w.settled(t.queue).contents[m] by {
        assert forall|o: u64| #[trigger] memories.contains(o) implies now.calm_elsewhere(
            t.queue,
            o,
        ) by {
            assert(w.calm_elsewhere(t.queue, o));
            assert forall|q: u64, i: int|
                q != t.queue && 0 <= i < now.queued(q).len() implies !now.touches(
                #[trigger] now.queued(q)[i],
                o,
            ) by {
                assert(!w.touches(w.queued(q)[i], o));
            }
        }
        assert forall|i: int| 0 <= i < now.queued(t.queue).len() implies now.confined(
            #[trigger] now.queued(t.queue)[i],
            memories,
        ) by {
            assert(w.confined(w.queued(t.queue)[i], memories));
        }
        assert(now.isolated(t.queue, memories));
    }
}

/// The waiting world's work is the work that was there and then the copy.
proof fn lemma_waiting_work(t: Transfer, start: World)
    requires
        can_transfer(t, start),
    ensures
        waiting(t, start).settled(t.queue).contents == start.settled(t.queue).after_job(
            job_of(t),
        ).contents,
        start.settled(t.queue).contents.dom() == start.contents.dom(),
        forall|m: u64| #[trigger]
            start.contents.contains_key(m) ==> start.settled(t.queue).contents[m].len()
                == start.contents[m].len(),
        start.settled(t.queue).bindings == start.bindings,
{
    let jobs = start.queued(t.queue);
    let w = waiting(t, start);
    assert(w.queued(t.queue) == jobs.push(job_of(t)));
    assert(jobs.push(job_of(t)).drop_last() =~= jobs);
    lemma_work_depends_on_memory(start, w, jobs);
    lemma_work_keeps_shape(start, jobs);
}

/// Memories that are isolated are so too while a transfer waits, where they
/// hold the copy's source or do not hold its target.
proof fn lemma_isolated_while_waiting(t: Transfer, start: World, memories: Set<u64>)
    requires
        start.isolated(t.queue, memories),
        memories.contains(start.bindings[t.target]) ==> memories.contains(start.bindings[t.source]),
    ensures
        waiting(t, start).isolated(t.queue, memories),
{
    let w = waiting(t, start);
    assert(forall|q: u64| q != t.queue ==> w.queued(q) == start.queued(q));
    assert forall|m: u64| #[trigger] memories.contains(m) implies w.calm_elsewhere(t.queue, m) by {
        assert(start.calm_elsewhere(t.queue, m));
        assert forall|q: u64, i: int|
            q != t.queue && 0 <= i < w.queued(q).len() implies !w.touches(
            #[trigger] w.queued(q)[i],
            m,
        ) by {
            assert(!start.touches(start.queued(q)[i], m));
        }
    }
    let jobs = start.queued(t.queue);
    assert forall|i: int| 0 <= i < w.queued(t.queue).len() implies w.confined(
        #[trigger] w.queued(t.queue)[i],
        memories,
    ) by {
        if i < jobs.len() {
            assert(start.confined(jobs[i], memories));
        }
    }
}

proof fn lemma_transfer_step(t: Transfer, start: World, now: World, reply: Reply, after: World)
    requires
        transfer_at(t, start, now),
        can_transfer(t, start),
        now.allows(t.wanted(), reply, after),
    ensures
        match t.step(reply) {
            Outcome::Pending(next) => transfer_at(next, start, after) && next == t.at(next.phase),
            Outcome::Finished(Ok(_)) => transfer_done(t, start, after),
            Outcome::Finished(Err(_)) => true,
        },
{
    if !(reply is Failed) {
        match t.phase {
            TransferPhase::Recording { recorder } => {
                assert(Seq::<Job>::empty().push(job_of(t)) =~= seq![job_of(t)]);
            },
            TransferPhase::Submitting { recorder } => {
                let jobs = start.queued(t.queue);
                assert(jobs + seq![job_of(t)] =~= jobs.push(job_of(t)));
            },
            TransferPhase::Waiting { recorder } => {
                lemma_wait(t, start, now, after);
            },
            _ => {},
        }
    }
}

/// `now` is `start` with one more buffer, bound to new memory that is mapped.
pub open spec fn gained_one(start: World, now: World, size: u64, host: Allocated) -> bool {
    &&& !start.sizes.contains_key(host.buffer)
    &&& !start.contents.contains_key(host.memory)
    &&& !start.mappings.contains_key(host.mapped)
    &&& host.mapped != 0
    &&& now.contents[host.memory].len() >= size
    &&& now.sizes == start.sizes.insert(host.buffer, size)
    &&& now.bindings == start.bindings.insert(host.buffer, host.memory)
    &&& now.contents == start.contents.insert(host.memory, now.contents[host.memory])
    &&& now.mappings == start.mappings.insert(host.mapped, host.memory)
    &&& now.submitted == start.submitted
}

/// `now` is `start` with two more buffers, each bound to new memory of its own;
/// the memory of the second is mapped.
pub open spec fn gained_two(
    start: World,
    now: World,
    size: u64,
    target: Allocated,
    staging: Allocated,
) -> bool {
    &&& !start.sizes.contains_key(target.buffer)
    &&& !start.sizes.contains_key(staging.buffer)
    &&& target.buffer != staging.buffer
    &&& !start.contents.contains_key(target.memory)
    &&& !start.contents.contains_key(staging.memory)
    &&& target.memory != staging.memory
    &&& !start.mappings.contains_key(staging.mapped)
    &&& staging.mapped != 0
    &&& now.contents[target.memory].len() >= size
    &&& now.contents[staging.memory].len() >= size
    &&& now.sizes == start.sizes.insert(target.buffer, size).insert(staging.buffer, size)
    &&& now.bindings == start.bindings.insert(target.buffer, target.memory).insert(
        staging.buffer,
        staging.memory,
    )
    &&& now.contents == start.contents.insert(
        target.memory,
        now.contents[target.memory],
    ).insert(staging.memory, now.contents[staging.memory])
    &&& now.mappings == start.mappings.insert(staging.mapped, staging.memory)
    &&& now.submitted == start.submitted
}

/// `now` is `start` with the buffer and what belongs to it, and nothing else
/// changed.
pub open spec fn gained(start: World, now: World, buffer: Buffer) -> bool {
    match (buffer.staging_buffer, buffer.staging_memory) {
        (Some(staging), Some(memory)) => gained_two(
            start,
            now,
            buffer.size,
            Allocated { buffer: buffer.buffer, memory: buffer.memory, mapped: 0 },
            Allocated { buffer: staging, memory, mapped: buffer.mapped },
        ),
        (None, None) => gained_one(
            start,
            now,
            buffer.size,
            Allocated { buffer: buffer.buffer, memory: buffer.memory, mapped: buffer.mapped },
        ),
        _ => false,
    }
}

/// The device-local buffer was allocated from `start` to `mid`, and the
/// allocation of the staging buffer has come from `mid` to `now`.
spec fn staging_since(
    target: Allocated,
    staging: Allocation,
    start: World,
    mid: World,
    now: World,
) -> bool {
    &&& allocation_done(staging.size, Placement::DeviceLocal, start, mid, target)
    &&& allocation_at(staging, mid, now)
}

/// The device-local buffer was allocated after `start`, and the allocation of
/// the staging buffer has come to `now`.
spec fn staging_at(target: Allocated, staging: Allocation, start: World, now: World) -> bool {
    exists|mid: World| staging_since(target, staging, start, mid, now)
}

/// Both buffers were allocated and the staging buffer filled from `start` to
/// `mid`, and the transfer has come from `mid` to `now`.
spec fn moving_since(
    target: Allocated,
    staging: Allocated,
    transfer: Transfer,
    bytes: Seq<u8>,
    start: World,
    mid: World,
    now: World,
) -> bool {
    &&& gained_two(start, mid, transfer.size, target, staging)
    &&& mid.contents[staging.memory].take(bytes.len() as int) == bytes
    &&& transfer_at(transfer, mid, now)
}

/// Both buffers were allocated and the staging buffer filled after `start`, and
/// the transfer has come to `now`.
spec fn moving_at(
    target: Allocated,
    staging: Allocated,
    transfer: Transfer,
    bytes: Seq<u8>,
    start: World,
    now: World,
) -> bool {
    exists|mid: World| moving_since(target, staging, transfer, bytes, start, mid, now)
}

/// The creation started in `start` and has come to `now`.
spec fn creation_at(c: BufferCreation, start: World, now: World) -> bool {
    &&& c.len <= c.size
    &&& c.data matches Some(data) ==> data@.len() == c.len
    &&& start.wf()
    &&& match c.phase {
        CreationPhase::Local(a) => {
            &&& a.size == c.size
            &&& a.placement is DeviceLocal
            &&& allocation_at(a, start, now)
        },
        CreationPhase::Staging { target, allocation } => {
            &&& allocation.size == c.size
            &&& allocation.placement is Host
            &&& staging_at(target, allocation, start, now)
        },
        CreationPhase::FillingStaging { target, staging, data } => {
            &&& c.data == Some(data)
            &&& gained_two(start, now, c.size, target, staging)
        },
        CreationPhase::Moving { target, staging, transfer } => {
            &&& c.data is Some
            &&& transfer.queue == c.queue
            &&& transfer.source == staging.buffer
            &&& transfer.target == target.buffer
            &&& transfer.size == c.size
            &&& moving_at(target, staging, transfer, c.data.unwrap()@, start, now)
        },
        CreationPhase::Unified(a) => {
            &&& a.size == c.size
            &&& a.placement is Host
            &&& allocation_at(a, start, now)
        },
        CreationPhase::FillingUnified { host, data } => {
            &&& c.data == Some(data)
            &&& gained_one(start, now, c.size, host)
        },
    }
}

/// `after` is the world, or what waiting for the queue can lead to.
pub open spec fn waits_into(world: World, queue: u64, waits: bool, after: World) -> bool {
    if waits {
        world.settles_to(queue, after)
    } else {
        after == world
    }
}

/// `after` is `before` with the buffer and what belongs to it, and nothing else
/// changed but by waiting for the queue.
pub open spec fn gained_since(
    before: World,
    queue: u64,
    waits: bool,
    after: World,
    buffer: Buffer,
) -> bool {
    exists|base: World| #[trigger]
        waits_into(before, queue, waits, base) && gained(base, after, buffer)
}

/// The creation that started in `start` ended in `now` with `buffer`. It has
/// waited for the queue where it moved data to the device.
spec fn creation_done(c: BufferCreation, start: World, now: World, buffer: Buffer) -> bool {
    let moved = buffer.staging_buffer is Some && c.data is Some;
    &&& buffer.len == c.len
    &&& buffer.size == c.size
    &&& buffer.staging_buffer is Some <==> local_phase(c.phase)
    &&& gained_since(start, c.queue, moved, now, buffer)
    &&& now.holds(buffer, now.contents[buffer.memory].take(c.len as int))
    &&& c.data matches Some(data) ==> now.holds(buffer, data@)
}

/// The creation places the buffer in device-local memory.
spec fn local_phase(phase: CreationPhase) -> bool {
    !(phase is Unified || phase is FillingUnified)
}

/// More buffers, each bound to new memory, keep the world in order and are out
/// of reach of the work that was there.
proof fn lemma_gained_two(
    start: World,
    now: World,
    size: u64,
    target: Allocated,
    staging: Allocated,
)
    requires
        start.wf(),
        gained_two(start, now, size, target, staging),
    ensures
        extends(start, now),
        now.wf(),
        now.calm(target.memory),
        now.calm(staging.memory),
        now.unused(target.buffer),
        now.unused(staging.buffer),
{
    assert(!start.bindings.contains_key(target.buffer));
    assert(!start.bindings.contains_key(staging.buffer));
    lemma_work_stays_in_order(start, now);
}

/// One more buffer, bound to new memory, keeps the world in order and is out of
/// reach of the work that was there.
proof fn lemma_gained_one(start: World, now: World, size: u64, host: Allocated)
    requires
        start.wf(),
        gained_one(start, now, size, host),
    ensures
        extends(start, now),
        now.wf(),
        now.calm(host.memory),
        now.unused(host.buffer),
{
    assert(!start.bindings.contains_key(host.buffer));
    lemma_work_stays_in_order(start, now);
}

/// The part of `now` that was in `start`, once the queue was waited for.
spec fn waited_part(start: World, queue: u64, now: World) -> World {
    World {
        contents: now.contents.restrict(start.contents.dom()),
        submitted: start.submitted.insert(queue, Seq::empty()),
        ..start
    }
}

/// What the work left on the queue and then the copy do to a world with two
/// more buffers: the work leaves them alone, and the copy fills one from the
/// other.
proof fn lemma_moved(
    start: World,
    mid: World,
    now: World,
    t: Transfer,
    target: Allocated,
    staging: Allocated,
)
    requires
        start.wf(),
        gained_two(start, mid, t.size, target, staging),
        t.source == staging.buffer,
        t.target == target.buffer,
        transfer_done(t, mid, now),
    ensures
        start.settles_to(t.queue, waited_part(start, t.queue, now)),
        gained_two(waited_part(start, t.queue, now), now, t.size, target, staging),
        now.contents[target.memory].take(t.size as int) == mid.contents[staging.memory].take(
            t.size as int,
        ),
{
    let jobs = start.queued(t.queue);
    let base = waited_part(start, t.queue, now);
    let settled = mid.settled(t.queue);
    let w = waiting(t, mid);
    lemma_gained_two(start, mid, t.size, target, staging);
    assert(start.can_settle(t.queue) && mid.can_settle(t.queue));
    assert(mid.queued(t.queue) == jobs);
    lemma_work_keeps_shape(start, jobs);
    lemma_work_spares_new_memory(start, mid, jobs);
    lemma_waiting_work(t, mid);
    let new_memory = set![target.memory, staging.memory];
    lemma_new_memory_is_isolated(start, mid, t.queue, new_memory);
    lemma_isolated_while_waiting(t, mid, new_memory);
    assert(new_memory.contains(target.memory) && new_memory.contains(staging.memory));
    let copied = mid.contents[staging.memory].take(t.size as int);
    assert(now.contents[target.memory] == overwritten(mid.contents[target.memory], copied));
    assert(now.contents[target.memory].take(t.size as int) =~= copied);
    assert(base.contents.dom() =~= start.contents.dom());
    assert forall|memories: Set<u64>, m: u64| #[trigger]
        start.isolated(t.queue, memories) && #[trigger] memories.contains(m)
            && start.contents.contains_key(m) implies base.contents[m] == start.settled(
        t.queue,
    ).contents[m] by {
        let old_memory = memories.intersect(start.contents.dom());
        lemma_isolated_in_extension(start, mid, t.queue, memories);
        lemma_isolated_while_waiting(t, mid, old_memory);
        assert(old_memory.contains(m));
        assert(w.isolated(t.queue, old_memory));
        assert(now.contents[m] == w.settled(t.queue).contents[m]);
    }
    assert(now.contents =~= base.contents.insert(
        target.memory,
        now.contents[target.memory],
    ).insert(staging.memory, now.contents[staging.memory]));
    assert(now.submitted =~= base.submitted);
}

/// What is isolated stays so when more buffers and memory come.
proof fn lemma_isolated_in_extension(start: World, mid: World, queue: u64, memories: Set<u64>)
    requires
        start.wf(),
        extends(start, mid),
        mid.submitted == start.submitted,
        start.isolated(queue, memories),
    ensures
        mid.isolated(queue, memories.intersect(start.contents.dom())),
{
    let old_memory = memories.intersect(start.contents.dom());
    assert(forall|q: u64| mid.queued(q) == start.queued(q));
    assert forall|m: u64| #[trigger] old_memory.contains(m) implies mid.calm_elsewhere(
        queue,
        m,
    ) by {
        assert(memories.contains(m));
        assert(start.calm_elsewhere(queue, m));
        assert forall|q: u64, i: int|
            q != queue && 0 <= i < mid.queued(q).len() implies !mid.touches(
            #[trigger] mid.queued(q)[i],
            m,
        ) by {
            assert(start.can_settle(q));
            assert(start.can_do(start.queued(q)[i]));
            assert(!start.touches(start.queued(q)[i], m));
        }
    }
    assert forall|i: int| 0 <= i < mid.queued(queue).len() implies mid.confined(
        #[trigger] mid.queued(queue)[i],
        old_memory,
    ) by {
        assert(start.can_settle(queue));
        assert(start.can_do(start.queued(queue)[i]));
        assert(start.confined(start.queued(queue)[i], memories));
    }
}

/// Where nothing was waited for, the buffer came to the world as it was.
proof fn lemma_nothing_waited(c: BufferCreation, start: World, after: World, buffer: Buffer)
    requires
        gained(start, after, buffer),
    ensures
        gained_since(start, c.queue, false, after, buffer),
{
    assert(waits_into(start, c.queue, false, start) && gained(start, after, buffer));
}

proof fn lemma_creation_step(
    c: BufferCreation,
    start: World,
    now: World,
    reply: Reply,
    after: World,
)
    requires
        creation_at(c, start, now),
        now.allows(c.wanted(), reply, after),
    ensures
        match c.step(reply) {
            Outcome::Pending(next) => creation_at(next, start, after) && next == c.at(next.phase),
            Outcome::Finished(Ok(buffer)) => creation_done(c, start, after, buffer),
            Outcome::Finished(Err(_)) => true,
        },
{
    let queue = c.queue;
    match c.phase {
        CreationPhase::Local(a) => {
            lemma_allocation_step(a, start, now, reply, after);
            if let Outcome::Finished(Ok(target)) = a.step(reply) {
                lemma_allocation_keeps_order(c.size, a.placement, start, after, target);
                let staging = new_allocation(
                    c.memory,
                    Placement::Host,
                    c.size,
                    staging_usage(),
                );
                assert(staging_since(target, staging, start, after, after));
                let next = c.at(CreationPhase::Staging { target, allocation: staging });
                assert(creation_at(next, start, after));
            }
        },
        CreationPhase::Staging { target, allocation } => {
            let mid = choose|mid: World| staging_since(target, allocation, start, mid, now);
            lemma_allocation_keeps_order(c.size, Placement::DeviceLocal, start, mid, target);
            lemma_allocation_step(allocation, mid, now, reply, after);
            match allocation.step(reply) {
                Outcome::Pending(next) => {
                    assert(staging_since(target, next, start, mid, after));
                    let next = c.at(CreationPhase::Staging { target, allocation: next });
                    assert(creation_at(next, start, after));
                },
                Outcome::Finished(Ok(staging)) => {
                    assert(gained_two(start, after, c.size, target, staging));
                    if c.data is None {
                        lemma_nothing_waited(c, start, after, c.made(target, Some(staging)));
                    }
                },
                Outcome::Finished(Err(_)) => {},
            }
        },
        CreationPhase::FillingStaging { target, staging, data } => {
            if reply is Completed {
                lemma_gained_two(start, now, c.size, target, staging);
                let old_bytes = now.contents[staging.memory];
                assert(overwritten(old_bytes, data@).take(c.len as int) =~= data@);
                assert(after.contents[staging.memory] == overwritten(old_bytes, data@));
                assert(after.contents =~= start.contents.insert(
                    target.memory,
                    after.contents[target.memory],
                ).insert(staging.memory, after.contents[staging.memory]));
                assert(gained_two(start, after, c.size, target, staging));
                let transfer = new_transfer(
                    c.command_pool,
                    queue,
                    staging.buffer,
                    target.buffer,
                    c.size,
                );
                assert(moving_since(target, staging, transfer, data@, start, after, after));
                let next = c.at(CreationPhase::Moving { target, staging, transfer });
                assert(creation_at(next, start, after));
            }
        },
        CreationPhase::Moving { target, staging, transfer } => {
            let bytes = c.data.unwrap()@;
            let mid = choose|mid: World|
                moving_since(target, staging, transfer, bytes, start, mid, now);
            lemma_gained_two(start, mid, c.size, target, staging);
            lemma_transfer_step(transfer, mid, now, reply, after);
            if let Outcome::Pending(next) = transfer.step(reply) {
                assert(moving_since(target, staging, next, bytes, start, mid, after));
                let next = c.at(CreationPhase::Moving { target, staging, transfer: next });
                assert(creation_at(next, start, after));
            }
            if let Outcome::Finished(Ok(_)) = transfer.step(reply) {
                lemma_moved(start, mid, after, transfer, target, staging);
                let filled = after.contents[target.memory];
                let source = mid.contents[staging.memory];
                assert(filled.take(c.len as int) =~= filled.take(c.size as int).take(c.len as int));
                assert(source.take(c.len as int) =~= source.take(c.size as int).take(c.len as int));
                let made = c.made(target, Some(staging));
                let base = waited_part(start, queue, after);
                assert(waits_into(start, queue, true, base) && gained(base, after, made));
                assert(gained_since(start, queue, true, after, made));
            }
        },
        CreationPhase::Unified(a) => {
            lemma_allocation_step(a, start, now, reply, after);
            if let Outcome::Finished(Ok(host)) = a.step(reply) {
                assert(gained_one(start, after, c.size, host));
                if c.data is None {
                    lemma_nothing_waited(c, start, after, c.made(host, None));
                }
            }
        },
        CreationPhase::FillingUnified { host, data } => {
            if reply is Completed {
                lemma_gained_one(start, now, c.size, host);
                let old_bytes = now.contents[host.memory];
                assert(overwritten(old_bytes, data@).take(c.len as int) =~= data@);
                assert(after.contents =~= start.contents.insert(
                    host.memory,
                    after.contents[host.memory],
                ));
                assert(gained_one(start, after, c.size, host));
                lemma_nothing_waited(c, start, after, c.made(host, None));
            }
        },
    }
}

proof fn lemma_creation_run(
    c: BufferCreation,
    start: World,
    now: World,
    trace: Seq<Call>,
    buffer: Buffer,
)
    requires
        creation_at(c, start, now),
        creates(c, now, trace, buffer),
    ensures
        creation_done(c, start, trace.last().after, buffer),
    decreases trace.len(),
{
    reveal_with_fuel(creates, 2);
    lemma_creation_step(c, start, now, trace[0].reply, trace[0].after);
    if let Outcome::Pending(next) = c.step(trace[0].reply) {
        lemma_creation_run(next, start, trace[0].after, trace.skip(1), buffer);
        assert(trace.skip(1).last() == trace.last());
    }
}

/// The allocation holds the data.
proof fn lemma_allocation_size(byte_len: u64, alignment: u64)
    requires
        can_allocate(byte_len, alignment),
    ensures
        byte_len <= allocation_size(byte_len, alignment) <= u64::MAX,
{
    if byte_len != 0 && alignment != 0 {
        law_align_up_is_least_multiple(byte_len, alignment);
    }
}

/// A buffer is created with its data: whatever the placement, once the
/// creation has ended well, the buffer's memory holds the data, and the world
/// has gained the buffer and what belongs to it and is otherwise as it was.
/// Where data is moved to the device, the queue is waited for; its earlier work
/// is done then.
pub proof fn law_created_buffer_holds_its_data(
    device: VulkanDevice,
    data: &[u8],
    before: World,
    trace: Seq<Call>,
    buffer: Buffer,
)
    requires
        data@.len() <= usize::MAX,
        can_allocate(data@.len() as u64, device.limits.min_storage_buffer_offset_alignment),
        before.wf(),
        creates(
            new_creation(&device, data@.len() as usize, to_upload(data)),
            before,
            trace,
            buffer,
        ),
    ensures
        trace.last().after.holds(buffer, data@),
        buffer.staging_buffer is Some <==> device.uses_device_local,
        gained_since(
            before,
            device.compute_queue,
            device.uses_device_local && data@.len() > 0,
            trace.last().after,
            buffer,
        ),
{
    lemma_allocation_size(
        data@.len() as u64,
        device.limits.min_storage_buffer_offset_alignment,
    );
    let c = new_creation(&device, data@.len() as usize, to_upload(data));
    assert(creation_at(c, before, before));
    lemma_creation_run(c, before, before, trace, buffer);
    let after = trace.last().after;
    assert(data@.len() == 0 ==> after.contents[buffer.memory].take(0) =~= data@);
}

/// An uninitialised buffer is created with room for its length and can be read
/// back; nothing is waited for.
pub proof fn law_uninitialised_buffer_has_its_length(
    device: VulkanDevice,
    len: usize,
    before: World,
    trace: Seq<Call>,
    buffer: Buffer,
)
    requires
        can_allocate(len as u64, device.limits.min_storage_buffer_offset_alignment),
        before.wf(),
        creates(new_creation(&device, len, None), before, trace, buffer),
    ensures
        buffer.len == len,
        buffer.staging_buffer is Some <==> device.uses_device_local,
        exists|data: Seq<u8>| #[trigger] trace.last().after.holds(buffer, data),
        gained(before, trace.last().after, buffer),
{
    lemma_allocation_size(len as u64, device.limits.min_storage_buffer_offset_alignment);
    let c = new_creation(&device, len, None);
    assert(creation_at(c, before, before));
    lemma_creation_run(c, before, before, trace, buffer);
}

/// The memories hold the buffer's and its staging memory, and what the queue's
/// work leaves in them depends on them alone.
pub open spec fn shields(
    world: World,
    queue: u64,
    buffer: Buffer,
    staging: u64,
    memories: Set<u64>,
) -> bool {
    &&& world.isolated(queue, memories)
    &&& memories.contains(buffer.memory)
    &&& memories.contains(staging)
}

/// Some memories hold the buffer's and its staging memory and depend on
/// themselves alone.
pub open spec fn shielded(world: World, queue: u64, buffer: Buffer, staging: u64) -> bool {
    exists|memories: Set<u64>| shields(world, queue, buffer, staging, memories)
}

/// A reading can rely on the buffer's memory: no other queue can interfere with
/// the copy to the staging buffer, and no queue with the mapping where there is
/// no staging buffer.
pub open spec fn can_read(world: World, queue: u64, buffer: Buffer) -> bool {
    match buffer.staging_memory {
        Some(memory) => world.can_settle(queue) && shielded(world, queue, buffer, memory),
        None => world.calm(buffer.memory),
    }
}

/// The world as a reading finds it: a device-local buffer is read once the
/// queue has done its earlier work.
pub open spec fn as_read(world: World, queue: u64, buffer: Buffer) -> World {
    if buffer.staging_buffer is Some {
        world.settled(queue)
    } else {
        world
    }
}

/// `after` is `before`, except for what the buffer's staging memory holds.
pub open spec fn only_staging_changed(before: World, after: World, buffer: Buffer) -> bool {
    &&& after.sizes == before.sizes
    &&& after.bindings == before.bindings
    &&& after.mappings == before.mappings
    &&& after.submitted == before.submitted
    &&& after.contents.dom() == before.contents.dom()
    &&& forall|m: u64|
        buffer.staging_memory != Some(m) ==> #[trigger] after.contents[m] == before.contents[m]
}

/// `after` is `before`, except for what the buffer's staging memory holds and
/// what waiting for the queue changed.
pub open spec fn only_read_since(
    before: World,
    queue: u64,
    after: World,
    buffer: Buffer,
) -> bool {
    exists|base: World| #[trigger]
        waits_into(before, queue, buffer.staging_buffer is Some, base) && only_staging_changed(
            base,
            after,
            buffer,
        )
}

/// The buffer holds `data` now and when it is read again.
pub open spec fn stays_readable(
    world: World,
    queue: u64,
    buffer: Buffer,
    data: Seq<u8>,
) -> bool {
    &&& world.holds(buffer, data)
    &&& as_read(world, queue, buffer).holds(buffer, data)
    &&& can_read(world, queue, buffer)
}

/// The reading started in `start`, where it finds the buffer to hold `data`,
/// and has come to `now`.
spec fn reading_at(
    r: BufferRead,
    queue: u64,
    buffer: Buffer,
    data: Seq<u8>,
    start: World,
    now: World,
) -> bool {
    &&& as_read(start, queue, buffer).holds(buffer, data)
    &&& can_read(start, queue, buffer)
    &&& r.mapped == buffer.mapped
    &&& r.len <= buffer.len
    &&& match r.phase {
        ReadPhase::Fetching(t) => {
            &&& buffer.staging_buffer == Some(t.target)
            &&& t.source == buffer.buffer
            &&& t.size == buffer.size
            &&& t.queue == queue
            &&& transfer_at(t, start, now)
        },
        ReadPhase::Downloading => {
            &&& stays_readable(now, queue, buffer, data)
            &&& only_read_since(start, queue, now, buffer)
            &&& now.calm(now.mappings[buffer.mapped])
            &&& now.contents[now.mappings[buffer.mapped]].take(buffer.len as int) == data
        },
    }
}

/// What two isolated sets of memories hold together depends on them alone.
proof fn lemma_isolated_union(world: World, queue: u64, some: Set<u64>, more: Set<u64>)
    requires
        world.isolated(queue, some),
        world.isolated(queue, more),
    ensures
        world.isolated(queue, some.union(more)),
{
    let both = some.union(more);
    assert forall|m: u64| #[trigger] both.contains(m) implies world.calm_elsewhere(queue, m) by {
        assert(some.contains(m) || more.contains(m));
    }
    assert forall|i: int| 0 <= i < world.queued(queue).len() implies world.confined(
        #[trigger] world.queued(queue)[i],
        both,
    ) by {
        assert(world.confined(world.queued(queue)[i], some));
        assert(world.confined(world.queued(queue)[i], more));
    }
}

/// The copy to the staging buffer leaves the reading ready for the mapping.
proof fn lemma_fetched(
    t: Transfer,
    buffer: Buffer,
    data: Seq<u8>,
    start: World,
    after: World,
)
    requires
        buffer.staging_buffer == Some(t.target),
        t.source == buffer.buffer,
        t.size == buffer.size,
        start.settled(t.queue).holds(buffer, data),
        can_read(start, t.queue, buffer),
        can_transfer(t, start),
        transfer_done(t, start, after),
    ensures
        stays_readable(after, t.queue, buffer, data),
        only_read_since(start, t.queue, after, buffer),
        after.calm(after.mappings[buffer.mapped]),
        after.contents[after.mappings[buffer.mapped]].take(buffer.len as int) == data,
{
    let queue = t.queue;
    let seen = start.settled(queue);
    let staging = buffer.staging_memory.unwrap();
    lemma_waiting_work(t, start);
    lemma_work_keeps_shape(start, start.queued(queue));
    let memories = choose|memories: Set<u64>| shields(start, queue, buffer, staging, memories);
    lemma_isolated_while_waiting(t, start, memories);
    let copied = seen.contents[buffer.memory].take(buffer.size as int);
    assert(after.contents[staging] == overwritten(seen.contents[staging], copied));
    assert(after.contents[buffer.memory] == seen.contents[buffer.memory]);
    assert(after.contents[staging].take(buffer.len as int)
        =~= seen.contents[buffer.memory].take(buffer.len as int));
    assert(after.queued(queue) =~= Seq::<Job>::empty());
    assert(forall|q: u64| q != queue ==> after.queued(q) == start.queued(q));
    assert forall|m: u64| #[trigger] memories.contains(m) implies after.calm_elsewhere(
        queue,
        m,
    ) by {
        assert(start.calm_elsewhere(queue, m));
        assert forall|q: u64, i: int|
            q != queue && 0 <= i < after.queued(q).len() implies !after.touches(
            #[trigger] after.queued(q)[i],
            m,
        ) by {
            assert(!start.touches(start.queued(q)[i], m));
        }
    }
    assert(shields(after, queue, buffer, staging, memories));
    assert(after.calm_elsewhere(queue, staging));
    assert(after.calm(staging));
    assert(after.settled(queue).contents == after.contents);
    let base = World {
        contents: after.contents.insert(staging, seen.contents[staging]),
        recorded: start.recorded,
        ..after
    };
    assert(base.submitted =~= start.submitted.insert(queue, Seq::empty()));
    assert(base.contents.dom() =~= start.contents.dom());
    assert forall|others: Set<u64>, m: u64| #[trigger]
        start.isolated(queue, others) && #[trigger] others.contains(m)
            && start.contents.contains_key(m) implies base.contents[m] == seen.contents[m] by {
        let both = others.union(memories);
        lemma_isolated_union(start, queue, others, memories);
        lemma_isolated_while_waiting(t, start, both);
        assert(both.contains(m));
    }
    assert(start.settles_to(queue, base));
    assert(waits_into(start, queue, true, base) && only_staging_changed(base, after, buffer));
}

proof fn lemma_reading_run(
    r: BufferRead,
    queue: u64,
    buffer: Buffer,
    data: Seq<u8>,
    start: World,
    now: World,
    trace: Seq<Call>,
    bytes: Vec<u8>,
)
    requires
        reading_at(r, queue, buffer, data, start, now),
        reads(Outcome::Pending(r), now, trace, bytes),
    ensures
        bytes@ == data.take(r.len as int),
        stays_readable(trace.last().after, queue, buffer, data),
        only_read_since(start, queue, trace.last().after, buffer),
    decreases trace.len(),
{
    reveal_with_fuel(reads, 2);
    let (reply, after) = (trace[0].reply, trace[0].after);
    let rest = trace.skip(1);
    match r.phase {
        ReadPhase::Fetching(t) => {
            lemma_work_keeps_shape(start, start.queued(queue));
            assert(can_transfer(t, start));
            lemma_transfer_step(t, start, now, reply, after);
            match t.step(reply) {
                Outcome::Pending(next) => {
                    let next = BufferRead { phase: ReadPhase::Fetching(next), ..r };
                    lemma_reading_run(next, queue, buffer, data, start, after, rest, bytes);
                },
                Outcome::Finished(Ok(_)) => {
                    lemma_fetched(t, buffer, data, start, after);
                    let next = BufferRead { phase: ReadPhase::Downloading, ..r };
                    lemma_reading_run(next, queue, buffer, data, start, after, rest, bytes);
                },
                Outcome::Finished(Err(_)) => {},
            }
            assert(rest.last() == trace.last());
        },
        ReadPhase::Downloading => {
            let whole = now.contents[now.mappings[buffer.mapped]];
            assert(whole.take(r.len as int) =~= whole.take(buffer.len as int).take(r.len as int));
        },
    }
}

/// Whole elements stay within the buffer, and are all of it where the elements
/// fill it.
proof fn lemma_whole_elements(len: usize, element_size: usize)
    ensures
        0 <= whole_elements(len, element_size) <= len,
        element_size > 0 && len % element_size == 0 ==> whole_elements(len, element_size) == len,
{
    if element_size != 0 {
        let (l, e) = (len as int, element_size as int);
        vstd::arithmetic::div_mod::lemma_fundamental_div_mod(l, e);
        vstd::arithmetic::div_mod::lemma_mod_bound(l, e);
        vstd::arithmetic::mul::lemma_mul_is_commutative(e, l / e);
        vstd::arithmetic::div_mod::lemma_div_pos_is_pos(l, e);
        vstd::arithmetic::mul::lemma_mul_nonnegative(l / e, e);
    }
}

/// Reading gives back what the buffer holds, as far as whole elements go, and
/// leaves the buffer holding it. A device-local buffer is read once the queue
/// has done its earlier work, so the reading sees what that work wrote; nothing
/// but the buffer's staging memory changes beyond that.
pub proof fn law_read_returns_what_is_held(
    device: VulkanDevice,
    buffer: Buffer,
    element_size: usize,
    data: Seq<u8>,
    before: World,
    trace: Seq<Call>,
    bytes: Vec<u8>,
)
    requires
        as_read(before, device.compute_queue, buffer).holds(buffer, data),
        can_read(before, device.compute_queue, buffer),
        reads(new_read(device, buffer, element_size), before, trace, bytes),
    ensures
        bytes@ == data.take(whole_elements(buffer.len, element_size)),
        stays_readable(trace.last().after, device.compute_queue, buffer, data),
        only_read_since(before, device.compute_queue, trace.last().after, buffer),
{
    let queue = device.compute_queue;
    lemma_whole_elements(buffer.len, element_size);
    let r = new_read(device, buffer, element_size)->Pending_0;
    if buffer.staging_buffer is None {
        assert(waits_into(before, queue, false, before) && only_staging_changed(
            before,
            before,
            buffer,
        ));
    }
    assert(reading_at(r, queue, buffer, data, before, before));
    lemma_reading_run(r, queue, buffer, data, before, before, trace, bytes);
}

/// Reading again gives the same.
pub proof fn law_second_read_gives_the_same(
    device: VulkanDevice,
    buffer: Buffer,
    element_size: usize,
    data: Seq<u8>,
    before: World,
    first: Seq<Call>,
    bytes: Vec<u8>,
    second: Seq<Call>,
    again: Vec<u8>,
)
    requires
        as_read(before, device.compute_queue, buffer).holds(buffer, data),
        can_read(before, device.compute_queue, buffer),
        reads(new_read(device, buffer, element_size), before, first, bytes),
        reads(new_read(device, buffer, element_size), first.last().after, second, again),
    ensures
        again@ == bytes@,
{
    let between = first.last().after;
    law_read_returns_what_is_held(device, buffer, element_size, data, before, first, bytes);
    law_read_returns_what_is_held(device, buffer, element_size, data, between, second, again);
}

/// Work that was on the queues before a buffer was created does not change what
/// the buffer holds, and does not keep it from being read, whatever memory that
/// work shares.
pub proof fn law_earlier_work_spares_a_new_buffer(
    before: World,
    after: World,
    buffer: Buffer,
    data: Seq<u8>,
    queue: u64,
)
    requires
        before.wf(),
        gained(before, after, buffer),
        after.holds(buffer, data),
    ensures
        as_read(after, queue, buffer).holds(buffer, data),
        can_read(after, queue, buffer),
{
    let jobs = before.queued(queue);
    assert(before.can_settle(queue));
    assert(after.queued(queue) == jobs);
    match (buffer.staging_buffer, buffer.staging_memory) {
        (Some(staging), Some(memory)) => {
            lemma_gained_two(
                before,
                after,
                buffer.size,
                Allocated { buffer: buffer.buffer, memory: buffer.memory, mapped: 0 },
                Allocated { buffer: staging, memory, mapped: buffer.mapped },
            );
            let memories = set![buffer.memory, memory];
            lemma_new_memory_is_isolated(before, after, queue, memories);
            assert(shields(after, queue, buffer, memory, memories));
        },
        _ => lemma_gained_one(
            before,
            after,
            buffer.size,
            Allocated { buffer: buffer.buffer, memory: buffer.memory, mapped: buffer.mapped },
        ),
    }
    lemma_work_spares_new_memory(before, after, jobs);
    lemma_work_keeps_shape(after, jobs);
    assert(after.settled(queue).contents[buffer.memory] == after.contents[buffer.memory]);
}

/// A read gives back what was written: data that a buffer was created with, in
/// either placement, comes back byte for byte when it is read as elements that
/// fill the buffer. What other work is on the queues, and what memory it
/// shares, does not matter.
pub proof fn law_read_returns_what_was_written(
    device: VulkanDevice,
    data: &[u8],
    element_size: usize,
    before: World,
    creation: Seq<Call>,
    buffer: Buffer,
    reading: Seq<Call>,
    bytes: Vec<u8>,
)
    requires
        data@.len() <= usize::MAX,
        can_allocate(data@.len() as u64, device.limits.min_storage_buffer_offset_alignment),
        before.wf(),
        creates(
            new_creation(&device, data@.len() as usize, to_upload(data)),
            before,
            creation,
            buffer,
        ),
        reads(
            new_read(device, buffer, element_size),
            creation.last().after,
            reading,
            bytes,
        ),
        if element_size == 0 {
            data@.len() == 0
        } else {
            data@.len() % (element_size as nat) == 0
        },
    ensures
        bytes@ == data@,
        stays_readable(reading.last().after, device.compute_queue, buffer, data@),
{
    let queue = device.compute_queue;
    let waits = device.uses_device_local && data@.len() > 0;
    let after = creation.last().after;
    law_created_buffer_holds_its_data(device, data, before, creation, buffer);
    let base = choose|base: World| #[trigger]
        waits_into(before, queue, waits, base) && gained(base, after, buffer);
    if waits {
        law_settling_keeps_order(before, queue, base);
    }
    law_earlier_work_spares_a_new_buffer(base, after, buffer, data@, queue);
    law_read_returns_what_is_held(device, buffer, element_size, data@, after, reading, bytes);
    lemma_whole_elements(buffer.len, element_size);
    assert(data@.take(data@.len() as int) =~= data@);
}

/// The buffer and what belongs to it are in `later` as in `earlier`, and
/// nothing that is left on the queues touches them.
pub open spec fn untouched_since(earlier: World, later: World, buffer: Buffer) -> bool {
    &&& later.bindings.contains_key(buffer.buffer)
    &&& later.bindings[buffer.buffer] == earlier.bindings[buffer.buffer]
    &&& later.contents.contains_key(buffer.memory)
    &&& later.contents[buffer.memory] == earlier.contents[buffer.memory]
    &&& later.calm(buffer.memory)
    &&& later.mappings.contains_key(buffer.mapped)
    &&& later.mappings[buffer.mapped] == earlier.mappings[buffer.mapped]
    &&& buffer.staging_buffer matches Some(staging) ==> later.bindings.contains_key(staging)
        && later.bindings[staging] == earlier.bindings[staging]
    &&& buffer.staging_memory matches Some(memory) ==> later.contents.contains_key(memory)
        && later.contents[memory].len() == earlier.contents[memory].len() && later.calm(memory)
}

/// However much happens between writing and reading, a buffer that nothing
/// wrote to reads back as it was.
pub proof fn law_untouched_buffer_reads_back(
    device: VulkanDevice,
    buffer: Buffer,
    element_size: usize,
    data: Seq<u8>,
    earlier: World,
    later: World,
    reading: Seq<Call>,
    bytes: Vec<u8>,
)
    requires
        earlier.holds(buffer, data),
        untouched_since(earlier, later, buffer),
        later.can_settle(device.compute_queue),
        reads(new_read(device, buffer, element_size), later, reading, bytes),
    ensures
        bytes@ == data.take(whole_elements(buffer.len, element_size)),
        stays_readable(reading.last().after, device.compute_queue, buffer, data),
{
    let queue = device.compute_queue;
    let jobs = later.queued(queue);
    assert forall|i: int| 0 <= i < jobs.len() implies !later.touches(
        #[trigger] jobs[i],
        buffer.memory,
    ) by {
        assert(!later.touches(later.queued(queue)[i], buffer.memory));
    }
    lemma_work_spares_calm_memory(later, jobs, buffer.memory);
    lemma_work_keeps_shape(later, jobs);
    if let Some(memory) = buffer.staging_memory {
        let memories = set![buffer.memory, memory];
        assert forall|m: u64| #[trigger] memories.contains(m) implies later.calm_elsewhere(
            queue,
            m,
        ) by {
            assert(later.calm(m));
        }
        assert forall|i: int| 0 <= i < later.queued(queue).len() implies later.confined(
            #[trigger] later.queued(queue)[i],
            memories,
        ) by {
            if let Job::Copy { target, .. } = later.queued(queue)[i] {
                let written = later.bindings[target];
                assert(later.touches(later.queued(queue)[i], written));
                if memories.contains(written) {
                    assert(later.calm(written));
                }
            }
        }
        assert(shields(later, queue, buffer, memory, memories));
    }
    law_read_returns_what_is_held(device, buffer, element_size, data, later, reading, bytes);
}

/// A creation leaves the driver's objects in order: what is bound or mapped
/// exists, and work left on the queues stays within it.
pub proof fn law_creation_keeps_order(before: World, after: World, created: Buffer)
    requires
        gained(before, after, created),
        before.wf(),
    ensures
        after.wf(),
{
    match (created.staging_buffer, created.staging_memory) {
        (Some(staging), Some(memory)) => lemma_gained_two(
            before,
            after,
            created.size,
            Allocated { buffer: created.buffer, memory: created.memory, mapped: 0 },
            Allocated { buffer: staging, memory, mapped: created.mapped },
        ),
        _ => lemma_gained_one(
            before,
            after,
            created.size,
            Allocated { buffer: created.buffer, memory: created.memory, mapped: created.mapped },
        ),
    }
}

/// Creating a buffer leaves what other buffers hold untouched.
pub proof fn law_creation_keeps_other_buffers(
    before: World,
    after: World,
    created: Buffer,
    other: Buffer,
    data: Seq<u8>,
)
    requires
        gained(before, after, created),
        before.holds(other, data),
        before.wf(),
    ensures
        after.holds(other, data),
{
}

/// Nothing leaks: releasing a new buffer is allowed step by step, no memory is
/// freed while a buffer is bound to it or work is left on it, and afterwards
/// buffers and memory are what they were before the buffer was created.
pub proof fn law_release_undoes_creation(before: World, after: World, buffer: Buffer)
    requires
        before.wf(),
        gained(before, after, buffer),
    ensures
        after.may_release_all(buffer.release()),
        after.after_releases(buffer.release()).sizes == before.sizes,
        after.after_releases(buffer.release()).bindings == before.bindings,
        after.after_releases(buffer.release()).contents == before.contents,
        after.after_releases(buffer.release()).mappings == before.mappings,
        after.after_releases(buffer.release()).submitted == before.submitted,
{
    reveal_with_fuel(World::after_releases, 5);
    reveal_with_fuel(World::may_release_all, 5);
    let plan = buffer.release();
    match (buffer.staging_buffer, buffer.staging_memory) {
        (Some(staging), Some(memory)) => {
            assert(plan =~= seq![
                BufferRelease::DestroyBuffer { buffer: staging },
                BufferRelease::FreeMemory { memory },
                BufferRelease::DestroyBuffer { buffer: buffer.buffer },
                BufferRelease::FreeMemory { memory: buffer.memory },
            ]);
            let w1 = after.after_release(plan[0]);
            let w2 = w1.after_release(plan[1]);
            let w3 = w2.after_release(plan[2]);
            let w4 = w3.after_release(plan[3]);
            assert(plan.skip(1)[0] == plan[1]);
            assert(plan.skip(1).skip(1)[0] == plan[2]);
            assert(plan.skip(1).skip(1).skip(1)[0] == plan[3]);
            assert(!before.bindings.contains_key(staging));
            assert(!before.bindings.contains_key(buffer.buffer));
            lemma_work_stays_in_order(before, after);
            lemma_work_stays_in_order(before, w1);
            lemma_work_stays_in_order(before, w2);
            lemma_work_stays_in_order(before, w3);
            assert(after.may_release(plan[0]));
            assert(w1.may_release(plan[1]));
            assert(w2.may_release(plan[2]));
            assert(w3.may_release(plan[3]));
            assert(after.after_releases(plan) == w4);
            assert(w4.sizes =~= before.sizes);
            assert(w4.bindings =~= before.bindings);
            assert(w4.contents =~= before.contents);
            assert(w4.mappings =~= before.mappings);
        },
        (None, None) => {
            assert(plan =~= seq![
                BufferRelease::DestroyBuffer { buffer: buffer.buffer },
                BufferRelease::FreeMemory { memory: buffer.memory },
            ]);
            let w1 = after.after_release(plan[0]);
            let w2 = w1.after_release(plan[1]);
            assert(plan.skip(1)[0] == plan[1]);
            assert(!before.bindings.contains_key(buffer.buffer));
            lemma_work_stays_in_order(before, after);
            lemma_work_stays_in_order(before, w1);
            assert(after.may_release(plan[0]));
            assert(w1.may_release(plan[1]));
            assert(after.after_releases(plan) == w2);
            assert(w2.sizes =~= before.sizes);
            assert(w2.bindings =~= before.bindings);
            assert(w2.contents =~= before.contents);
            assert(w2.mappings =~= before.mappings);
        },
        _ => {},
    }
}

/// A creation that fails reports that the buffer could not be created, and it
/// fails only where a call failed or no memory type suits.
pub proof fn law_creation_fails_with_creation_failed(
    creation: BufferCreation,
    reply: Reply,
    error: ErrorView,
)
    requires
        creation.step(reply) == Outcome::<BufferCreation, Buffer>::Finished(Err(error)),
    ensures
        error is BufferCreationFailed,
        reply is Failed || error == no_memory_type(),
{
}

/// A reading that fails reports that the readback failed.
pub proof fn law_reading_fails_with_read_failed(read: BufferRead, reply: Reply, error: ErrorView)
    requires
        read.step(reply) == Outcome::<BufferRead, Vec<u8>>::Finished(Err(error)),
    ensures
        error is BufferReadFailed,
{
}

} // verus!
