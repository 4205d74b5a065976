//! What the work left on a queue does to the world, and what it cannot reach.

use super::model::{Job, World};
use vstd::prelude::*;

verus! {

/// `later` has everything that `earlier` has, bound and filled as it was.
pub open spec fn extends(earlier: World, later: World) -> bool {
    &&& forall|b: u64| #[trigger]
        earlier.bindings.contains_key(b) ==> later.bindings.contains_key(b) && later.bindings[b]
            == earlier.bindings[b]
    &&& forall|m: u64| #[trigger]
        earlier.contents.contains_key(m) ==> later.contents.contains_key(m) && later.contents[m]
            == earlier.contents[m]
}

/// Work changes only what memory holds, neither which memory there is nor how
/// large it is.
pub proof fn lemma_work_keeps_shape(world: World, jobs: Seq<Job>)
    requires
        world.can_do_all(jobs),
    ensures
        world.after_jobs(jobs) == (World { contents: world.after_jobs(jobs).contents, ..world }),
        world.after_jobs(jobs).contents.dom() == world.contents.dom(),
        forall|m: u64| #[trigger]
            world.contents.contains_key(m) ==> world.after_jobs(jobs).contents[m].len()
                == world.contents[m].len(),
    decreases jobs.len(),
{
    if jobs.len() > 0 {
        let earlier = jobs.drop_last();
        let job = jobs.last();
        assert(world.can_do(jobs[jobs.len() - 1]));
        assert forall|i: int| 0 <= i < earlier.len() implies world.can_do(
            #[trigger] earlier[i],
        ) by {
            assert(earlier[i] == jobs[i]);
        }
        lemma_work_keeps_shape(world, earlier);
        let before = world.after_jobs(earlier);
        let after = before.after_job(job);
        assert(after.contents.dom() =~= world.contents.dom());
    }
}

/// Work depends only on memory and what is bound to it.
pub proof fn lemma_work_depends_on_memory(world: World, other: World, jobs: Seq<Job>)
    requires
        world.contents == other.contents,
        world.bindings == other.bindings,
    ensures
        world.after_jobs(jobs).contents == other.after_jobs(jobs).contents,
        world.after_jobs(jobs) == (World { contents: world.after_jobs(jobs).contents, ..world }),
        other.after_jobs(jobs) == (World { contents: other.after_jobs(jobs).contents, ..other }),
    decreases jobs.len(),
{
    if jobs.len() > 0 {
        lemma_work_depends_on_memory(world, other, jobs.drop_last());
    }
}

/// Work that could be done earlier does the same to what was there, and leaves
/// what came later alone.
pub proof fn lemma_work_spares_new_memory(earlier: World, later: World, jobs: Seq<Job>)
    requires
        earlier.can_do_all(jobs),
        extends(earlier, later),
    ensures
        later.can_do_all(jobs),
        forall|m: u64| #[trigger]
            earlier.contents.contains_key(m) ==> later.after_jobs(jobs).contents[m]
                == earlier.after_jobs(jobs).contents[m],
        forall|m: u64|
            later.contents.contains_key(m) && !earlier.contents.contains_key(m)
                ==> #[trigger] later.after_jobs(jobs).contents[m] == later.contents[m],
    decreases jobs.len(),
{
    assert forall|i: int| 0 <= i < jobs.len() implies later.can_do(#[trigger] jobs[i]) by {
        assert(earlier.can_do(jobs[i]));
    }
    if jobs.len() > 0 {
        let rest = jobs.drop_last();
        let job = jobs.last();
        assert(earlier.can_do(jobs[jobs.len() - 1]));
        assert forall|i: int| 0 <= i < rest.len() implies earlier.can_do(#[trigger] rest[i]) by {
            assert(rest[i] == jobs[i]);
        }
        lemma_work_spares_new_memory(earlier, later, rest);
        lemma_work_keeps_shape(earlier, rest);
        lemma_work_keeps_shape(later, rest);
    }
}

/// Work leaves memory alone that it does not touch.
pub proof fn lemma_work_spares_calm_memory(world: World, jobs: Seq<Job>, memory: u64)
    requires
        world.can_do_all(jobs),
        world.contents.contains_key(memory),
        forall|i: int| 0 <= i < jobs.len() ==> !world.touches(#[trigger] jobs[i], memory),
    ensures
        world.after_jobs(jobs).contents[memory] == world.contents[memory],
    decreases jobs.len(),
{
    if jobs.len() > 0 {
        let earlier = jobs.drop_last();
        assert forall|i: int| 0 <= i < earlier.len() implies world.can_do(#[trigger] earlier[i])
            && !world.touches(earlier[i], memory) by {
            assert(earlier[i] == jobs[i]);
        }
        lemma_work_spares_calm_memory(world, earlier, memory);
        lemma_work_keeps_shape(world, earlier);
        assert(!world.touches(jobs[jobs.len() - 1], memory));
        assert(world.can_do(jobs[jobs.len() - 1]));
    }
}

/// What is left on the queues stays in order when more buffers and memory come,
/// and it does not touch them.
pub proof fn lemma_work_stays_in_order(earlier: World, later: World)
    requires
        earlier.wf(),
        extends(earlier, later),
        later.submitted == earlier.submitted,
    ensures
        forall|q: u64| #[trigger] later.can_settle(q),
        forall|m: u64| !earlier.contents.contains_key(m) ==> #[trigger] later.calm(m),
        forall|b: u64| !earlier.bindings.contains_key(b) ==> #[trigger] later.unused(b),
{
    assert(forall|q: u64| later.queued(q) == earlier.queued(q));
    assert forall|q: u64| #[trigger] later.can_settle(q) by {
        assert(earlier.can_settle(q));
        lemma_work_spares_new_memory(earlier, later, earlier.queued(q));
    }
    assert forall|m: u64| !earlier.contents.contains_key(m) implies #[trigger] later.calm(m) by {
        assert forall|q: u64, i: int| 0 <= i < later.queued(q).len() implies !later.touches(
            #[trigger] later.queued(q)[i],
            m,
        ) by {
            assert(earlier.can_settle(q));
            assert(earlier.can_do(earlier.queued(q)[i]));
        }
    }
    assert forall|b: u64| !earlier.bindings.contains_key(b) implies #[trigger] later.unused(b) by {
        assert forall|q: u64, i: int| 0 <= i < later.queued(q).len() implies (
        #[trigger] later.queued(q)[i] matches Job::Copy { source, target, .. } ==> source != b
            && target != b) by {
            assert(earlier.can_settle(q));
            assert(earlier.can_do(earlier.queued(q)[i]));
        }
    }
}

/// New memory is isolated: no work that was there touches it.
pub proof fn lemma_new_memory_is_isolated(
    earlier: World,
    later: World,
    queue: u64,
    memories: Set<u64>,
)
    requires
        earlier.wf(),
        extends(earlier, later),
        later.submitted == earlier.submitted,
        forall|m: u64| #[trigger] memories.contains(m) ==> !earlier.contents.contains_key(m),
    ensures
        later.isolated(queue, memories),
{
    lemma_work_stays_in_order(earlier, later);
    assert forall|m: u64| #[trigger] memories.contains(m) implies later.calm_elsewhere(
        queue,
        m,
    ) by {
        assert(later.calm(m));
    }
    assert forall|i: int| 0 <= i < later.queued(queue).len() implies later.confined(
        #[trigger] later.queued(queue)[i],
        memories,
    ) by {
        if let Job::Copy { target, .. } = later.queued(queue)[i] {
            let memory = later.bindings[target];
            assert(later.touches(later.queued(queue)[i], memory));
            if memories.contains(memory) {
                assert(later.calm(memory));
            }
        }
    }
}

/// Waiting for a queue leaves the world in order, and the queue with nothing to
/// do.
pub proof fn law_settling_keeps_order(world: World, queue: u64, after: World)
    requires
        world.wf(),
        world.settles_to(queue, after),
    ensures
        after.wf(),
        after.queued(queue).len() == 0,
{
    assert forall|b: u64| #[trigger]
        after.bindings.contains_key(b) implies after.sizes.contains_key(b)
        && after.contents.contains_key(after.bindings[b]) by {
        assert(world.bindings.contains_key(b));
    }
    assert forall|p: u64| #[trigger]
        after.mappings.contains_key(p) implies after.contents.contains_key(after.mappings[p]) by {
        assert(world.mappings.contains_key(p));
    }
    assert forall|q: u64| #[trigger] after.can_settle(q) by {
        assert(world.can_settle(q));
        assert forall|i: int| 0 <= i < after.queued(q).len() implies after.can_do(
            #[trigger] after.queued(q)[i],
        ) by {
            assert(q != queue);
            assert(world.can_do(world.queued(q)[i]));
        }
    }
}

/// Where no other queue has work left, waiting has one outcome: the queue's
/// work, done in order.
pub proof fn law_waiting_alone_settles(world: World, queue: u64, after: World)
    requires
        world.can_settle(queue),
        world.settles_to(queue, after),
        forall|q: u64| q != queue ==> #[trigger] world.queued(q).len() == 0,
    ensures
        after == world.settled(queue),
{
    let all = Set::<u64>::full();
    assert(world.isolated(queue, all));
    lemma_work_keeps_shape(world, world.queued(queue));
    let settled = world.settled(queue);
    assert forall|m: u64| world.contents.contains_key(m) implies after.contents[m]
        == settled.contents[m] by {
        assert(all.contains(m));
    }
    assert(after.contents =~= settled.contents);
}

} // verus!
