//! The device's own copies are counted while they are in flight, so that a
//! device that copies is never taken to be quiescent.

use super::buffer::{Buffer, BufferCreation, BufferRead, CreationPhase, ReadPhase};
use super::command::{Outcome, Reply};
use super::transfer::Transfer;
use crate::epoch::{
    begun, count_after, countable, ended, law_shared_tracker_sees_both, part,
    together, well_paired, DispatchEvent,
};
use vstd::prelude::*;

verus! {

/// Where a transfer stands after `replies`, in order. What comes after its end
/// changes nothing.
pub open spec fn transfer_run(transfer: Transfer, replies: Seq<Reply>) -> Outcome<Transfer, ()>
    decreases replies.len(),
{
    if replies.len() == 0 {
        Outcome::Pending(transfer)
    } else {
        match transfer_run(transfer, replies.drop_last()) {
            Outcome::Pending(now) => now.step(replies.last()),
            Outcome::Finished(result) => Outcome::Finished(result),
        }
    }
}

/// What a transfer has counted after `replies`, in order.
pub open spec fn transfer_events(transfer: Transfer, replies: Seq<Reply>) -> Seq<DispatchEvent>
    decreases replies.len(),
{
    if replies.len() == 0 {
        Seq::empty()
    } else {
        let earlier = transfer_events(transfer, replies.drop_last());
        match transfer_run(transfer, replies.drop_last()) {
            Outcome::Pending(now) => match now.event(replies.last()) {
                Some(event) => earlier.push(event),
                None => earlier,
            },
            Outcome::Finished(_) => earlier,
        }
    }
}

/// One more event keeps a history paired where it does not end what never began.
proof fn lemma_paired_push(history: Seq<DispatchEvent>, event: DispatchEvent)
    requires
        well_paired(history),
        event is End ==> begun(history) > ended(history),
    ensures
        well_paired(history.push(event)),
        begun(history.push(event)) == begun(history) + if event is Begin {
            1int
        } else {
            0
        },
        ended(history.push(event)) == ended(history) + if event is End {
            1int
        } else {
            0
        },
{
    let longer = history.push(event);
    assert(longer.drop_last() =~= history);
    assert(history.take(history.len() as int) =~= history);
    assert forall|n: int| 0 <= n <= longer.len() implies ended(#[trigger] longer.take(n)) <= begun(
        longer.take(n),
    ) by {
        if n < longer.len() {
            assert(longer.take(n) =~= history.take(n));
        } else {
            assert(longer.take(n) =~= longer);
        }
    }
}

/// A submitted copy is counted: a transfer whose copy is submitted or about to
/// be, and so one that waits for its queue, has begun exactly one more dispatch
/// than it has ended; at any other time, and when it has ended well, it has
/// ended as many as it began. It never ends what it has not begun. A transfer
/// that failed has left at most its one copy, for the next wait to end.
pub proof fn law_submitted_copy_is_counted(transfer: Transfer, replies: Seq<Reply>)
    requires
        !transfer.counted(),
    ensures
        well_paired(transfer_events(transfer, replies)),
        match transfer_run(transfer, replies) {
            Outcome::Pending(now) => begun(transfer_events(transfer, replies)) == ended(
                transfer_events(transfer, replies),
            ) + if now.counted() {
                1int
            } else {
                0
            },
            Outcome::Finished(Ok(_)) => begun(transfer_events(transfer, replies)) == ended(
                transfer_events(transfer, replies),
            ),
            Outcome::Finished(Err(_)) => begun(transfer_events(transfer, replies)) <= ended(
                transfer_events(transfer, replies),
            ) + 1,
        },
        transfer_run(transfer, replies) matches Outcome::Pending(now) && now.phase is Waiting
            ==> begun(transfer_events(transfer, replies)) == ended(
            transfer_events(transfer, replies),
        ) + 1,
    decreases replies.len(),
{
    let history = transfer_events(transfer, replies);
    if replies.len() == 0 {
        assert(forall|n: int| 0 <= n <= history.len() ==> #[trigger] history.take(n) =~= history);
    } else {
        let earlier = replies.drop_last();
        law_submitted_copy_is_counted(transfer, earlier);
        if let Outcome::Pending(now) = transfer_run(transfer, earlier) {
            if let Some(event) = now.event(replies.last()) {
                lemma_paired_push(transfer_events(transfer, earlier), event);
            }
        }
    }
}

/// A device is not quiescent while its own copy runs: where a transfer waits
/// for its queue, the tracker that it shares with everyone else's work, each
/// pairing starts and completions, shows work in flight.
pub proof fn law_device_is_not_quiescent_while_it_copies(
    transfer: Transfer,
    replies: Seq<Reply>,
    now: Transfer,
    history: Seq<(bool, DispatchEvent)>,
)
    requires
        !transfer.counted(),
        transfer_run(transfer, replies) == Outcome::<Transfer, ()>::Pending(now),
        now.phase is Waiting,
        part(history, true) == transfer_events(transfer, replies),
        well_paired(part(history, false)),
        countable(together(history)),
    ensures
        count_after(together(history)) != 0,
{
    law_submitted_copy_is_counted(transfer, replies);
    law_shared_tracker_sees_both(history);
}

/// `event` is what takes the count from work that is in flight or not to work
/// that is or is not.
pub open spec fn leads(from: bool, event: Option<DispatchEvent>, to: bool) -> bool {
    match event {
        None => from == to,
        Some(DispatchEvent::Begin) => !from && to,
        Some(DispatchEvent::End) => from && !to,
    }
}

/// The creation of a buffer counts its copy exactly while it is in flight. Only
/// where the wait for the copy failed does it stay counted, for the next wait to
/// end.
pub proof fn law_creation_counts_its_copy(creation: BufferCreation, reply: Reply)
    ensures
        match creation.step(reply) {
            Outcome::<BufferCreation, Buffer>::Pending(next) => leads(
                creation.counted(),
                creation.event(reply),
                next.counted(),
            ),
            Outcome::Finished(Ok(_)) => leads(creation.counted(), creation.event(reply), false),
            Outcome::Finished(Err(_)) => leads(
                creation.counted(),
                creation.event(reply),
                creation.phase matches CreationPhase::Moving { transfer, .. }
                    && transfer.phase is Waiting,
            ),
        },
{
}

/// The reading of a buffer counts its copy exactly while it is in flight. Only
/// where the wait for the copy failed does it stay counted, for the next wait to
/// end.
pub proof fn law_reading_counts_its_copy(read: BufferRead, reply: Reply)
    ensures
        match read.step(reply) {
            Outcome::<BufferRead, Vec<u8>>::Pending(next) => leads(
                read.counted(),
                read.event(reply),
                next.counted(),
            ),
            Outcome::Finished(Ok(_)) => leads(read.counted(), read.event(reply), false),
            Outcome::Finished(Err(_)) => leads(
                read.counted(),
                read.event(reply),
                read.phase matches ReadPhase::Fetching(transfer) && transfer.phase is Waiting,
            ),
        },
{
}

/// The count of work in flight and the copies left on the queue after
/// `replies`, where `count` and `left` were there before the transfer.
pub open spec fn tally(transfer: Transfer, replies: Seq<Reply>, count: u64, left: u64) -> (u64, u64)
    decreases replies.len(),
{
    if replies.len() == 0 {
        (count, left)
    } else {
        let (c, l) = tally(transfer, replies.drop_last(), count, left);
        match transfer_run(transfer, replies.drop_last()) {
            Outcome::Pending(now) => (
                now.count_after(replies.last(), c, l),
                now.left_after(replies.last(), l),
            ),
            Outcome::Finished(_) => (c, l),
        }
    }
}

/// A copy that was left does not stay counted for good: a transfer adds its own
/// copy to the count while it is in flight, and once it has waited for the
/// queue, that copy and all that were left there are counted no more. A
/// transfer that fails leaves the count as it was, or where the wait failed with
/// its copy left. The count does not wrap.
pub proof fn law_next_wait_ends_what_was_left(
    transfer: Transfer,
    replies: Seq<Reply>,
    count: u64,
    left: u64,
)
    requires
        transfer.phase is Allocating,
        left <= count < u64::MAX,
    ensures
        match transfer_run(transfer, replies) {
            Outcome::Pending(now) => tally(transfer, replies, count, left) == if now.counted() {
                ((count + 1) as u64, left)
            } else if now.phase is Freeing {
                ((count - left) as u64, 0u64)
            } else {
                (count, left)
            },
            Outcome::Finished(Ok(_)) => tally(transfer, replies, count, left) == (
                (count - left) as u64,
                0u64,
            ),
            Outcome::Finished(Err(_)) => tally(transfer, replies, count, left) == (count, left)
                || tally(transfer, replies, count, left) == (
                (count + 1) as u64,
                (left + 1) as u64,
            ),
        },
    decreases replies.len(),
{
    if replies.len() > 0 {
        law_next_wait_ends_what_was_left(transfer, replies.drop_last(), count, left);
    }
}

/// Where nothing but copies that were left is counted, the next transfer that
/// ends well leaves the device quiescent.
pub proof fn law_device_is_quiescent_again(transfer: Transfer, replies: Seq<Reply>, left: u64)
    requires
        transfer.phase is Allocating,
        left < u64::MAX,
        transfer_run(transfer, replies) == Outcome::<Transfer, ()>::Finished(Ok(())),
    ensures
        tally(transfer, replies, left, left) == (0u64, 0u64),
{
    law_next_wait_ends_what_was_left(transfer, replies, left, left);
}

/// A tracker that counts a creation's copy, and the copies left on the queue,
/// goes on doing so. The count does not wrap.
pub proof fn law_creation_keeps_tally(
    creation: BufferCreation,
    reply: Reply,
    count: u64,
    left: u64,
)
    requires
        left <= count < u64::MAX,
        creation.counted() ==> left < count,
    ensures
        creation.left_after(reply, left) <= creation.count_after(reply, count, left),
        creation.step(reply) matches Outcome::<BufferCreation, Buffer>::Pending(next)
            && next.counted() ==> creation.left_after(reply, left) < creation.count_after(
            reply,
            count,
            left,
        ),
{
}

/// A tracker that counts a reading's copy, and the copies left on the queue,
/// goes on doing so. The count does not wrap.
pub proof fn law_reading_keeps_tally(read: BufferRead, reply: Reply, count: u64, left: u64)
    requires
        left <= count < u64::MAX,
        read.counted() ==> left < count,
    ensures
        read.left_after(reply, left) <= read.count_after(reply, count, left),
        read.step(reply) matches Outcome::<BufferRead, Vec<u8>>::Pending(next) && next.counted()
            ==> read.left_after(reply, left) < read.count_after(reply, count, left),
{
}

} // verus!
