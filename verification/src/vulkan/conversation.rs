//! Conversations with the driver: the calls that an operation makes, each with
//! its answer, and where the operation stands after them.

use super::allocation::{Allocated, Allocation};
use super::bringup::Build;
use super::buffer::{Buffer, BufferCreation, BufferRead};
use super::command::{Command, Outcome, Progress, Reply};
use super::device::VulkanDevice;
use super::setup::{SetupCommand, SetupReply, SetupRequest};
use super::transfer::Transfer;
use vstd::prelude::*;

verus! {

/// An operation that makes one call after the other.
pub trait Operation: Sized {
    /// A call.
    type Call;

    /// How a call went.
    type Answer;

    /// What the operation ends in.
    type Made;

    /// The call that the operation makes next.
    spec fn asks(self) -> Self::Call;

    /// Where the operation stands after the answer.
    spec fn hears(self, answer: Self::Answer) -> Outcome<Self, Self::Made>;
}

impl Operation for Allocation {
    type Call = Command<'static>;

    type Answer = Reply;

    type Made = Allocated;

    open spec fn asks(self) -> Command<'static> {
        self.wanted()
    }

    open spec fn hears(self, answer: Reply) -> Outcome<Allocation, Allocated> {
        self.step(answer)
    }
}

impl Operation for Transfer {
    type Call = Command<'static>;

    type Answer = Reply;

    type Made = ();

    open spec fn asks(self) -> Command<'static> {
        self.wanted()
    }

    open spec fn hears(self, answer: Reply) -> Outcome<Transfer, ()> {
        self.step(answer)
    }
}

impl<'a> Operation for BufferCreation<'a> {
    type Call = Command<'a>;

    type Answer = Reply;

    type Made = Buffer;

    open spec fn asks(self) -> Command<'a> {
        self.wanted()
    }

    open spec fn hears(self, answer: Reply) -> Outcome<BufferCreation<'a>, Buffer> {
        self.step(answer)
    }
}

impl Operation for BufferRead {
    type Call = Command<'static>;

    type Answer = Reply;

    type Made = Vec<u8>;

    open spec fn asks(self) -> Command<'static> {
        self.wanted()
    }

    open spec fn hears(self, answer: Reply) -> Outcome<BufferRead, Vec<u8>> {
        self.step(answer)
    }
}

impl Operation for Build {
    type Call = SetupRequest;

    type Answer = SetupReply;

    type Made = VulkanDevice;

    open spec fn asks(self) -> SetupRequest {
        self.wanted()
    }

    open spec fn hears(self, answer: SetupReply) -> Outcome<Build, VulkanDevice> {
        self.step(answer)
    }
}

/// Where an operation stands once exactly these calls were made and so
/// answered; `None` where it makes other calls.
pub open spec fn talk<O: Operation>(start: O, said: Seq<(O::Call, O::Answer)>) -> Option<
    Outcome<O, O::Made>,
>
    decreases said.len(),
{
    if said.len() == 0 {
        Some(Outcome::Pending(start))
    } else {
        match talk(start, said.drop_last()) {
            Some(Outcome::Pending(now)) => if now.asks() == said.last().0 {
                Some(now.hears(said.last().1))
            } else {
                None
            },
            _ => None,
        }
    }
}

/// A conversation goes on with the next call and its answer.
pub proof fn lemma_talk_goes_on<O: Operation>(
    start: O,
    said: Seq<(O::Call, O::Answer)>,
    now: O,
    call: O::Call,
    answer: O::Answer,
)
    requires
        talk(start, said) == Some(Outcome::<O, O::Made>::Pending(now)),
        now.asks() == call,
    ensures
        talk(start, said.push((call, answer))) == Some(now.hears(answer)),
{
    assert(said.push((call, answer)).drop_last() =~= said);
}

/// What an operation asks for is the command that it hands out.
pub proof fn law_commands_are_what_is_asked<'a>(
    allocation: &Allocation,
    transfer: &Transfer,
    creation: &BufferCreation<'a>,
    read: &BufferRead,
    build: &Build,
    for_allocation: Command<'static>,
    for_transfer: Command<'static>,
    for_creation: Command<'a>,
    for_read: Command<'static>,
    for_build: SetupCommand,
)
    requires
        call_ensures(Allocation::command, (allocation,), for_allocation),
        call_ensures(Transfer::command, (transfer,), for_transfer),
        call_ensures(BufferCreation::<'a>::command, (creation,), for_creation),
        call_ensures(BufferRead::command, (read,), for_read),
        call_ensures(Build::command, (build,), for_build),
    ensures
        for_allocation == allocation.asks(),
        for_transfer == transfer.asks(),
        for_creation == creation.asks(),
        for_read == read.asks(),
        for_build@ == build.asks(),
{
}

/// What an operation makes of an answer is where it stands when it is resumed.
pub proof fn law_resuming_is_hearing(
    allocation: Allocation,
    reply: Reply,
    allocating: Progress<Allocation, Allocated>,
    build: Build,
    answer: SetupReply,
    building: Progress<Build, VulkanDevice>,
)
    requires
        allocation.memory.wf(),
        call_ensures(Allocation::resume, (allocation, reply), allocating),
        build.wf(),
        answer.wf(),
        call_ensures(Build::resume, (build, answer), building),
    ensures
        allocating@ == allocation.hears(reply),
        building@ == build.hears(answer),
{
}

} // verus!
