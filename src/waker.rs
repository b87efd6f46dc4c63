//! The ready-queue and the wakers that feed it.
use crate::queue::{id_queue_capacity, id_queue_is_empty, id_queue_is_full, id_queue_items, id_queue_new, id_queue_pop, id_queue_push};
use crate::task::TaskId;
use crossbeam_queue::ArrayQueue;
use vstd::prelude::*;

verus! {

/// How many identities the ready-queue holds.
pub const READY_QUEUE_CAPACITY: usize = 100;

/// The bounded FIFO of identities of tasks that asked to be polled. Entries
/// may repeat; an entry whose task has finished is skipped when it is taken.
pub struct ReadyQueue {
    queue: ArrayQueue<u64>,
}

impl View for ReadyQueue {
    type V = Seq<u64>;

    closed spec fn view(&self) -> Seq<u64> {
        id_queue_items(self.queue)
    }
}

impl ReadyQueue {
    pub closed spec fn capacity(&self) -> nat {
        id_queue_capacity(self.queue)
    }

    /// Whether another identity fits.
    pub open spec fn has_room(&self) -> bool {
        self@.len() < self.capacity()
    }

    pub fn new() -> (r: ReadyQueue)
        ensures
            r@ == Seq::<u64>::empty(),
            r.capacity() == READY_QUEUE_CAPACITY,
    {
        ReadyQueue { queue: id_queue_new(READY_QUEUE_CAPACITY) }
    }

    pub fn is_empty(&self) -> (r: bool)
        ensures
            r == (self@.len() == 0),
    {
        id_queue_is_empty(&self.queue)
    }

    /// Whether a push now would overflow.
    pub fn is_full(&self) -> (r: bool)
        ensures
            r == !self.has_room(),
    {
        id_queue_is_full(&self.queue)
    }

    pub(crate) fn push(&mut self, id: TaskId)
        requires
            old(self).has_room(),
        ensures
            final(self)@ == old(self)@.push(id@),
            final(self).capacity() == old(self).capacity(),
    {
        let r = id_queue_push(&mut self.queue, id.as_u64());
        assert(r is Ok);
    }

    pub(crate) fn pop(&mut self) -> (r: Option<u64>)
        ensures
            final(self).capacity() == old(self).capacity(),
            old(self)@.len() == 0 ==> r is None && final(self)@ == old(self)@,
            old(self)@.len() > 0 ==> r == Some(old(self)@[0]) && final(self)@ == old(self)@.drop_first(),
    {
        id_queue_pop(&mut self.queue)
    }
}

/// The capability to ask for one task to be polled again.
#[derive(Clone, Copy, Debug, PartialEq, Eq, Structural)]
pub struct TaskWaker {
    task_id: TaskId,
}

impl TaskWaker {
    pub closed spec fn id(&self) -> TaskId {
        self.task_id
    }

    pub fn new(task_id: TaskId) -> (r: TaskWaker)
        ensures
            r.id() == task_id,
    {
        TaskWaker { task_id }
    }

    pub fn task_id(&self) -> (r: TaskId)
        ensures
            r == self.id(),
    {
        self.task_id
    }

    fn wake_task(&self, queue: &mut ReadyQueue)
        requires
            old(queue).has_room(),
        ensures
            final(queue)@ == old(queue)@.push(self.id()@),
            final(queue).capacity() == old(queue).capacity(),
    {
        queue.push(self.task_id);
    }

    /// Puts this waker's task on the ready-queue, using up the waker.
    pub fn wake(self, queue: &mut ReadyQueue)
        requires
            old(queue).has_room(),
        ensures
            final(queue)@ == old(queue)@.push(self.id()@),
            final(queue).capacity() == old(queue).capacity(),
    {
        self.wake_task(queue);
    }

    /// Puts this waker's task on the ready-queue, keeping the waker.
    pub fn wake_by_ref(&self, queue: &mut ReadyQueue)
        requires
            old(queue).has_room(),
        ensures
            final(queue)@ == old(queue)@.push(self.id()@),
            final(queue).capacity() == old(queue).capacity(),
    {
        self.wake_task(queue);
    }
}

} // verus!
