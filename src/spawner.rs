//! The hand-off of new tasks to the executor.
use crate::queue::{
    task_queue_capacity, task_queue_ids, task_queue_is_full, task_queue_new, task_queue_pop,
    task_queue_push, TaskQueue,
};
use crate::task::Task;
use vstd::prelude::*;

verus! {

/// How many spawned tasks wait for adoption at most.
pub const SPAWN_QUEUE_CAPACITY: usize = 100;

/// Accepts new tasks from anywhere and keeps them, in order, until the
/// executor adopts them.
pub struct Spawner {
    shared_task_queue: TaskQueue,
}

impl View for Spawner {
    /// The identities of the waiting tasks, oldest first.
    type V = Seq<u64>;

    closed spec fn view(&self) -> Seq<u64> {
        task_queue_ids(self.shared_task_queue)
    }
}

impl Spawner {
    pub closed spec fn capacity(&self) -> nat {
        task_queue_capacity(self.shared_task_queue)
    }

    pub open spec fn has_room(&self) -> bool {
        self@.len() < self.capacity()
    }

    pub fn new() -> (r: Spawner)
        ensures
            r@ == Seq::<u64>::empty(),
            r.capacity() == SPAWN_QUEUE_CAPACITY,
    {
        Spawner { shared_task_queue: task_queue_new(SPAWN_QUEUE_CAPACITY) }
    }

    /// Whether a spawn now would overflow.
    pub fn is_full(&self) -> (r: bool)
        ensures
            r == !self.has_room(),
    {
        task_queue_is_full(&self.shared_task_queue)
    }

    fn spawn(&mut self, task: Task)
        requires
            old(self).has_room(),
        ensures
            final(self)@ == old(self)@.push(task.key()),
            final(self).capacity() == old(self).capacity(),
    {
        let r = task_queue_push(&mut self.shared_task_queue, task);
        assert(r is Ok);
    }

    /// Takes the oldest waiting task.
    pub(crate) fn take(&mut self) -> (r: Option<Task>)
        ensures
            final(self).capacity() == old(self).capacity(),
            old(self)@.len() == 0 ==> r is None && final(self)@ == old(self)@,
            old(self)@.len() > 0 ==> r is Some && r->0.key() == old(self)@[0] && final(self)@
                == old(self)@.drop_first(),
    {
        task_queue_pop(&mut self.shared_task_queue)
    }
}

/// Hands `task` to the executor that adopts from `spawner`.
pub fn spawn(spawner: &mut Spawner, task: Task)
    requires
        old(spawner).has_room(),
    ensures
        final(spawner)@ == old(spawner)@.push(task.key()),
        final(spawner).capacity() == old(spawner).capacity(),
{
    spawner.spawn(task);
}

} // verus!
