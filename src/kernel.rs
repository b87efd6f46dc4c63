//! The state that task code and interrupt handlers share with the run loop.
use crate::mouse::MousePacketQueue;
use crate::sleep::SleepTimer;
use crate::spawner::Spawner;
use crate::task::TaskIds;
use crate::time::SystemClock;
use vstd::prelude::*;

verus! {

/// One instance is made at start-up and lent to every poll, so that tasks
/// can spawn, sleep and read device events.
pub struct Kernel {
    pub ids: TaskIds,
    pub spawner: Spawner,
    pub sleep: SleepTimer,
    pub mouse: MousePacketQueue,
    pub clock: SystemClock,
}

impl Kernel {
    pub fn new() -> (r: Kernel)
        ensures
            r.ids.next() == 0,
            r.spawner@ == Seq::<u64>::empty(),
            r.spawner.capacity() == crate::spawner::SPAWN_QUEUE_CAPACITY,
            r.sleep.remaining() == 0,
            r.sleep.waker() is None,
            !r.mouse.initialized(),
            r.mouse.waker() is None,
            r.clock@ == 0,
    {
        Kernel {
            ids: TaskIds::new(),
            spawner: Spawner::new(),
            sleep: SleepTimer::new(),
            mouse: MousePacketQueue::new(),
            clock: SystemClock::new(),
        }
    }
}

} // verus!
