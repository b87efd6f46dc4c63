//! The run loop's steps: adopting spawned tasks, polling ready ones, and
//! deciding whether to halt.
use crate::kernel::Kernel;
use crate::spawner::Spawner;
use crate::task::{Task, TaskId};
use crate::waker::{ReadyQueue, TaskWaker};
use std::collections::{BTreeMap, BTreeSet};
use vstd::prelude::*;

verus! {

broadcast use vstd::std_specs::btree::group_btree_axioms;

/// A condition on which the kernel cannot go on.
#[derive(Clone, Copy, Debug, PartialEq, Eq, Structural)]
pub enum Fatal {
    /// A spawned task carries the identity of a live task.
    DuplicateTaskId,
    /// The ready-queue has no room for a spawned task.
    QueueFull,
}

/// What adopting the tasks `ids`, in order, comes to when the task table
/// holds `live` and the ready-queue has room for `room` more identities.
pub open spec fn adopt_outcome(live: Set<u64>, room: int, ids: Seq<u64>) -> Result<(), Fatal>
    decreases ids.len(),
{
    if ids.len() == 0 {
        Ok(())
    } else if live.contains(ids[0]) {
        Err(Fatal::DuplicateTaskId)
    } else if room <= 0 {
        Err(Fatal::QueueFull)
    } else {
        adopt_outcome(live.insert(ids[0]), room - 1, ids.drop_first())
    }
}

/// Whether `polled` holds exactly the identities that one pass polls: those
/// of the tasks live when the pass began (`live`) that stand on its
/// ready-queue `q`, however often each of them stands there.
pub open spec fn pass_polls(live: Set<u64>, q: Seq<u64>, polled: Set<u64>) -> bool {
    forall|id: u64| #[trigger] polled.contains(id) <==> live.contains(id) && q.contains(id)
}

/// Adopting spawned tasks and then running one pass polls each of them at
/// least once before the ready-queue runs empty.
pub proof fn lemma_adopted_tasks_polled(
    live: Set<u64>,
    ready: Seq<u64>,
    spawned: Seq<u64>,
    polled: Set<u64>,
)
    requires
        pass_polls(live + spawned.to_set(), ready + spawned, polled),
    ensures
        forall|id: u64| spawned.contains(id) ==> #[trigger] polled.contains(id),
{
    assert forall|id: u64| spawned.contains(id) implies #[trigger] polled.contains(id) by {
        let k = choose|k: int| 0 <= k < spawned.len() && spawned[k] == id;
        assert((ready + spawned)[ready.len() + k] == id);
        assert(spawned.to_set().contains(id));
    }
}

/// A task whose poll reports that it finished has, after the pass, neither
/// a table entry nor a cached waker, and no later pass polls it unless a
/// task with its identity is adopted again.
pub proof fn lemma_finished_task_not_polled_again(
    live: Set<u64>,
    q: Seq<u64>,
    polled: Map<u64, Task>,
    id: u64,
    live_after: Set<u64>,
    wakers_after: Set<u64>,
    spawned: Seq<u64>,
    q_next: Seq<u64>,
    polled_next: Set<u64>,
)
    requires
        pass_polls(live, q, polled.dom()),
        polled.contains_key(id),
        polled[id].finished(),
        forall|x: u64| #[trigger]
            live_after.contains(x) <==> live.contains(x) && !(polled.contains_key(x)
                && polled[x].finished()),
        wakers_after.subset_of(live_after),
        !spawned.contains(id),
        pass_polls(live_after + spawned.to_set(), q_next, polled_next),
    ensures
        !live_after.contains(id),
        !wakers_after.contains(id),
        !polled_next.contains(id),
{
    assert(!(live_after + spawned.to_set()).contains(id));
}

/// A wake that lands after the idle check found the ready-queue empty is
/// not lost: the pass of the next cycle polls the woken task if it is
/// still live.
pub proof fn lemma_wake_after_idle_check_served(
    live: Set<u64>,
    ready: Seq<u64>,
    id: u64,
    polled: Set<u64>,
)
    requires
        live.contains(id),
        pass_polls(live, ready.push(id), polled),
    ensures
        polled.contains(id),
{
    assert(ready.push(id)[ready.len() as int] == id);
}

/// Runs the scheduler: owns the live tasks and the waker of each task that
/// has been polled, and holds the ready-queue that wakers fill.
pub struct Executor {
    tasks: BTreeMap<u64, Task>,
    pub task_queue: ReadyQueue,
    waker_cache: BTreeMap<u64, TaskWaker>,
}

impl Executor {
    /// The identities of the live tasks.
    pub closed spec fn task_ids(&self) -> Set<u64> {
        self.tasks@.dom()
    }

    /// The live task filed under `id`.
    pub closed spec fn task(&self, id: u64) -> Task {
        self.tasks@[id]
    }

    /// The ready-queue.
    pub closed spec fn ready(&self) -> ReadyQueue {
        self.task_queue
    }

    /// The identities of the tasks whose waker is cached.
    pub closed spec fn waker_ids(&self) -> Set<u64> {
        self.waker_cache@.dom()
    }

    /// Each task is filed under its own identity, and each cached waker
    /// belongs to a live task and wakes it.
    pub closed spec fn wf(&self) -> bool {
        &&& forall|k: u64| #[trigger] self.tasks@.contains_key(k) ==> self.tasks@[k].key() == k
        &&& forall|k: u64| #[trigger]
            self.waker_cache@.contains_key(k) ==> self.tasks@.contains_key(k)
                && self.waker_cache@[k].id()@ == k
    }

    pub fn new() -> (r: Executor)
        ensures
            r.wf(),
            r.task_ids() == Set::<u64>::empty(),
            r.waker_ids() == Set::<u64>::empty(),
            r.ready()@ == Seq::<u64>::empty(),
            r.ready().capacity() == crate::waker::READY_QUEUE_CAPACITY,
    {
        Executor {
            tasks: BTreeMap::new(),
            task_queue: ReadyQueue::new(),
            waker_cache: BTreeMap::new(),
        }
    }

    /// Whether a task with identity `id` is live.
    pub fn has_task(&self, id: TaskId) -> (r: bool)
        ensures
            r == self.task_ids().contains(id@),
    {
        self.tasks.contains_key(&id.as_u64())
    }

    /// Whether a waker is cached for the task with identity `id`.
    pub fn has_waker(&self, id: TaskId) -> (r: bool)
        ensures
            r == self.waker_ids().contains(id@),
    {
        self.waker_cache.contains_key(&id.as_u64())
    }

    /// How many tasks are live.
    pub fn task_count(&self) -> (r: usize)
        ensures
            r == self.task_ids().len(),
    {
        self.tasks.len()
    }

    /// Adopts every task waiting in `spawner`, in order: files it in the
    /// task table and puts its identity on the ready-queue. Stops with a
    /// fatal condition at the first task whose identity is live already,
    /// or for which the ready-queue has no room.
    pub fn spawn_new_tasks(&mut self, spawner: &mut Spawner) -> (r: Result<(), Fatal>)
        requires
            old(self).wf(),
        ensures
            final(self).wf(),
            forall|id: u64|
                old(self).task_ids().contains(id) ==> final(self).task_ids().contains(id)
                    && #[trigger] final(self).task(id) == old(self).task(id),
            final(spawner).capacity() == old(spawner).capacity(),
            final(self).ready().capacity() == old(self).ready().capacity(),
            r == adopt_outcome(
                old(self).task_ids(),
                old(self).ready().capacity() - old(self).ready()@.len(),
                old(spawner)@,
            ),
            r is Ok ==> {
                &&& final(spawner)@ == Seq::<u64>::empty()
                &&& final(self).task_ids() == old(self).task_ids() + old(spawner)@.to_set()
                &&& final(self).ready()@ == old(self).ready()@ + old(spawner)@
                &&& final(self).waker_ids() == old(self).waker_ids()
            },
    {
        let ghost live0 = self.task_ids();
        let ghost queue0 = self.task_queue@;
        let ghost pending0 = spawner@;
        let ghost room0 = self.task_queue.capacity() - self.task_queue@.len();
        let ghost mut taken: int = 0;
        loop
            invariant
                self.wf(),
                0 <= taken <= pending0.len(),
                live0 == old(self).task_ids(),
                queue0 == old(self).ready()@,
                pending0 == old(spawner)@,
                room0 == old(self).ready().capacity() - old(self).ready()@.len(),
                spawner@ == pending0.subrange(taken, pending0.len() as int),
                spawner.capacity() == old(spawner).capacity(),
                self.task_queue.capacity() == old(self).ready().capacity(),
                self.task_ids() == live0 + pending0.subrange(0, taken).to_set(),
                self.task_queue@ == queue0 + pending0.subrange(0, taken),
                self.waker_ids() == old(self).waker_ids(),
                forall|id: u64|
                    live0.contains(id) ==> #[trigger] self.tasks@[id] == old(self).tasks@[id],
                adopt_outcome(live0, room0, pending0) == adopt_outcome(
                    self.task_ids(),
                    self.task_queue.capacity() - self.task_queue@.len(),
                    spawner@,
                ),
            decreases spawner@.len(),
        {
            let task = match spawner.take() {
                Some(task) => task,
                None => {
                    assert(spawner@.len() == 0);
                    assert(taken == pending0.len());
                    assert(pending0.subrange(0, taken) =~= pending0);
                    assert(adopt_outcome(self.task_ids(), self.task_queue.capacity() - self.task_queue@.len(), spawner@) == Ok::<(), Fatal>(()));
                    return Ok(());
                },
            };
            let task_id = task.id().as_u64();
            if self.tasks.contains_key(&task_id) {
                return Err(Fatal::DuplicateTaskId);
            }
            if self.task_queue.is_full() {
                return Err(Fatal::QueueFull);
            }
            self.tasks.insert(task_id, task);
            self.task_queue.push(TaskId::from_raw(task_id));
            proof {
                let prev = pending0.subrange(0, taken);
                taken = taken + 1;
                assert(pending0.subrange(0, taken) =~= prev.push(task_id));
                prev.lemma_push_to_set_commute(task_id);
                assert(self.task_ids() =~= live0 + pending0.subrange(0, taken).to_set());
                assert(self.task_queue@ =~= queue0 + pending0.subrange(0, taken));
                assert(spawner@ =~= pending0.subrange(taken, pending0.len() as int));
            }
        }
    }

    /// Takes identities off the ready-queue until it is empty, polling each
    /// live task on it exactly once, however often it was woken: an entry
    /// whose task is no longer live, or was polled earlier in this pass, is
    /// skipped. A task is polled with its cached waker, made on its first
    /// poll. A task that finishes leaves the table together with its waker.
    ///
    /// The result maps each polled identity to its task as the poll left
    /// it.
    pub fn run_ready_tasks(&mut self, kernel: &mut Kernel) -> (polled: Ghost<Map<u64, Task>>)
        requires
            old(self).wf(),
        ensures
            final(self).wf(),
            final(self).ready()@ == Seq::<u64>::empty(),
            final(self).ready().capacity() == old(self).ready().capacity(),
            pass_polls(old(self).task_ids(), old(self).ready()@, polled@.dom()),
            forall|id: u64| #[trigger]
                polled@.contains_key(id) ==> polled@[id].key() == id && polled@[id].polls()
                    == old(self).task(id).polls() + 1,
            forall|id: u64| #[trigger]
                final(self).task_ids().contains(id) <==> old(self).task_ids().contains(id) && !(
                polled@.contains_key(id) && polled@[id].finished()),
            forall|id: u64|
                final(self).task_ids().contains(id) ==> #[trigger] final(self).task(id) == if polled@.contains_key(
                    id,
                ) {
                    polled@[id]
                } else {
                    old(self).task(id)
                },
            forall|id: u64| #[trigger]
                final(self).waker_ids().contains(id) <==> (old(self).waker_ids().contains(id)
                    || polled@.contains_key(id)) && final(self).task_ids().contains(id),
    {
        let ghost live0 = self.task_ids();
        let ghost tasks0 = self.tasks@;
        let ghost wakers0 = self.waker_ids();
        let ghost q = self.task_queue@;
        let ghost mut polled: Map<u64, Task> = Map::empty();
        let ghost mut taken: int = 0;
        let mut seen: BTreeSet<u64> = BTreeSet::new();
        while !self.task_queue.is_empty()
            invariant
                self.wf(),
                live0 == old(self).task_ids(),
                tasks0 == old(self).tasks@,
                wakers0 == old(self).waker_ids(),
                q == old(self).ready()@,
                0 <= taken <= q.len(),
                self.task_queue@ == q.subrange(taken, q.len() as int),
                self.task_queue.capacity() == old(self).ready().capacity(),
                seen@ == polled.dom(),
                forall|id: u64| #[trigger]
                    polled.contains_key(id) <==> live0.contains(id) && q.subrange(
                        0,
                        taken,
                    ).contains(id),
                forall|id: u64| #[trigger]
                    polled.contains_key(id) ==> polled[id].key() == id && polled[id].polls()
                        == tasks0[id].polls() + 1,
                forall|id: u64| #[trigger]
                    self.task_ids().contains(id) <==> live0.contains(id) && !(polled.contains_key(
                        id,
                    ) && polled[id].finished()),
                forall|id: u64|
                    self.task_ids().contains(id) ==> #[trigger] self.tasks@[id] == if polled.contains_key(
                        id,
                    ) {
                        polled[id]
                    } else {
                        tasks0[id]
                    },
                forall|id: u64| #[trigger]
                    self.waker_ids().contains(id) <==> (wakers0.contains(id) || polled.contains_key(
                        id,
                    )) && self.task_ids().contains(id),
            decreases self.task_queue@.len(),
        {
            let ghost ids_before = self.task_ids();
            let ghost map_before = self.tasks@;
            let ghost wakers_before = self.waker_ids();
            let ghost polled_before = polled;
            let task_id = self.task_queue.pop().unwrap();
            assert(q[taken] == task_id);
            assert(q.subrange(0, taken + 1) =~= q.subrange(0, taken).push(task_id));
            assert(polled.contains_key(task_id) ==> live0.contains(task_id));
            if !seen.contains(&task_id) {
                match self.tasks.remove(&task_id) {
                    None => {
                        assert(!live0.contains(task_id));
                    },
                    Some(mut task) => {
                        assert(live0.contains(task_id));
                        assert(task == tasks0[task_id]);
                        let waker = match self.waker_cache.get(&task_id) {
                            Some(w) => *w,
                            None => {
                                let w = TaskWaker::new(TaskId::from_raw(task_id));
                                self.waker_cache.insert(task_id, w);
                                w
                            },
                        };
                        let done = task.poll(&waker, kernel);
                        seen.insert(task_id);
                        proof {
                            polled = polled.insert(task_id, task);
                        }
                        if done {
                            self.waker_cache.remove(&task_id);
                        } else {
                            self.tasks.insert(task_id, task);
                        }
                    },
                }
            }
            proof {
                let prev = taken;
                taken = taken + 1;
                assert forall|id: u64| #[trigger]
                    polled.contains_key(id) <==> live0.contains(id) && q.subrange(
                        0,
                        taken,
                    ).contains(id) by {
                    assert(polled_before.contains_key(id) <==> live0.contains(id) && q.subrange(
                        0,
                        prev,
                    ).contains(id));
                    if q.subrange(0, taken).contains(id) && id != task_id {
                        let k = choose|k: int| 0 <= k < taken && q.subrange(0, taken)[k] == id;
                        assert(q.subrange(0, prev)[k] == id);
                    }
                    if q.subrange(0, prev).contains(id) {
                        let k = choose|k: int| 0 <= k < prev && q.subrange(0, prev)[k] == id;
                        assert(q.subrange(0, taken)[k] == id);
                    }
                    assert(q.subrange(0, taken)[prev] == task_id);
                }
                assert forall|id: u64| #[trigger]
                    self.task_ids().contains(id) <==> live0.contains(id) && !(polled.contains_key(
                        id,
                    ) && polled[id].finished()) by {
                    assert(ids_before.contains(id) <==> live0.contains(id) && !(
                    polled_before.contains_key(id) && polled_before[id].finished()));
                }
                assert forall|id: u64|
                    self.task_ids().contains(id) implies #[trigger] self.tasks@[id]
                    == if polled.contains_key(id) {
                    polled[id]
                } else {
                    tasks0[id]
                } by {
                    assert(ids_before.contains(id) <==> live0.contains(id) && !(
                    polled_before.contains_key(id) && polled_before[id].finished()));
                    if id != task_id {
                        assert(map_before.contains_key(id));
                        assert(map_before[id] == if polled_before.contains_key(id) {
                            polled_before[id]
                        } else {
                            tasks0[id]
                        });
                    }
                }
                assert forall|id: u64| #[trigger]
                    self.waker_ids().contains(id) <==> (wakers0.contains(id) || polled.contains_key(
                        id,
                    )) && self.task_ids().contains(id) by {
                    assert(wakers_before.contains(id) <==> (wakers0.contains(id)
                        || polled_before.contains_key(id)) && ids_before.contains(id));
                    assert(ids_before.contains(id) <==> live0.contains(id) && !(
                    polled_before.contains_key(id) && polled_before[id].finished()));
                }
            }
            assert(self.task_queue@ =~= q.subrange(taken, q.len() as int));
        }
        proof {
            assert(taken == q.len());
            assert(q.subrange(0, taken) =~= q);
        }
        Ghost(polled)
    }

    /// Whether the ready-queue is empty, so that the processor may halt
    /// until the next interrupt.
    pub fn is_idle(&self) -> (r: bool)
        ensures
            r == (self.ready()@.len() == 0),
    {
        self.task_queue.is_empty()
    }
}

} // verus!
