//! Bounded FIFO queues of the `crossbeam_queue` crate, used with exclusive
//! access (`push_mut` / `pop_mut`).
use crate::task::Task;
use crossbeam_queue::ArrayQueue;
use vstd::prelude::*;

verus! {

#[verifier::external_type_specification]
#[verifier::external_body]
#[verifier::reject_recursive_types(T)]
pub struct ExArrayQueue<T>(ArrayQueue<T>);

/// The identities held by a queue of task identities, oldest first.
pub uninterp spec fn id_queue_items(q: ArrayQueue<u64>) -> Seq<u64>;

/// The capacity a queue of task identities was made with.
pub uninterp spec fn id_queue_capacity(q: ArrayQueue<u64>) -> nat;

/// The bytes held by a queue of device events, oldest first.
pub uninterp spec fn byte_queue_items(q: ArrayQueue<u8>) -> Seq<u8>;

/// The capacity a queue of device events was made with.
pub uninterp spec fn byte_queue_capacity(q: ArrayQueue<u8>) -> nat;

/// The largest capacity this crate asks of a queue.
pub const MAX_CAPACITY: usize = 65536;

/// Relies on `ArrayQueue::new`: an empty queue of the given capacity (it
/// panics on a zero capacity only, among those admitted here).
#[verifier::external_body]
pub(crate) fn id_queue_new(cap: usize) -> (q: ArrayQueue<u64>)
    requires
        0 < cap <= MAX_CAPACITY,
    ensures
        id_queue_items(q) == Seq::<u64>::empty(),
        id_queue_capacity(q) == cap as nat,
{
    ArrayQueue::new(cap)
}

/// Relies on `ArrayQueue::push_mut`: appends at the back unless the queue
/// holds as many items as its capacity, in which case the value comes back.
#[verifier::external_body]
pub(crate) fn id_queue_push(q: &mut ArrayQueue<u64>, x: u64) -> (r: Result<(), u64>)
    ensures
        id_queue_capacity(*final(q)) == id_queue_capacity(*old(q)),
        id_queue_items(*old(q)).len() < id_queue_capacity(*old(q)) ==> r is Ok
            && id_queue_items(*final(q)) == id_queue_items(*old(q)).push(x),
        id_queue_items(*old(q)).len() >= id_queue_capacity(*old(q)) ==> r is Err && r->Err_0 == x
            && id_queue_items(*final(q)) == id_queue_items(*old(q)),
{
    q.push_mut(x)
}

/// Relies on `ArrayQueue::pop_mut`: removes and returns the oldest item.
#[verifier::external_body]
pub(crate) fn id_queue_pop(q: &mut ArrayQueue<u64>) -> (r: Option<u64>)
    ensures
        id_queue_capacity(*final(q)) == id_queue_capacity(*old(q)),
        id_queue_items(*old(q)).len() == 0 ==> r is None && id_queue_items(*final(q))
            == id_queue_items(*old(q)),
        id_queue_items(*old(q)).len() > 0 ==> r == Some(id_queue_items(*old(q))[0])
            && id_queue_items(*final(q)) == id_queue_items(*old(q)).drop_first(),
{
    q.pop_mut()
}

/// Relies on `ArrayQueue::is_empty`: whether the queue holds no item.
#[verifier::external_body]
pub(crate) fn id_queue_is_empty(q: &ArrayQueue<u64>) -> (r: bool)
    ensures
        r == (id_queue_items(*q).len() == 0),
{
    q.is_empty()
}

/// Relies on `ArrayQueue::is_full`: whether the queue holds as many items as
/// its capacity (it never holds more).
#[verifier::external_body]
pub(crate) fn id_queue_is_full(q: &ArrayQueue<u64>) -> (r: bool)
    ensures
        r == (id_queue_items(*q).len() >= id_queue_capacity(*q)),
{
    q.is_full()
}

/// Relies on `ArrayQueue::new`: an empty queue of the given capacity.
#[verifier::external_body]
pub(crate) fn byte_queue_new(cap: usize) -> (q: ArrayQueue<u8>)
    requires
        0 < cap <= MAX_CAPACITY,
    ensures
        byte_queue_items(q) == Seq::<u8>::empty(),
        byte_queue_capacity(q) == cap as nat,
{
    ArrayQueue::new(cap)
}

/// Relies on `ArrayQueue::push_mut`: appends at the back unless the queue
/// is full, in which case the value comes back.
#[verifier::external_body]
pub(crate) fn byte_queue_push(q: &mut ArrayQueue<u8>, x: u8) -> (r: Result<(), u8>)
    ensures
        byte_queue_capacity(*final(q)) == byte_queue_capacity(*old(q)),
        byte_queue_items(*old(q)).len() < byte_queue_capacity(*old(q)) ==> r is Ok
            && byte_queue_items(*final(q)) == byte_queue_items(*old(q)).push(x),
        byte_queue_items(*old(q)).len() >= byte_queue_capacity(*old(q)) ==> r is Err && r->Err_0 == x
            && byte_queue_items(*final(q)) == byte_queue_items(*old(q)),
{
    q.push_mut(x)
}

/// Relies on `ArrayQueue::pop_mut`: removes and returns the oldest item.
#[verifier::external_body]
pub(crate) fn byte_queue_pop(q: &mut ArrayQueue<u8>) -> (r: Option<u8>)
    ensures
        byte_queue_capacity(*final(q)) == byte_queue_capacity(*old(q)),
        byte_queue_items(*old(q)).len() == 0 ==> r is None && byte_queue_items(*final(q))
            == byte_queue_items(*old(q)),
        byte_queue_items(*old(q)).len() > 0 ==> r == Some(byte_queue_items(*old(q))[0])
            && byte_queue_items(*final(q)) == byte_queue_items(*old(q)).drop_first(),
{
    q.pop_mut()
}

/// A bounded FIFO of tasks, held in a field that proofs do not look into:
/// a task's computation may itself reach a queue of tasks, and a type that
/// reaches itself through the queue's type parameter is not accepted.
#[verifier::external_body]
pub struct TaskQueue {
    queue: ArrayQueue<Task>,
}

/// The identities of the tasks held by a hand-off queue, oldest first.
pub uninterp spec fn task_queue_ids(q: TaskQueue) -> Seq<u64>;

/// The capacity a hand-off queue was made with.
pub uninterp spec fn task_queue_capacity(q: TaskQueue) -> nat;

/// Relies on `ArrayQueue::is_full`: whether the queue holds as many bytes
/// as its capacity (it never holds more).
#[verifier::external_body]
pub(crate) fn byte_queue_is_full(q: &ArrayQueue<u8>) -> (r: bool)
    ensures
        r == (byte_queue_items(*q).len() >= byte_queue_capacity(*q)),
{
    q.is_full()
}

/// Relies on `ArrayQueue::new`: an empty queue of the given capacity.
#[verifier::external_body]
pub(crate) fn task_queue_new(cap: usize) -> (q: TaskQueue)
    requires
        0 < cap <= MAX_CAPACITY,
    ensures
        task_queue_ids(q) == Seq::<u64>::empty(),
        task_queue_capacity(q) == cap as nat,
{
    TaskQueue { queue: ArrayQueue::new(cap) }
}

/// Relies on `ArrayQueue::push_mut`: appends at the back unless the queue
/// is full, in which case the task comes back.
#[verifier::external_body]
pub(crate) fn task_queue_push(q: &mut TaskQueue, t: Task) -> (r: Result<(), Task>)
    ensures
        task_queue_capacity(*final(q)) == task_queue_capacity(*old(q)),
        task_queue_ids(*old(q)).len() < task_queue_capacity(*old(q)) ==> r is Ok
            && task_queue_ids(*final(q)) == task_queue_ids(*old(q)).push(t.key()),
        task_queue_ids(*old(q)).len() >= task_queue_capacity(*old(q)) ==> r is Err
            && task_queue_ids(*final(q)) == task_queue_ids(*old(q)),
{
    q.queue.push_mut(t)
}

/// Relies on `ArrayQueue::pop_mut`: removes and returns the oldest task.
#[verifier::external_body]
pub(crate) fn task_queue_pop(q: &mut TaskQueue) -> (r: Option<Task>)
    ensures
        task_queue_capacity(*final(q)) == task_queue_capacity(*old(q)),
        task_queue_ids(*old(q)).len() == 0 ==> r is None && task_queue_ids(*final(q))
            == task_queue_ids(*old(q)),
        task_queue_ids(*old(q)).len() > 0 ==> r is Some && r->0.key() == task_queue_ids(*old(q))[0]
            && task_queue_ids(*final(q)) == task_queue_ids(*old(q)).drop_first(),
{
    q.queue.pop_mut()
}

/// Relies on `ArrayQueue::is_full`: whether the queue holds as many tasks
/// as its capacity (it never holds more).
#[verifier::external_body]
pub(crate) fn task_queue_is_full(q: &TaskQueue) -> (r: bool)
    ensures
        r == (task_queue_ids(*q).len() >= task_queue_capacity(*q)),
{
    q.queue.is_full()
}

} // verus!
