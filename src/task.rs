//! Task identity and the unit of cooperative work.
use crate::kernel::Kernel;
use crate::waker::TaskWaker;
use vstd::prelude::*;

verus! {

/// The opaque identity of a task; the key that ties a task, its cached
/// waker and its entries on the ready-queue together.
#[derive(Clone, Copy, Debug, PartialEq, Eq, Structural, Hash, PartialOrd, Ord)]
pub struct TaskId(u64);

impl View for TaskId {
    type V = u64;

    closed spec fn view(&self) -> u64 {
        self.0
    }
}

impl TaskId {
    pub(crate) fn from_raw(raw: u64) -> (r: TaskId)
        ensures
            r@ == raw,
    {
        TaskId(raw)
    }

    /// The number behind this identity.
    pub fn as_u64(self) -> (r: u64)
        ensures
            r == self@,
    {
        self.0
    }
}

/// Hands out task identities from a counter that only moves forward, so no
/// identity is given twice.
pub struct TaskIds {
    next: u64,
}

impl TaskIds {
    /// The identity that the next call of `fresh` gives.
    pub closed spec fn next(&self) -> nat {
        self.next as nat
    }

    pub fn new() -> (r: TaskIds)
        ensures
            r.next() == 0,
    {
        TaskIds { next: 0 }
    }

    /// Whether another identity can still be given.
    pub fn has_next(&self) -> (r: bool)
        ensures
            r == (self.next() < u64::MAX),
    {
        self.next < u64::MAX
    }

    /// Advances the counter and returns the identity it stood at.
    pub fn fresh(&mut self) -> (r: TaskId)
        requires
            old(self).next() < u64::MAX,
        ensures
            r@ == old(self).next(),
            final(self).next() == old(self).next() + 1,
    {
        let id = self.next;
        self.next = self.next + 1;
        TaskId(id)
    }
}

/// Each identity given by a counter is below everything given after it, so
/// identities drawn from one counter are pairwise distinct.
pub proof fn lemma_fresh_ids_distinct(first: TaskId, before: TaskIds, later: TaskId)
    requires
        first@ < before.next(),
        later@ >= before.next(),
    ensures
        first != later,
{
}

/// What one poll of a computation reports.
#[derive(Debug, PartialEq, Eq, Structural)]
pub enum Poll<T> {
    Ready(T),
    Pending,
}

/// A suspend/resume computation: each poll advances it as far as it can go
/// without waiting. One that cannot finish yet keeps a copy of `waker` where
/// the event it waits for will find it, and reports `Pending`.
pub trait Computation {
    fn poll(&mut self, waker: &TaskWaker, kernel: &mut Kernel) -> Poll<()>;
}

/// A computation together with its identity.
pub struct Task {
    pub(crate) id: TaskId,
    computation: Box<dyn Computation>,
    /// How often the computation has been polled.
    polls: Ghost<nat>,
    /// Whether the last poll reported that the computation finished.
    finished: Ghost<bool>,
}

impl Task {
    /// The key under which the executor files it.
    pub closed spec fn key(&self) -> u64 {
        self.id@
    }

    /// How often the computation has been polled.
    pub closed spec fn polls(&self) -> nat {
        self.polls@
    }

    /// Whether the last poll reported that the computation finished.
    pub closed spec fn finished(&self) -> bool {
        self.finished@
    }

    /// Wraps `computation` under an identity drawn from `ids`.
    pub fn new(ids: &mut TaskIds, computation: Box<dyn Computation>) -> (r: Task)
        requires
            old(ids).next() < u64::MAX,
        ensures
            r.key() == old(ids).next(),
            r.polls() == 0,
            !r.finished(),
            final(ids).next() == old(ids).next() + 1,
    {
        Task { id: ids.fresh(), computation, polls: Ghost(0), finished: Ghost(false) }
    }

    pub fn id(&self) -> (r: TaskId)
        ensures
            r@ == self.key(),
    {
        self.id
    }

    /// Polls the computation once with the waker of this very task;
    /// `true` when it has finished.
    pub(crate) fn poll(&mut self, waker: &TaskWaker, kernel: &mut Kernel) -> (done: bool)
        requires
            waker.id()@ == old(self).key(),
        ensures
            final(self).key() == old(self).key(),
            final(self).polls() == old(self).polls() + 1,
            final(self).finished() == done,
    {
        let done = match self.computation.poll(waker, kernel) {
            Poll::Ready(()) => true,
            Poll::Pending => false,
        };
        self.polls = Ghost(self.polls@ + 1);
        self.finished = Ghost(done);
        done
    }
}

} // verus!
