//! Delays, counted down by the timer interrupt.
use crate::task::Poll;
use crate::waker::{ReadyQueue, TaskWaker};
use vstd::prelude::*;

verus! {

/// The one countdown shared by every delay, and the one waker slot that
/// the countdown's end wakes. Starting a delay overwrites the countdown for
/// every delay that is still waiting.
pub struct SleepTimer {
    remaining: u64,
    waker: Option<TaskWaker>,
}

/// `a - b`, or zero where `b` exceeds `a`.
pub open spec fn saturating_sub(a: nat, b: nat) -> nat {
    if a > b {
        (a - b) as nat
    } else {
        0
    }
}

/// The countdown after `ticks` timer interrupts of `rate` nanoseconds each.
pub open spec fn countdown_after(start: nat, rate: nat, ticks: nat) -> nat
    decreases ticks,
{
    if ticks == 0 {
        start
    } else {
        saturating_sub(countdown_after(start, rate, (ticks - 1) as nat), rate)
    }
}

/// Ticks of equal length take off their sum, stopping at zero.
pub proof fn lemma_countdown_after(start: nat, rate: nat, ticks: nat)
    ensures
        countdown_after(start, rate, ticks) == saturating_sub(start, ticks * rate),
    decreases ticks,
{
    if ticks > 0 {
        let prev = (ticks - 1) as nat;
        lemma_countdown_after(start, rate, prev);
        assert(ticks * rate == prev * rate + rate) by (nonlinear_arith)
            requires
                ticks == prev + 1,
        ;
        assert(countdown_after(start, rate, ticks) == saturating_sub(
            countdown_after(start, rate, prev),
            rate,
        ));
    } else {
        assert(ticks * rate == 0) by (nonlinear_arith)
            requires
                ticks == 0,
        ;
    }
}

/// Starting a second delay before the first has run out overwrites the
/// shared countdown, so the first duration no longer counts: after `ticks`
/// interrupts of `rate` nanoseconds the countdown reads zero exactly when
/// `ticks * rate` reaches the second duration. From then on every delay
/// still waiting reports ready when polled; the tick that empties the
/// countdown wakes only the waker registered last, as the slot holds one.
pub proof fn lemma_later_sleep_governs(
    first: SleepTimer,
    second: SleepTimer,
    d1: u64,
    d2: u64,
    rate: nat,
    ticks: nat,
)
    requires
        first.remaining() == d1,
        second.remaining() == d2,
    ensures
        countdown_after(second.remaining(), rate, ticks) == 0 <==> ticks * rate >= d2,
{
    lemma_countdown_after(second.remaining(), rate, ticks);
}

/// Whether a tick of `rate` nanoseconds wakes a waker: it leaves the
/// countdown at zero while a waker is registered.
pub open spec fn tick_wakes(timer: SleepTimer, rate: nat) -> bool {
    saturating_sub(timer.remaining(), rate) == 0 && timer.waker() is Some
}

impl SleepTimer {
    /// Nanoseconds left on the countdown.
    pub closed spec fn remaining(&self) -> nat {
        self.remaining as nat
    }

    /// The waker that the countdown's end wakes.
    pub closed spec fn waker(&self) -> Option<TaskWaker> {
        self.waker
    }

    pub fn new() -> (r: SleepTimer)
        ensures
            r.remaining() == 0,
            r.waker() is None,
    {
        SleepTimer { remaining: 0, waker: None }
    }

    /// Whether a tick of `rate` nanoseconds would wake a waker, and so
    /// needs room on the ready-queue.
    pub fn tick_would_wake(&self, rate: u64) -> (r: bool)
        ensures
            r == tick_wakes(*self, rate as nat),
    {
        rate >= self.remaining && self.waker.is_some()
    }

    /// Nanoseconds left on the countdown.
    pub fn remaining_ns(&self) -> (r: u64)
        ensures
            r == self.remaining(),
    {
        self.remaining
    }
}

/// Called by the timer interrupt with the time elapsed since its last call:
/// counts down, stopping at zero, and wakes the registered waker, taking
/// it out of its slot, once the countdown stands at zero.
pub fn sleep_task_tick(timer: &mut SleepTimer, rate: u64, queue: &mut ReadyQueue)
    requires
        tick_wakes(*old(timer), rate as nat) ==> old(queue).has_room(),
    ensures
        final(timer).remaining() == saturating_sub(old(timer).remaining(), rate as nat),
        final(queue).capacity() == old(queue).capacity(),
        final(timer).remaining() == 0 && old(timer).waker() is Some ==> final(timer).waker() is None
            && final(queue)@ == old(queue)@.push(old(timer).waker()->0.id()@),
        !(final(timer).remaining() == 0 && old(timer).waker() is Some) ==> final(timer).waker()
            == old(timer).waker() && final(queue)@ == old(queue)@,
{
    timer.remaining = if timer.remaining > rate {
        timer.remaining - rate
    } else {
        0
    };
    if timer.remaining == 0 {
        match timer.waker.take() {
            Some(waker) => waker.wake(queue),
            None => {},
        }
    }
}

fn setup_sleep(timer: &mut SleepTimer, duration: u64)
    ensures
        final(timer).remaining() == duration,
        final(timer).waker() == old(timer).waker(),
{
    timer.remaining = duration;
}

/// A delay: finished once the shared countdown stands at zero.
pub struct Sleep {
    _private: (),
}

impl Sleep {
    /// Starts a delay of `duration` nanoseconds, overwriting the shared
    /// countdown.
    pub fn new(timer: &mut SleepTimer, duration: u64) -> (r: Sleep)
        ensures
            final(timer).remaining() == duration,
            final(timer).waker() == old(timer).waker(),
    {
        setup_sleep(timer, duration);
        Sleep { _private: () }
    }

    /// Finished when the countdown stands at zero; otherwise registers
    /// `waker` in the shared slot, then looks at the countdown once more in
    /// case it ran out meanwhile.
    pub fn poll(&mut self, timer: &mut SleepTimer, waker: &TaskWaker) -> (r: Poll<()>)
        ensures
            final(timer).remaining() == old(timer).remaining(),
            old(timer).remaining() == 0 ==> r == Poll::Ready(()) && final(timer).waker()
                == old(timer).waker(),
            old(timer).remaining() > 0 ==> r == Poll::<()>::Pending && final(timer).waker()
                == Some(*waker),
    {
        if timer.remaining == 0 {
            return Poll::Ready(());
        }
        timer.waker = Some(*waker);
        if timer.remaining == 0 {
            Poll::Ready(())
        } else {
            Poll::Pending
        }
    }
}

} // verus!
