//! The system clock, advanced by the timer interrupt.
use vstd::prelude::*;

verus! {

/// Time since start-up, in nanoseconds.
pub struct SystemClock {
    uptime: u64,
}

impl View for SystemClock {
    type V = nat;

    closed spec fn view(&self) -> nat {
        self.uptime as nat
    }
}

impl SystemClock {
    pub fn new() -> (r: SystemClock)
        ensures
            r@ == 0,
    {
        SystemClock { uptime: 0 }
    }
}

/// Called by the timer interrupt with the time elapsed since its last call.
pub fn system_clock_tick(clock: &mut SystemClock, rate: u64)
    requires
        old(clock)@ + rate <= u64::MAX,
    ensures
        final(clock)@ == old(clock)@ + rate,
{
    clock.uptime = clock.uptime + rate;
}

/// The time since start-up, in nanoseconds.
pub fn get_system_uptime(clock: &SystemClock) -> (r: u64)
    ensures
        r == clock@,
{
    clock.uptime
}

} // verus!
