use ricos_tasks::executor::Executor;
use ricos_tasks::sleep::{sleep_task_tick, Sleep, SleepTimer};
use ricos_tasks::task::{Poll, TaskIds};
use ricos_tasks::time::{get_system_uptime, system_clock_tick, SystemClock};
use ricos_tasks::waker::TaskWaker;

const MS: u64 = 1_000_000;

#[test]
fn second_sleep_overwrites_countdown() {
    let mut timer = SleepTimer::new();
    let mut executor = Executor::new();
    let mut ids = TaskIds::new();
    let first = TaskWaker::new(ids.fresh());
    let second = TaskWaker::new(ids.fresh());
    let mut long = Sleep::new(&mut timer, 100 * MS);
    assert_eq!(long.poll(&mut timer, &first), Poll::Pending);
    let mut short = Sleep::new(&mut timer, 10 * MS);
    assert_eq!(timer.remaining_ns(), 10 * MS);
    assert_eq!(short.poll(&mut timer, &second), Poll::Pending);
    for _ in 0..9 {
        sleep_task_tick(&mut timer, MS, &mut executor.task_queue);
    }
    assert!(executor.is_idle());
    sleep_task_tick(&mut timer, MS, &mut executor.task_queue);
    assert_eq!(timer.remaining_ns(), 0);
    // After about 10 ms, not 100 ms, both delays are over.
    assert_eq!(long.poll(&mut timer, &first), Poll::Ready(()));
    assert_eq!(short.poll(&mut timer, &second), Poll::Ready(()));
    assert!(!executor.is_idle());
}

#[test]
fn tick_floors_at_zero_and_wakes_once() {
    let mut timer = SleepTimer::new();
    let mut executor = Executor::new();
    let mut ids = TaskIds::new();
    let waker = TaskWaker::new(ids.fresh());
    let mut sleep = Sleep::new(&mut timer, 3);
    assert_eq!(sleep.poll(&mut timer, &waker), Poll::Pending);
    sleep_task_tick(&mut timer, 2, &mut executor.task_queue);
    assert_eq!(timer.remaining_ns(), 1);
    assert!(executor.is_idle());
    sleep_task_tick(&mut timer, 7, &mut executor.task_queue);
    assert_eq!(timer.remaining_ns(), 0);
    assert!(!executor.is_idle());
    // The slot is empty now: a further tick wakes nobody.
    executor.run_ready_tasks(&mut ricos_tasks::kernel::Kernel::new());
    sleep_task_tick(&mut timer, 1, &mut executor.task_queue);
    assert!(executor.is_idle());
}

#[test]
fn zero_sleep_is_ready_at_once() {
    let mut timer = SleepTimer::new();
    let mut ids = TaskIds::new();
    let waker = TaskWaker::new(ids.fresh());
    let mut sleep = Sleep::new(&mut timer, 0);
    assert_eq!(sleep.poll(&mut timer, &waker), Poll::Ready(()));
}

#[test]
fn system_clock_adds_ticks() {
    let mut clock = SystemClock::new();
    assert_eq!(get_system_uptime(&clock), 0);
    system_clock_tick(&mut clock, 55 * MS);
    system_clock_tick(&mut clock, 55 * MS);
    assert_eq!(get_system_uptime(&clock), 110 * MS);
}

#[test]
fn tick_wakes_only_at_zero_with_a_waker() {
    let mut timer = SleepTimer::new();
    let mut ids = TaskIds::new();
    let waker = TaskWaker::new(ids.fresh());
    assert!(!timer.tick_would_wake(5));
    let mut sleep = Sleep::new(&mut timer, 10);
    assert!(!timer.tick_would_wake(20));
    assert_eq!(sleep.poll(&mut timer, &waker), Poll::Pending);
    assert!(!timer.tick_would_wake(9));
    assert!(timer.tick_would_wake(10));
    assert!(timer.tick_would_wake(11));
}

#[test]
fn tick_without_wake_needs_no_room() {
    let mut timer = SleepTimer::new();
    let mut executor = Executor::new();
    let mut ids = TaskIds::new();
    for _ in 0..100 {
        TaskWaker::new(ids.fresh()).wake(&mut executor.task_queue);
    }
    assert!(executor.task_queue.is_full());
    let waker = TaskWaker::new(ids.fresh());
    let mut sleep = Sleep::new(&mut timer, 10);
    assert_eq!(sleep.poll(&mut timer, &waker), Poll::Pending);
    sleep_task_tick(&mut timer, 4, &mut executor.task_queue);
    assert_eq!(timer.remaining_ns(), 6);
}
