use ricos_tasks::executor::{Executor, Fatal};
use ricos_tasks::kernel::Kernel;
use ricos_tasks::mouse::{add_mouse_packet, MousePacketStream};
use ricos_tasks::sleep::{sleep_task_tick, Sleep};
use ricos_tasks::spawner::spawn;
use ricos_tasks::task::{Computation, Poll, Task, TaskId};
use ricos_tasks::waker::TaskWaker;
use std::cell::RefCell;
use std::rc::Rc;

/// Finishes on its first poll.
struct Finish {
    polls: Rc<RefCell<u32>>,
}

impl Computation for Finish {
    fn poll(&mut self, _waker: &TaskWaker, _kernel: &mut Kernel) -> Poll<()> {
        *self.polls.borrow_mut() += 1;
        Poll::Ready(())
    }
}

/// Never finishes.
struct Forever {
    polls: Rc<RefCell<u32>>,
}

impl Computation for Forever {
    fn poll(&mut self, _waker: &TaskWaker, _kernel: &mut Kernel) -> Poll<()> {
        *self.polls.borrow_mut() += 1;
        Poll::Pending
    }
}

/// Waits for one delay of `duration` nanoseconds.
struct Sleeper {
    duration: u64,
    sleep: Option<Sleep>,
    polls: Rc<RefCell<u32>>,
}

impl Computation for Sleeper {
    fn poll(&mut self, waker: &TaskWaker, kernel: &mut Kernel) -> Poll<()> {
        *self.polls.borrow_mut() += 1;
        if self.sleep.is_none() {
            self.sleep = Some(Sleep::new(&mut kernel.sleep, self.duration));
        }
        self.sleep.as_mut().unwrap().poll(&mut kernel.sleep, waker)
    }
}

/// Waits for one packet byte from the device stream.
struct PacketReader {
    stream: Option<MousePacketStream>,
    received: Rc<RefCell<Vec<u8>>>,
}

impl Computation for PacketReader {
    fn poll(&mut self, waker: &TaskWaker, kernel: &mut Kernel) -> Poll<()> {
        if self.stream.is_none() {
            self.stream = Some(MousePacketStream::new(&mut kernel.mouse).unwrap());
        }
        match self.stream.as_mut().unwrap().poll_next(&mut kernel.mouse, waker) {
            Poll::Ready(Some(byte)) => {
                self.received.borrow_mut().push(byte);
                Poll::Ready(())
            }
            Poll::Ready(None) => Poll::Ready(()),
            Poll::Pending => Poll::Pending,
        }
    }
}

fn counter() -> Rc<RefCell<u32>> {
    Rc::new(RefCell::new(0))
}

fn spawn_task(kernel: &mut Kernel, computation: Box<dyn Computation>) -> TaskId {
    let task = Task::new(&mut kernel.ids, computation);
    let id = task.id();
    spawn(&mut kernel.spawner, task);
    id
}

#[test]
fn task_ids_increase() {
    let mut kernel = Kernel::new();
    let a = Task::new(&mut kernel.ids, Box::new(Finish { polls: counter() }));
    let b = Task::new(&mut kernel.ids, Box::new(Finish { polls: counter() }));
    assert_eq!(a.id().as_u64(), 0);
    assert_eq!(b.id().as_u64(), 1);
    assert_ne!(a.id(), b.id());
}

#[test]
fn every_spawned_task_polled_once_per_pass() {
    let mut kernel = Kernel::new();
    let mut executor = Executor::new();
    let counts: Vec<Rc<RefCell<u32>>> = (0..5).map(|_| counter()).collect();
    for (i, c) in counts.iter().enumerate() {
        if i % 2 == 0 {
            spawn_task(&mut kernel, Box::new(Finish { polls: c.clone() }));
        } else {
            spawn_task(&mut kernel, Box::new(Forever { polls: c.clone() }));
        }
    }
    assert_eq!(executor.spawn_new_tasks(&mut kernel.spawner), Ok(()));
    assert_eq!(executor.task_count(), 5);
    executor.run_ready_tasks(&mut kernel);
    assert!(executor.is_idle());
    for c in &counts {
        assert_eq!(*c.borrow(), 1);
    }
    assert_eq!(executor.task_count(), 2);
}

#[test]
fn finished_task_leaves_table_and_cache() {
    let mut kernel = Kernel::new();
    let mut executor = Executor::new();
    let polls = counter();
    let id = spawn_task(&mut kernel, Box::new(Finish { polls: polls.clone() }));
    executor.spawn_new_tasks(&mut kernel.spawner).unwrap();
    assert!(executor.has_task(id));
    executor.run_ready_tasks(&mut kernel);
    assert!(!executor.has_task(id));
    assert!(!executor.has_waker(id));
    // A stale wake is a no-op.
    TaskWaker::new(id).wake(&mut executor.task_queue);
    executor.run_ready_tasks(&mut kernel);
    assert_eq!(*polls.borrow(), 1);
    assert!(executor.is_idle());
}

#[test]
fn pending_task_keeps_its_waker() {
    let mut kernel = Kernel::new();
    let mut executor = Executor::new();
    let id = spawn_task(&mut kernel, Box::new(Forever { polls: counter() }));
    executor.spawn_new_tasks(&mut kernel.spawner).unwrap();
    assert!(!executor.has_waker(id));
    executor.run_ready_tasks(&mut kernel);
    assert!(executor.has_task(id));
    assert!(executor.has_waker(id));
}

#[test]
fn duplicate_wakes_poll_finishing_task_once() {
    let mut kernel = Kernel::new();
    let mut executor = Executor::new();
    let polls = counter();
    let id = spawn_task(&mut kernel, Box::new(Finish { polls: polls.clone() }));
    executor.spawn_new_tasks(&mut kernel.spawner).unwrap();
    let waker = TaskWaker::new(id);
    waker.wake_by_ref(&mut executor.task_queue);
    waker.wake_by_ref(&mut executor.task_queue);
    waker.wake(&mut executor.task_queue);
    executor.run_ready_tasks(&mut kernel);
    assert_eq!(*polls.borrow(), 1);
    assert!(executor.is_idle());
}

#[test]
fn duplicate_wakes_poll_pending_task_once_per_pass() {
    let mut kernel = Kernel::new();
    let mut executor = Executor::new();
    let polls = counter();
    let id = spawn_task(&mut kernel, Box::new(Forever { polls: polls.clone() }));
    executor.spawn_new_tasks(&mut kernel.spawner).unwrap();
    let waker = TaskWaker::new(id);
    waker.wake_by_ref(&mut executor.task_queue);
    waker.wake_by_ref(&mut executor.task_queue);
    executor.run_ready_tasks(&mut kernel);
    assert_eq!(*polls.borrow(), 1);
    assert!(executor.is_idle());
    assert!(executor.has_task(id));
    waker.wake_by_ref(&mut executor.task_queue);
    waker.wake(&mut executor.task_queue);
    executor.run_ready_tasks(&mut kernel);
    assert_eq!(*polls.borrow(), 2);
}

#[test]
fn wake_after_idle_check_is_served() {
    let mut kernel = Kernel::new();
    let mut executor = Executor::new();
    let polls = counter();
    let id = spawn_task(&mut kernel, Box::new(Forever { polls: polls.clone() }));
    executor.spawn_new_tasks(&mut kernel.spawner).unwrap();
    executor.run_ready_tasks(&mut kernel);
    assert!(executor.is_idle());
    // An interrupt wakes the task right after the idle check.
    TaskWaker::new(id).wake(&mut executor.task_queue);
    assert!(!executor.is_idle());
    executor.run_ready_tasks(&mut kernel);
    assert_eq!(*polls.borrow(), 2);
}

#[test]
fn duplicate_task_id_is_fatal() {
    let mut kernel = Kernel::new();
    let mut executor = Executor::new();
    let mut ids = ricos_tasks::task::TaskIds::new();
    let a = Task::new(&mut ids, Box::new(Forever { polls: counter() }));
    let mut other_ids = ricos_tasks::task::TaskIds::new();
    let b = Task::new(&mut other_ids, Box::new(Forever { polls: counter() }));
    assert_eq!(a.id(), b.id());
    spawn(&mut kernel.spawner, a);
    spawn(&mut kernel.spawner, b);
    assert_eq!(executor.spawn_new_tasks(&mut kernel.spawner), Err(Fatal::DuplicateTaskId));
}

#[test]
fn ready_queue_overflow_is_fatal() {
    let mut kernel = Kernel::new();
    let mut executor = Executor::new();
    for _ in 0..100 {
        TaskWaker::new(spawn_task(&mut kernel, Box::new(Finish { polls: counter() })))
            .wake(&mut executor.task_queue);
    }
    assert!(executor.task_queue.is_full());
    assert_eq!(executor.spawn_new_tasks(&mut kernel.spawner), Err(Fatal::QueueFull));
}

#[test]
fn spawner_fills_up() {
    let mut kernel = Kernel::new();
    for _ in 0..100 {
        assert!(!kernel.spawner.is_full());
        spawn_task(&mut kernel, Box::new(Finish { polls: counter() }));
    }
    assert!(kernel.spawner.is_full());
}

#[test]
fn three_tasks_scenario() {
    let mut kernel = Kernel::new();
    let mut executor = Executor::new();
    let a_polls = counter();
    let b_polls = counter();
    let received = Rc::new(RefCell::new(Vec::new()));
    spawn_task(&mut kernel, Box::new(Finish { polls: a_polls.clone() }));
    spawn_task(
        &mut kernel,
        Box::new(Sleeper { duration: 5, sleep: None, polls: b_polls.clone() }),
    );
    spawn_task(
        &mut kernel,
        Box::new(PacketReader { stream: None, received: received.clone() }),
    );
    executor.spawn_new_tasks(&mut kernel.spawner).unwrap();
    executor.run_ready_tasks(&mut kernel);
    assert_eq!(executor.task_count(), 2);
    for _ in 0..5 {
        sleep_task_tick(&mut kernel.sleep, 1, &mut executor.task_queue);
    }
    add_mouse_packet(&mut kernel.mouse, 0x2a, &mut executor.task_queue);
    executor.run_ready_tasks(&mut kernel);
    assert_eq!(executor.task_count(), 0);
    assert!(executor.is_idle());
    assert_eq!(*a_polls.borrow(), 1);
    assert_eq!(*b_polls.borrow(), 2);
    assert_eq!(*received.borrow(), vec![0x2a]);
}
