//! Cooperative task scheduling core for a single-CPU kernel.
//!
//! Tasks are explicit poll-based state machines. An [`executor::Executor`]
//! adopts tasks handed over by a [`spawner::Spawner`], polls those whose
//! identities stand on its ready-queue, and reports when it is idle.
//! Interrupt handlers feed the scheduler through [`sleep::SleepTimer`] and
//! [`mouse::MousePacketQueue`], waking suspended tasks with a
//! [`waker::TaskWaker`].
pub mod executor;
pub mod kernel;
pub mod mouse;
pub mod qemu;
pub mod queue;
pub mod sleep;
pub mod spawner;
pub mod task;
pub mod time;
pub mod vga_buffer;
pub mod waker;
