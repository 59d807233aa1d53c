//! Cooperative kernel threads over an injected process table.
//!
//! `process` holds the process table that threads are scheduled from,
//! `heap` the cells that carry a thread's result to the thread that joins it,
//! `thread` the std-like thread interface, `laws` what holds of the thread
//! operations together, and `syscall` the requests that user programs hand
//! to the kernel's trap.

pub mod heap;
pub mod laws;
pub mod process;
pub mod syscall;
pub mod thread;

pub use heap::Heap;
pub use process::{Proc, Processor, Snapshot, Status, Wakeup};
pub use thread::{
    current, dur_to_ticks, park, sleep, spawn, yield_now, Context, JoinError, JoinHandle, Span,
    Thread,
};
pub use syscall::{
    sys_call, sys_close, sys_dup, sys_exec, sys_exit, sys_fork, sys_get_time, sys_getpid,
    sys_kill, sys_lab6_set_priority, sys_open, sys_putc, sys_read, sys_sleep, sys_wait,
    sys_write, sys_yield, Syscall, SyscallId,
};
