//! Task lifecycle and accounting layer of a small multitasking kernel.
//!
//! The crate has three parts, in dependency order:
//! - [`record`]: the per-task accounting record (lifecycle status, a
//!   histogram of syscall invocations, and timing fields) together with the
//!   mathematical model of every operation on it;
//! - [`manager`]: the task registry that owns one record per admitted task
//!   and the "current task" pointer, exposing narrow operations on the
//!   current task's record;
//! - [`syscalls`]: the four process syscalls (`sys_exit`, `sys_yield`,
//!   `sys_get_time`, `sys_task_info`) that read and write the registry on
//!   behalf of the currently running task.
//!
//! The kernel around this crate supplies the clock, the trap dispatcher and
//! the scheduler: clock readings enter as plain millisecond or microsecond
//! arguments, and the syscalls write their results into typed destinations
//! that the trust-boundary layer has already validated.

pub mod laws;
pub mod manager;
pub mod record;
pub mod syscalls;
