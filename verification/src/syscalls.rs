//! The process syscall layer: the four entry points a running task uses to
//! end itself, yield its turn, query wall-clock time, and query its own
//! accounting data.
//!
//! Every operation acts on the current task that the registry resolves; none
//! takes a task identifier. The trap dispatcher around this crate decodes the
//! trap, validates user-supplied output addresses, and passes the results of
//! `sys_get_time` and `sys_task_info` back across the trust boundary; the
//! scheduler performs the context switches that `sys_exit` and `sys_yield`
//! request.

use vstd::prelude::*;

use crate::manager::TaskManager;
use crate::record::{refreshed, with_status, TaskInfo, TaskStatus, TimeVal};

verus! {

/// Retires the calling task: its record moves to `Exited`, terminally.
///
/// The caller must then invoke the scheduler's "retire current, dispatch
/// next" operation, which never returns control to the exited task; that
/// invocation, and logging of `exit_code`, lie outside this crate. The exit
/// code itself is an observability side effect only and is not recorded.
pub fn sys_exit(mgr: &mut TaskManager, _exit_code: i32)
    requires
        old(mgr).wf(),
    ensures
        final(mgr).wf(),
        final(mgr).current_ix() == old(mgr).current_ix(),
        match old(mgr).current_ix() {
            None => *final(mgr) == *old(mgr),
            Some(i) => final(mgr).records() == old(mgr).records().update(
                i as int,
                with_status(old(mgr).records()[i as int], TaskStatus::Exited),
            ),
        },
{
    mgr.set_current_status(TaskStatus::Exited);
}

/// Cooperative preemption point: the calling task's record moves to `Ready`
/// and `0` is returned.
///
/// The caller must then invoke the scheduler's "suspend current, dispatch
/// next" operation; the task resumes here with the returned `0` once it is
/// dispatched again. That invocation lies outside this crate.
pub fn sys_yield(mgr: &mut TaskManager) -> (r: isize)
    requires
        old(mgr).wf(),
    ensures
        r == 0,
        final(mgr).wf(),
        final(mgr).current_ix() == old(mgr).current_ix(),
        match old(mgr).current_ix() {
            None => *final(mgr) == *old(mgr),
            Some(i) => final(mgr).records() == old(mgr).records().update(
                i as int,
                with_status(old(mgr).records()[i as int], TaskStatus::Ready),
            ),
        },
{
    mgr.set_current_status(TaskStatus::Ready);
    0
}

/// Splits the clock reading `us` (microseconds since boot) into whole
/// seconds and leftover microseconds, writes the pair to `ts`, and returns
/// `0`; there is no failure path.
///
/// `ts` stands for a destination the trust-boundary layer has already
/// validated as writable; `_tz` is the reserved argument of the syscall
/// shape, accepted and ignored.
pub fn sys_get_time(ts: &mut TimeVal, us: usize, _tz: usize) -> (r: isize)
    ensures
        r == 0,
        final(ts).sec == us / 1_000_000,
        final(ts).usec == us % 1_000_000,
{
    *ts = TimeVal { sec: us / 1_000_000, usec: us % 1_000_000 };
    0
}

/// Reports the current task's accounting record: refreshes its elapsed
/// runtime as of `now_ms`, then copies the refreshed record verbatim into
/// `ti` and returns `0`. With no task bound it returns `-1` and leaves both
/// the registry and `ti` untouched.
///
/// The refresh happens before the fetch, so the copy is stale by at most the
/// distance between `now_ms` and the true clock. `ti` stands for a
/// destination the trust-boundary layer has already validated as writable.
pub fn sys_task_info(mgr: &mut TaskManager, ti: &mut TaskInfo, now_ms: usize) -> (r: isize)
    requires
        old(mgr).wf(),
    ensures
        final(mgr).wf(),
        final(mgr).current_ix() == old(mgr).current_ix(),
        match old(mgr).current_ix() {
            None => {
                &&& r == -1
                &&& *final(mgr) == *old(mgr)
                &&& *final(ti) == *old(ti)
            },
            Some(i) => {
                &&& r == 0
                &&& final(mgr).records() == old(mgr).records().update(
                    i as int,
                    refreshed(old(mgr).records()[i as int], now_ms),
                )
                &&& final(ti)@ == refreshed(old(mgr).records()[i as int], now_ms)
            },
        },
{
    mgr.update_task_info_runtime(now_ms);
    match mgr.get_task_info() {
        None => -1,
        Some(rec) => {
            *ti = rec;
            0
        },
    }
}

} // verus!
