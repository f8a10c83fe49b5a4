//! Laws of the accounting record, stated over the model in [`crate::record`]
//! and proved once and for all. Each law speaks about the spec transitions
//! (`bumped`, `first_marked`, `refreshed`, `with_status`) that the exec
//! operations are proved to perform, so it holds of every run of those
//! operations.

use vstd::prelude::*;

use crate::record::{
    bumped, first_marked, refreshed, with_status, TaskInfoModel, TaskStatus, MAX_SYSCALL_NUM,
};

verus! {

/// The record after `n` recorded invocations of syscall `num`:
/// [`bumped`] applied `n` times. One call of
/// `TaskInfo::plus1_syscall_times` performs exactly one such step.
pub open spec fn bumped_n(v: TaskInfoModel, num: int, n: nat) -> TaskInfoModel
    decreases n,
{
    if n == 0 {
        v
    } else {
        bumped(bumped_n(v, num, (n - 1) as nat), num)
    }
}

/// Monotonic counting: after `n` recorded invocations of syscall `num` the
/// counter at `num` has grown by exactly `n`, every other counter is
/// unchanged, and so are the status and both timing fields.
pub proof fn lemma_monotonic_counting(v: TaskInfoModel, num: int, n: nat)
    requires
        v.wf(),
        0 <= num < MAX_SYSCALL_NUM,
        v.syscall_times[num] + n <= u32::MAX,
    ensures
        bumped_n(v, num, n).wf(),
        bumped_n(v, num, n).syscall_times[num] == v.syscall_times[num] + n,
        forall|j: int|
            0 <= j < MAX_SYSCALL_NUM && j != num
                ==> bumped_n(v, num, n).syscall_times[j] == v.syscall_times[j],
        bumped_n(v, num, n).status == v.status,
        bumped_n(v, num, n).first_run_time == v.first_run_time,
        bumped_n(v, num, n).time == v.time,
    decreases n,
{
    if n > 0 {
        lemma_monotonic_counting(v, num, (n - 1) as nat);
    }
}

/// Write-once timestamp: on a record not yet stamped, a first dispatch stamp
/// `t1` followed by any second stamp `t2` leaves `first_run_time == t1`.
///
/// `t1` must be distinguishable from the "not yet scheduled" sentinel `0`; a
/// stamp of `0` leaves the sentinel in place and a later stamp still takes.
pub proof fn lemma_write_once_timestamp(v: TaskInfoModel, t1: usize, t2: usize)
    requires
        v.first_run_time == 0,
        t1 != 0,
    ensures
        first_marked(first_marked(v, t1), t2).first_run_time == t1,
{
}

/// Elapsed clamp: a runtime refresh with a clock reading before the first
/// dispatch stamp yields `time == 0`, never a wrapped-around value.
pub proof fn lemma_elapsed_clamp(v: TaskInfoModel, now_ms: usize)
    requires
        now_ms < v.first_run_time,
    ensures
        refreshed(v, now_ms).time == 0,
{
}

/// Exit irreversibility, the record-level part: no accounting operation
/// touches the status, so a record that has reached `Exited` stays `Exited`
/// under every recorded syscall, dispatch stamp and runtime refresh. That the
/// system issues no such operation for a retired task at all is the
/// scheduler's guarantee, outside this crate.
pub proof fn lemma_exited_stays_exited(v: TaskInfoModel, num: int, t_ms: usize, now_ms: usize)
    requires
        v.status == TaskStatus::Exited,
    ensures
        bumped(v, num).status == TaskStatus::Exited,
        first_marked(v, t_ms).status == TaskStatus::Exited,
        refreshed(v, now_ms).status == TaskStatus::Exited,
{
}

/// `Exited` enters a record only through an explicit status transition to
/// `Exited` — `sys_exit` is the one operation of this layer that performs
/// it: the other transitions preserve any non-`Exited` status.
pub proof fn lemma_only_exit_retires(v: TaskInfoModel, num: int, t_ms: usize, now_ms: usize, status_after: TaskStatus)
    requires
        v.status != TaskStatus::Exited,
        status_after != TaskStatus::Exited,
    ensures
        bumped(v, num).status != TaskStatus::Exited,
        first_marked(v, t_ms).status != TaskStatus::Exited,
        refreshed(v, now_ms).status != TaskStatus::Exited,
        with_status(v, status_after).status != TaskStatus::Exited,
{
}

} // verus!
