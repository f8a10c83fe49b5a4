//! The per-task accounting record and the mathematical model of every
//! operation on it.

use vstd::prelude::*;

verus! {

/// Upper bound on the syscall-number space. The trap dispatcher and the
/// accounting record share this bound: every record carries exactly this
/// many invocation counters, and only numbers below it may ever be recorded.
pub const MAX_SYSCALL_NUM: usize = 500;

/// A wall-clock reading split into whole seconds and the microseconds left
/// over. Produced fresh on every time query and handed back to user code;
/// never stored.
#[derive(Clone, Copy, Debug, PartialEq, Eq, Structural)]
pub struct TimeVal {
    /// Whole seconds.
    pub sec: usize,
    /// Microseconds below one second.
    pub usec: usize,
}

/// Lifecycle states of a task. A task is admitted as `UnInit`, moves between
/// `Ready` and `Running` under the scheduler, and ends in `Exited`, which is
/// terminal.
#[derive(Clone, Copy, Debug, PartialEq, Eq, Structural)]
pub enum TaskStatus {
    /// Admitted to the registry but never made ready.
    UnInit,
    /// Runnable, waiting for a processor.
    Ready,
    /// Currently dispatched on the processor.
    Running,
    /// Retired by `sys_exit`; never leaves this state.
    Exited,
}

/// Per-task accounting record: lifecycle status, one invocation counter per
/// possible syscall number, and timing fields in milliseconds since boot.
#[derive(Debug)]
pub struct TaskInfo {
    /// Where the task stands in its lifecycle.
    pub status: TaskStatus,
    /// Invocation counter per syscall number; always exactly
    /// `MAX_SYSCALL_NUM` entries.
    pub syscall_times: Vec<u32>,
    /// Millisecond timestamp of the task's first dispatch; `0` is the
    /// sentinel for "not yet scheduled".
    pub first_run_time: usize,
    /// Milliseconds elapsed since the first dispatch, as of the latest
    /// refresh.
    pub time: usize,
}

/// Mathematical model of an accounting record: the same fields, with the
/// counter histogram as a sequence.
#[verifier::ext_equal]
pub ghost struct TaskInfoModel {
    pub status: TaskStatus,
    pub syscall_times: Seq<u32>,
    pub first_run_time: usize,
    pub time: usize,
}

impl View for TaskInfo {
    type V = TaskInfoModel;

    open spec fn view(&self) -> TaskInfoModel {
        TaskInfoModel {
            status: self.status,
            syscall_times: self.syscall_times@,
            first_run_time: self.first_run_time,
            time: self.time,
        }
    }
}

impl TaskInfoModel {
    /// A record is well formed when it carries one counter per possible
    /// syscall number.
    pub open spec fn wf(self) -> bool {
        self.syscall_times.len() == MAX_SYSCALL_NUM
    }
}

/// The record of a task that was never scheduled: uninitialized status,
/// every counter zero, both timing fields zero.
pub open spec fn uninit_record() -> TaskInfoModel {
    TaskInfoModel {
        status: TaskStatus::UnInit,
        syscall_times: Seq::new(MAX_SYSCALL_NUM as nat, |i: int| 0u32),
        first_run_time: 0,
        time: 0,
    }
}

/// One recorded invocation of syscall `num`: that counter goes up by one and
/// nothing else changes.
pub open spec fn bumped(v: TaskInfoModel, num: int) -> TaskInfoModel {
    TaskInfoModel {
        syscall_times: v.syscall_times.update(num, (v.syscall_times[num] + 1) as u32),
        ..v
    }
}

/// A dispatch stamp at `now_ms`: the first stamp sets `first_run_time`, every
/// later one is a no-op, so the field is write-once.
pub open spec fn first_marked(v: TaskInfoModel, now_ms: usize) -> TaskInfoModel {
    TaskInfoModel {
        first_run_time: if v.first_run_time == 0 {
            now_ms
        } else {
            v.first_run_time
        },
        ..v
    }
}

/// Elapsed runtime at `now_ms`: the distance from the first dispatch,
/// clamped to zero so that a clock reading before `first_run_time` can never
/// wrap around.
pub open spec fn elapsed_at(v: TaskInfoModel, now_ms: usize) -> usize {
    if now_ms >= v.first_run_time {
        (now_ms - v.first_run_time) as usize
    } else {
        0
    }
}

/// A runtime refresh at `now_ms`: `time` becomes the clamped elapsed
/// runtime and nothing else changes.
pub open spec fn refreshed(v: TaskInfoModel, now_ms: usize) -> TaskInfoModel {
    TaskInfoModel { time: elapsed_at(v, now_ms), ..v }
}

/// A status transition: `status` becomes `status_after` and nothing else
/// changes.
pub open spec fn with_status(v: TaskInfoModel, status_after: TaskStatus) -> TaskInfoModel {
    TaskInfoModel { status: status_after, ..v }
}

impl TaskInfo {
    /// Returns the record of a task that was never scheduled.
    pub fn new_uninit() -> (r: TaskInfo)
        ensures
            r@ == uninit_record(),
    {
        let mut counts: Vec<u32> = Vec::new();
        let mut k: usize = 0;
        while k < MAX_SYSCALL_NUM
            invariant
                k <= MAX_SYSCALL_NUM,
                counts@.len() == k,
                forall|j: int| 0 <= j < k ==> counts@[j] == 0u32,
            decreases MAX_SYSCALL_NUM - k,
        {
            counts.push(0);
            k += 1;
        }
        let r = TaskInfo { status: TaskStatus::UnInit, syscall_times: counts, first_run_time: 0, time: 0 };
        proof {
            assert(r@.syscall_times =~= uninit_record().syscall_times);
            assert(r@ =~= uninit_record());
        }
        r
    }

    /// Records one invocation of syscall `syscall_num`.
    ///
    /// An out-of-range number is a contract breach of the dispatch path, not
    /// a reportable error, so it is excluded here rather than handled; the
    /// counter bound keeps the increment from overflowing.
    pub fn plus1_syscall_times(&mut self, syscall_num: usize)
        requires
            old(self)@.wf(),
            syscall_num < MAX_SYSCALL_NUM,
            old(self)@.syscall_times[syscall_num as int] < u32::MAX,
        ensures
            final(self)@ == bumped(old(self)@, syscall_num as int),
    {
        let c = self.syscall_times[syscall_num];
        self.syscall_times[syscall_num] = c + 1;
        proof {
            assert(self@ =~= bumped(old(self)@, syscall_num as int));
        }
    }

    /// Stamps the first dispatch at `now_ms`: sets `first_run_time` only when
    /// it still holds the `0` sentinel, so the stamp is write-once and the
    /// scheduler may safely apply it on every dispatch.
    pub fn set_runtime(&mut self, now_ms: usize)
        ensures
            final(self)@ == first_marked(old(self)@, now_ms),
    {
        if self.first_run_time == 0 {
            self.first_run_time = now_ms;
        }
        proof {
            assert(self@ =~= first_marked(old(self)@, now_ms));
        }
    }

    /// Recomputes and stores the elapsed runtime as of `now_ms`, clamped to
    /// zero when the reading lies before the first dispatch, and returns it.
    /// The result is meaningful only once `first_run_time` is set.
    pub fn update_get_runtime(&mut self, now_ms: usize) -> (elapsed: usize)
        ensures
            final(self)@ == refreshed(old(self)@, now_ms),
            elapsed == elapsed_at(old(self)@, now_ms),
    {
        if now_ms >= self.first_run_time {
            self.time = now_ms - self.first_run_time;
        } else {
            self.time = 0;
        }
        proof {
            assert(self@ =~= refreshed(old(self)@, now_ms));
        }
        self.time
    }

    /// Returns a verbatim copy of the record.
    pub fn snapshot(&self) -> (r: TaskInfo)
        ensures
            r@ == self@,
    {
        let counts = self.syscall_times.clone();
        proof {
            assert(counts@ =~= self.syscall_times@);
        }
        let r = TaskInfo {
            status: self.status,
            syscall_times: counts,
            first_run_time: self.first_run_time,
            time: self.time,
        };
        proof {
            assert(r@ =~= self@);
        }
        r
    }
}

} // verus!
