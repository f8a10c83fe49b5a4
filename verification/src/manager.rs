//! The task registry: one accounting record per admitted task, plus the
//! "current task" pointer that the trap path resolves syscalls against.
//!
//! The registry is the single owner of every record; everything else goes
//! through the narrow operations here, which read or mutate exactly one
//! record at a time. Serializing concurrent trap entries around one registry
//! value (a lock or an equivalent single-writer discipline) is the embedding
//! kernel's duty, not this module's.

use vstd::prelude::*;

use crate::record::{
    bumped, first_marked, refreshed, with_status, TaskInfo, TaskInfoModel, TaskStatus,
    MAX_SYSCALL_NUM,
};

verus! {

/// The registry of accounting records with the current-task pointer.
pub struct TaskManager {
    tasks: Vec<TaskInfo>,
    current: Option<usize>,
}

impl TaskManager {
    /// The registry's contents: one record model per admitted task, in
    /// admission order.
    pub closed spec fn records(self) -> Seq<TaskInfoModel> {
        self.tasks@.map_values(|t: TaskInfo| t@)
    }

    /// Index of the record bound as the current task, if one is bound.
    pub closed spec fn current_ix(self) -> Option<usize> {
        self.current
    }

    /// The current-task pointer stays inside the registry and every record
    /// is well formed.
    pub open spec fn wf(self) -> bool {
        &&& (self.current_ix() matches Some(i) ==> i < self.records().len())
        &&& forall|k: int|
            0 <= k < self.records().len() ==> (#[trigger] self.records()[k]).wf()
    }

    /// Returns an empty registry with no current task bound.
    pub fn new() -> (r: TaskManager)
        ensures
            r.records() == Seq::<TaskInfoModel>::empty(),
            r.current_ix() is None,
            r.wf(),
    {
        let r = TaskManager { tasks: Vec::new(), current: None };
        proof {
            assert(r.records() =~= Seq::<TaskInfoModel>::empty());
        }
        r
    }

    /// Number of admitted tasks.
    pub fn task_count(&self) -> (n: usize)
        ensures
            n == self.records().len(),
    {
        self.tasks.len()
    }

    /// Admits a task: appends its record to the registry. The current-task
    /// pointer is untouched.
    pub fn add_task(&mut self, rec: TaskInfo)
        ensures
            final(self).records() == old(self).records().push(rec@),
            final(self).current_ix() == old(self).current_ix(),
    {
        self.tasks.push(rec);
        proof {
            assert(self.records() =~= old(self).records().push(rec@));
        }
    }

    /// Binds the task at `ix` as the current task.
    pub fn bind_current(&mut self, ix: usize)
        requires
            ix < old(self).records().len(),
        ensures
            final(self).records() == old(self).records(),
            final(self).current_ix() == Some(ix),
    {
        self.current = Some(ix);
    }

    /// Unbinds the current task, leaving no task bound.
    pub fn clear_current(&mut self)
        ensures
            final(self).records() == old(self).records(),
            final(self).current_ix() is None,
    {
        self.current = None;
    }

    /// Returns the index of the current task, if one is bound.
    pub fn current_index(&self) -> (r: Option<usize>)
        ensures
            r == self.current_ix(),
    {
        self.current
    }

    /// Moves the current task's record to `status_after`. With no task bound
    /// the registry is untouched.
    pub fn set_current_status(&mut self, status_after: TaskStatus)
        requires
            old(self).wf(),
        ensures
            final(self).wf(),
            final(self).current_ix() == old(self).current_ix(),
            match old(self).current_ix() {
                None => *final(self) == *old(self),
                Some(i) => final(self).records() == old(self).records().update(
                    i as int,
                    with_status(old(self).records()[i as int], status_after),
                ),
            },
    {
        match self.current {
            None => {},
            Some(i) => {
                let rec = &mut self.tasks[i];
                rec.status = status_after;
                proof {
                    assert(rec@ =~= with_status(old(self).records()[i as int], status_after));
                    assert(self.records() =~= old(self).records().update(
                        i as int,
                        with_status(old(self).records()[i as int], status_after),
                    ));
                }
            },
        }
    }

    /// Records one invocation of syscall `syscall_num` against the current
    /// task, on behalf of the trap dispatcher. With no task bound the
    /// registry is untouched.
    pub fn record_syscall_current(&mut self, syscall_num: usize)
        requires
            old(self).wf(),
            syscall_num < MAX_SYSCALL_NUM,
            old(self).current_ix() matches Some(i)
                ==> old(self).records()[i as int].syscall_times[syscall_num as int] < u32::MAX,
        ensures
            final(self).wf(),
            final(self).current_ix() == old(self).current_ix(),
            match old(self).current_ix() {
                None => *final(self) == *old(self),
                Some(i) => final(self).records() == old(self).records().update(
                    i as int,
                    bumped(old(self).records()[i as int], syscall_num as int),
                ),
            },
    {
        match self.current {
            None => {},
            Some(i) => {
                let rec = &mut self.tasks[i];
                rec.plus1_syscall_times(syscall_num);
                proof {
                    assert(self.records() =~= old(self).records().update(
                        i as int,
                        bumped(old(self).records()[i as int], syscall_num as int),
                    ));
                }
            },
        }
    }

    /// Stamps the current task's first dispatch at `now_ms`; a later stamp is
    /// a no-op on the record. With no task bound the registry is untouched.
    pub fn mark_current_scheduled(&mut self, now_ms: usize)
        requires
            old(self).wf(),
        ensures
            final(self).wf(),
            final(self).current_ix() == old(self).current_ix(),
            match old(self).current_ix() {
                None => *final(self) == *old(self),
                Some(i) => final(self).records() == old(self).records().update(
                    i as int,
                    first_marked(old(self).records()[i as int], now_ms),
                ),
            },
    {
        match self.current {
            None => {},
            Some(i) => {
                let rec = &mut self.tasks[i];
                rec.set_runtime(now_ms);
                proof {
                    assert(self.records() =~= old(self).records().update(
                        i as int,
                        first_marked(old(self).records()[i as int], now_ms),
                    ));
                }
            },
        }
    }

    /// Refreshes the current task's elapsed runtime as of `now_ms`. With no
    /// task bound the registry is untouched.
    pub fn update_task_info_runtime(&mut self, now_ms: usize)
        requires
            old(self).wf(),
        ensures
            final(self).wf(),
            final(self).current_ix() == old(self).current_ix(),
            match old(self).current_ix() {
                None => *final(self) == *old(self),
                Some(i) => final(self).records() == old(self).records().update(
                    i as int,
                    refreshed(old(self).records()[i as int], now_ms),
                ),
            },
    {
        match self.current {
            None => {},
            Some(i) => {
                let rec = &mut self.tasks[i];
                rec.update_get_runtime(now_ms);
                proof {
                    assert(self.records() =~= old(self).records().update(
                        i as int,
                        refreshed(old(self).records()[i as int], now_ms),
                    ));
                }
            },
        }
    }

    /// Fetches a verbatim copy of the current task's record; reports absence
    /// exactly when no task is bound.
    pub fn get_task_info(&self) -> (r: Option<TaskInfo>)
        requires
            self.wf(),
        ensures
            r is Some <==> self.current_ix() is Some,
            r matches Some(rec) ==> {
                &&& self.current_ix() matches Some(i)
                &&& rec@ == self.records()[i as int]
            },
    {
        match self.current {
            None => None,
            Some(i) => Some(self.tasks[i].snapshot()),
        }
    }
}

} // verus!
