use task_syscalls::manager::TaskManager;
use task_syscalls::record::{TaskInfo, TaskStatus, TimeVal, MAX_SYSCALL_NUM};
use task_syscalls::syscalls::{sys_exit, sys_get_time, sys_task_info, sys_yield};

#[test]
fn new_uninit_starts_blank() {
    let rec = TaskInfo::new_uninit();
    assert_eq!(rec.status, TaskStatus::UnInit);
    assert_eq!(rec.syscall_times.len(), MAX_SYSCALL_NUM);
    for c in &rec.syscall_times {
        assert_eq!(*c, 0);
    }
    assert_eq!(rec.first_run_time, 0);
    assert_eq!(rec.time, 0);
}

#[test]
fn counting_is_per_index() {
    let mut rec = TaskInfo::new_uninit();
    rec.plus1_syscall_times(5);
    rec.plus1_syscall_times(5);
    rec.plus1_syscall_times(5);
    rec.plus1_syscall_times(4);
    assert_eq!(rec.syscall_times[5], 3);
    assert_eq!(rec.syscall_times[4], 1);
    for (i, c) in rec.syscall_times.iter().enumerate() {
        if i != 4 && i != 5 {
            assert_eq!(*c, 0);
        }
    }
    assert_eq!(rec.status, TaskStatus::UnInit);
    assert_eq!(rec.first_run_time, 0);
    assert_eq!(rec.time, 0);
}

#[test]
fn first_stamp_is_write_once() {
    let mut rec = TaskInfo::new_uninit();
    rec.set_runtime(100);
    rec.set_runtime(250);
    assert_eq!(rec.first_run_time, 100);
}

#[test]
fn zero_stamp_leaves_sentinel() {
    let mut rec = TaskInfo::new_uninit();
    rec.set_runtime(0);
    assert_eq!(rec.first_run_time, 0);
    rec.set_runtime(7);
    assert_eq!(rec.first_run_time, 7);
}

#[test]
fn elapsed_clamps_to_zero() {
    let mut rec = TaskInfo::new_uninit();
    rec.set_runtime(1000);
    let elapsed = rec.update_get_runtime(500);
    assert_eq!(elapsed, 0);
    assert_eq!(rec.time, 0);
}

#[test]
fn elapsed_measures_distance() {
    let mut rec = TaskInfo::new_uninit();
    rec.set_runtime(1000);
    let elapsed = rec.update_get_runtime(1500);
    assert_eq!(elapsed, 500);
    assert_eq!(rec.time, 500);
}

#[test]
fn snapshot_is_verbatim() {
    let mut rec = TaskInfo::new_uninit();
    rec.set_runtime(42);
    rec.plus1_syscall_times(9);
    let copy = rec.snapshot();
    assert_eq!(copy.status, rec.status);
    assert_eq!(copy.syscall_times, rec.syscall_times);
    assert_eq!(copy.first_run_time, 42);
    assert_eq!(copy.time, rec.time);
}

#[test]
fn empty_manager_has_no_current_task() {
    let mgr = TaskManager::new();
    assert_eq!(mgr.task_count(), 0);
    assert!(mgr.current_index().is_none());
    assert!(mgr.get_task_info().is_none());
}

#[test]
fn task_info_reports_refreshed_record() {
    let mut mgr = TaskManager::new();
    let mut rec = TaskInfo::new_uninit();
    rec.set_runtime(1000);
    rec.plus1_syscall_times(5);
    rec.plus1_syscall_times(5);
    rec.plus1_syscall_times(5);
    mgr.add_task(rec);
    mgr.bind_current(0);
    let mut out = TaskInfo::new_uninit();
    let r = sys_task_info(&mut mgr, &mut out, 1500);
    assert_eq!(r, 0);
    assert_eq!(out.time, 500);
    assert_eq!(out.first_run_time, 1000);
    assert_eq!(out.syscall_times[5], 3);
    for (i, c) in out.syscall_times.iter().enumerate() {
        if i != 5 {
            assert_eq!(*c, 0);
        }
    }
}

#[test]
fn task_info_absence_leaves_buffer() {
    let mut mgr = TaskManager::new();
    let mut rec = TaskInfo::new_uninit();
    rec.set_runtime(30);
    mgr.add_task(rec);
    // the task is admitted but never bound as current
    let mut out = TaskInfo {
        status: TaskStatus::Ready,
        syscall_times: vec![7; MAX_SYSCALL_NUM],
        first_run_time: 777,
        time: 888,
    };
    let r = sys_task_info(&mut mgr, &mut out, 1500);
    assert_eq!(r, -1);
    assert_eq!(out.status, TaskStatus::Ready);
    for c in &out.syscall_times {
        assert_eq!(*c, 7);
    }
    assert_eq!(out.first_run_time, 777);
    assert_eq!(out.time, 888);
}

#[test]
fn get_time_splits_microseconds() {
    let mut tv = TimeVal { sec: 9, usec: 9 };
    let r = sys_get_time(&mut tv, 1_234_567, 0);
    assert_eq!(r, 0);
    assert_eq!(tv.sec, 1);
    assert_eq!(tv.usec, 234_567);
}

#[test]
fn get_time_at_second_boundary() {
    let mut tv = TimeVal { sec: 9, usec: 9 };
    assert_eq!(sys_get_time(&mut tv, 999_999, 0), 0);
    assert_eq!(tv, TimeVal { sec: 0, usec: 999_999 });
    assert_eq!(sys_get_time(&mut tv, 1_000_000, 0), 0);
    assert_eq!(tv, TimeVal { sec: 1, usec: 0 });
    assert_eq!(sys_get_time(&mut tv, 0, 0), 0);
    assert_eq!(tv, TimeVal { sec: 0, usec: 0 });
}

#[test]
fn exit_retires_current_task() {
    let mut mgr = TaskManager::new();
    let mut rec = TaskInfo::new_uninit();
    rec.set_runtime(10);
    mgr.add_task(rec);
    mgr.bind_current(0);
    mgr.set_current_status(TaskStatus::Running);
    sys_exit(&mut mgr, 42);
    let snap = mgr.get_task_info().unwrap();
    assert_eq!(snap.status, TaskStatus::Exited);
    assert_eq!(snap.first_run_time, 10);
}

#[test]
fn yield_moves_running_to_ready() {
    let mut mgr = TaskManager::new();
    mgr.add_task(TaskInfo::new_uninit());
    mgr.bind_current(0);
    mgr.set_current_status(TaskStatus::Running);
    let r = sys_yield(&mut mgr);
    assert_eq!(r, 0);
    let snap = mgr.get_task_info().unwrap();
    assert_eq!(snap.status, TaskStatus::Ready);
}

#[test]
fn manager_records_syscalls_for_current_only() {
    let mut mgr = TaskManager::new();
    mgr.add_task(TaskInfo::new_uninit());
    mgr.add_task(TaskInfo::new_uninit());
    mgr.bind_current(1);
    mgr.record_syscall_current(64);
    mgr.record_syscall_current(64);
    let snap = mgr.get_task_info().unwrap();
    assert_eq!(snap.syscall_times[64], 2);
    mgr.bind_current(0);
    let other = mgr.get_task_info().unwrap();
    assert_eq!(other.syscall_times[64], 0);
}

#[test]
fn manager_ops_without_current_are_noops() {
    let mut mgr = TaskManager::new();
    mgr.add_task(TaskInfo::new_uninit());
    // nothing is bound, so nothing may change
    mgr.record_syscall_current(3);
    mgr.mark_current_scheduled(11);
    mgr.update_task_info_runtime(99);
    mgr.set_current_status(TaskStatus::Running);
    mgr.bind_current(0);
    let snap = mgr.get_task_info().unwrap();
    assert_eq!(snap.status, TaskStatus::UnInit);
    assert_eq!(snap.syscall_times[3], 0);
    assert_eq!(snap.first_run_time, 0);
    assert_eq!(snap.time, 0);
}

#[test]
fn mark_current_scheduled_is_write_once() {
    let mut mgr = TaskManager::new();
    mgr.add_task(TaskInfo::new_uninit());
    mgr.bind_current(0);
    mgr.mark_current_scheduled(120);
    mgr.mark_current_scheduled(340);
    let snap = mgr.get_task_info().unwrap();
    assert_eq!(snap.first_run_time, 120);
}

#[test]
fn task_info_refreshes_before_fetch() {
    let mut mgr = TaskManager::new();
    let mut rec = TaskInfo::new_uninit();
    rec.set_runtime(100);
    mgr.add_task(rec);
    mgr.bind_current(0);
    let mut out = TaskInfo::new_uninit();
    assert_eq!(sys_task_info(&mut mgr, &mut out, 160), 0);
    assert_eq!(out.time, 60);
    // a later call observes the newer clock, not the stored value
    assert_eq!(sys_task_info(&mut mgr, &mut out, 400), 0);
    assert_eq!(out.time, 300);
}
