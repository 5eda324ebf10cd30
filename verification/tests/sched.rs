//! The round-robin scheduler: scan order, suspension, exit, and the
//! exactly-one-running invariant.

use toyos::task::TaskStatus;
use toyos::task_manager::TaskManager;

fn sched_names(n: usize) -> Vec<Vec<u8>> {
    (0..n).map(|i| format!("task{}", i).into_bytes()).collect()
}

/// Poke a task's status the way the kernel would: the real status and its
/// cached mirror together.
fn set_status(mgr: &mut TaskManager, task: usize, status: TaskStatus) {
    mgr.inner.tasks[task].task_status = status;
    mgr.inner.infos[task].status = if status == TaskStatus::Running {
        TaskStatus::Ready
    } else {
        status
    };
}

fn running_count(mgr: &TaskManager) -> usize {
    mgr.inner
        .tasks
        .iter()
        .filter(|t| t.task_status == TaskStatus::Running)
        .count()
}

#[test]
fn scan_picks_next_ready_in_cyclic_order() {
    let mut mgr = TaskManager::init(&sched_names(5));
    mgr.run_first_task(0);
    // statuses: 0 Running, the rest Ready; the scan starts after current
    assert_eq!(mgr.find_next_task(), Some(1));
    set_status(&mut mgr, 1, TaskStatus::Exited);
    assert_eq!(mgr.find_next_task(), Some(2));
    set_status(&mut mgr, 2, TaskStatus::Exited);
    set_status(&mut mgr, 3, TaskStatus::Exited);
    assert_eq!(mgr.find_next_task(), Some(4));
    set_status(&mut mgr, 4, TaskStatus::Exited);
    // only the suspended current task itself would be ready after wrap-around
    assert_eq!(mgr.find_next_task(), None);
    set_status(&mut mgr, 0, TaskStatus::Ready);
    assert_eq!(mgr.find_next_task(), Some(0));
}

#[test]
fn scan_wraps_around() {
    let mut mgr = TaskManager::init(&sched_names(4));
    mgr.inner.current_task = 2;
    set_status(&mut mgr, 3, TaskStatus::Exited);
    // from 2, the cyclic order is 3, 0, 1, 2
    assert_eq!(mgr.find_next_task(), Some(0));
}

#[test]
fn round_robin_visits_everyone_once() {
    // iterating the scan from any start visits every ready task exactly once
    // per sweep, in increasing cyclic index order
    let mut mgr = TaskManager::init(&sched_names(6));
    set_status(&mut mgr, 1, TaskStatus::Exited);
    set_status(&mut mgr, 4, TaskStatus::Exited);
    // ready: {0, 2, 3, 5}, cursor 2: expect 3, 5, 0, 2, then 3 again
    mgr.inner.current_task = 2;
    let mut visits = Vec::new();
    let mut from = 2;
    for _ in 0..5 {
        mgr.inner.current_task = from;
        let next = mgr.find_next_task().expect("a task is ready");
        visits.push(next);
        from = next;
    }
    assert_eq!(visits, vec![3, 5, 0, 2, 3]);
}

#[test]
fn suspension_cycles_to_the_back() {
    let mut mgr = TaskManager::init(&sched_names(3));
    mgr.run_first_task(0);
    let op = mgr.suspend_current_and_run_next();
    assert_eq!(op.save, 0);
    assert_eq!(op.load, 1);
    assert_eq!(mgr.get_current_task(), 1);
    assert_eq!(mgr.inner.tasks[0].task_status, TaskStatus::Ready);
    assert_eq!(mgr.inner.tasks[1].task_status, TaskStatus::Running);
    assert_eq!(running_count(&mgr), 1);
}

#[test]
fn sole_task_resumes_itself() {
    let mut mgr = TaskManager::init(&sched_names(1));
    mgr.run_first_task(0);
    let op = mgr.suspend_current_and_run_next();
    assert_eq!(op.save, 0);
    assert_eq!(op.load, 0);
    assert_eq!(mgr.inner.tasks[0].task_status, TaskStatus::Running);
}

#[test]
fn exit_schedules_the_next_ready() {
    let mut mgr = TaskManager::init(&sched_names(2));
    mgr.run_first_task(0);
    let op = mgr.exit_current_and_run_next().expect("task 1 is ready");
    assert_eq!((op.save, op.load), (0, 1));
    assert_eq!(mgr.inner.tasks[0].task_status, TaskStatus::Exited);
    assert_eq!(mgr.inner.tasks[1].task_status, TaskStatus::Running);
    assert_eq!(mgr.inner.infos[0].status, TaskStatus::Exited);
    assert_eq!(running_count(&mgr), 1);
}

#[test]
fn last_exit_halts() {
    let mut mgr = TaskManager::init(&sched_names(1));
    mgr.run_first_task(0);
    assert_eq!(mgr.exit_current_and_run_next(), None);
    assert_eq!(mgr.inner.tasks[0].task_status, TaskStatus::Exited);
    assert_eq!(running_count(&mgr), 0);
}

#[test]
fn exited_tasks_are_never_rescheduled() {
    let mut mgr = TaskManager::init(&sched_names(3));
    mgr.run_first_task(0);
    mgr.exit_current_and_run_next().unwrap();
    // 0 is Exited; rotating through suspensions never lands on it again
    for _ in 0..10 {
        let op = mgr.suspend_current_and_run_next();
        assert_ne!(op.load, 0);
        assert_ne!(mgr.inner.tasks[0].task_status, TaskStatus::Running);
    }
}

#[test]
fn status_mirror_caches_ready_while_running() {
    let mut mgr = TaskManager::init(&sched_names(2));
    mgr.run_first_task(0);
    // the scheduler does not write Running through to the record
    assert_eq!(mgr.inner.tasks[0].task_status, TaskStatus::Running);
    assert_eq!(mgr.inner.infos[0].status, TaskStatus::Ready);
}

#[test]
fn caller_resumes_after_a_full_sweep() {
    // with three tasks only yielding, the third suspension hands the CPU
    // back to the first caller, after each sibling ran exactly once
    let mut mgr = TaskManager::init(&sched_names(3));
    mgr.run_first_task(0);
    let first = mgr.suspend_current_and_run_next();
    let second = mgr.suspend_current_and_run_next();
    let third = mgr.suspend_current_and_run_next();
    assert_eq!((first.save, first.load), (0, 1));
    assert_eq!((second.save, second.load), (1, 2));
    assert_eq!((third.save, third.load), (2, 0));
    assert_eq!(mgr.get_current_task(), 0);
    assert_eq!(mgr.inner.tasks[0].task_status, TaskStatus::Running);
}
