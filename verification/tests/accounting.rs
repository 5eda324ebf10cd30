//! Per-task accounting: invocation counters and time attribution.

use toyos::syscall::{SyscallId, SYSCALL_GET_TIME, SYSCALL_YIELD};
use toyos::task::Call;
use toyos::task_manager::TaskManager;
use toyos::trap::{trap_handler, TrapCause, TrapOutcome};

fn acct_names(n: usize) -> Vec<Vec<u8>> {
    (0..n).map(|i| format!("task{}", i).into_bytes()).collect()
}

fn counter_of(mgr: &TaskManager, task: usize, id: SyscallId) -> usize {
    mgr.inner.infos[task]
        .call
        .inner
        .iter()
        .find(|s| s.id == id)
        .map(|s| s.times)
        .unwrap_or(0)
}

/// Issue one syscall trap from the current task, advancing the clock.
fn issue(mgr: &mut TaskManager, clock: &mut u64, id: usize, args: [usize; 3]) -> TrapOutcome {
    let cur = mgr.get_current_task();
    mgr.inner.trap_frames[cur].x17 = id;
    mgr.inner.trap_frames[cur].x10 = args[0];
    mgr.inner.trap_frames[cur].x11 = args[1];
    mgr.inner.trap_frames[cur].x12 = args[2];
    let entry = *clock + 100;
    let exit = entry + 50;
    *clock = exit;
    trap_handler(mgr, TrapCause::UserEnvCall, entry, exit)
}

#[test]
fn counter_table_counts_per_id() {
    let mut call = Call::zero_init();
    for _ in 0..5 {
        assert_eq!(call.add(SyscallId::Yield), Some(()));
    }
    for _ in 0..3 {
        assert_eq!(call.add(SyscallId::Write), Some(()));
    }
    let yields = call.inner.iter().find(|s| s.id == SyscallId::Yield).unwrap();
    let writes = call.inner.iter().find(|s| s.id == SyscallId::Write).unwrap();
    assert_eq!(yields.times, 5);
    assert_eq!(writes.times, 3);
    assert!(call.inner.iter().all(|s| s.id != SyscallId::GetTime));
}

#[test]
fn k_syscalls_count_k() {
    // a task that issues the same syscall K times has K in its counter
    let mut mgr = TaskManager::init(&acct_names(1));
    let mut clock: u64 = 0;
    mgr.run_first_task(0);
    let k = 7;
    for _ in 0..k {
        match issue(&mut mgr, &mut clock, SYSCALL_GET_TIME, [0, 0, 0]) {
            TrapOutcome::Syscall(_) => {}
            other => panic!("syscall trap misdispatched: {:?}", other),
        }
    }
    assert_eq!(counter_of(&mgr, 0, SyscallId::GetTime), k);
    assert_eq!(counter_of(&mgr, 0, SyscallId::Yield), 0);
}

#[test]
fn counters_are_per_task() {
    let mut mgr = TaskManager::init(&acct_names(2));
    let mut clock: u64 = 0;
    mgr.run_first_task(0);
    // task 0 yields (counted for task 0), which schedules task 1
    issue(&mut mgr, &mut clock, SYSCALL_YIELD, [0, 0, 0]);
    assert_eq!(mgr.get_current_task(), 1);
    issue(&mut mgr, &mut clock, SYSCALL_GET_TIME, [0, 0, 0]);
    assert_eq!(counter_of(&mgr, 0, SyscallId::Yield), 1);
    assert_eq!(counter_of(&mgr, 0, SyscallId::GetTime), 0);
    assert_eq!(counter_of(&mgr, 1, SyscallId::GetTime), 1);
    assert_eq!(counter_of(&mgr, 1, SyscallId::Yield), 0);
}

#[test]
fn accounted_time_never_decreases() {
    let mut mgr = TaskManager::init(&acct_names(2));
    let mut clock: u64 = 0;
    mgr.run_first_task(0);
    let mut last_sum: u64 = 0;
    for round in 0..20 {
        // alternate syscall traps and timer ticks
        if round % 2 == 0 {
            issue(&mut mgr, &mut clock, SYSCALL_GET_TIME, [0, 0, 0]);
        } else {
            let entry = clock + 100;
            let exit = entry + 30;
            clock = exit;
            match trap_handler(&mut mgr, TrapCause::SupervisorTimer, entry, exit) {
                TrapOutcome::Preempted { .. } => {}
                other => panic!("timer trap misdispatched: {:?}", other),
            }
        }
        let sum: u64 = mgr
            .inner
            .infos
            .iter()
            .map(|i| i.user_time + i.kernel_time)
            .sum();
        assert!(sum >= last_sum);
        last_sum = sum;
    }
    assert!(last_sum > 0);
}

#[test]
fn trap_attributes_kernel_and_user_time() {
    let mut mgr = TaskManager::init(&acct_names(1));
    mgr.run_first_task(0);
    // timestamp is 0 nanoseconds; entry at 100 cycles, exit at 150 cycles
    let out = {
        let cur = mgr.get_current_task();
        mgr.inner.trap_frames[cur].x17 = SYSCALL_GET_TIME;
        trap_handler(&mut mgr, TrapCause::UserEnvCall, 100, 150)
    };
    match out {
        TrapOutcome::Syscall(_) => {}
        other => panic!("syscall trap misdispatched: {:?}", other),
    }
    // kernel time: 100 cycles at 80 ns each since the timestamp; the
    // syscall interval of 50 cycles is attributed as well
    assert_eq!(mgr.inner.infos[0].kernel_time, 100 * 80);
    assert_eq!(mgr.inner.infos[0].user_time, 50 * 80);
    assert_eq!(mgr.get_timestamp(), 150 * 80);
}
