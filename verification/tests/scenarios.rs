//! End-to-end scenarios driven through the trap handler, and the syscall
//! surface: ids, time, and task info.

use toyos::config::{APP_BASE_ADDRESS, CLOCK_FREQ, USER_STACK_BASE, USER_STACK_SIZE};
use toyos::syscall::{
    sys_get_taskinfo, sys_get_time, SyscallId, SyscallOutcome, TaskInfoResult, SYSCALL_EXIT,
    SYSCALL_GET_TASKINFO, SYSCALL_GET_TIME, SYSCALL_WRITE, SYSCALL_YIELD,
};
use toyos::task::TaskStatus;
use toyos::task_manager::TaskManager;
use toyos::timer::{get_time_ms, set_next_trigger, timer_now};
use toyos::trap::{trap_handler, TrapCause, TrapOutcome};

fn scenario_names(names: &[&str]) -> Vec<Vec<u8>> {
    names.iter().map(|n| n.as_bytes().to_vec()).collect()
}

/// Issue one syscall trap from the current task, advancing the clock.
fn trap_syscall(
    mgr: &mut TaskManager,
    clock: &mut u64,
    id: usize,
    args: [usize; 3],
) -> TrapOutcome {
    let cur = mgr.get_current_task();
    mgr.inner.trap_frames[cur].x17 = id;
    mgr.inner.trap_frames[cur].x10 = args[0];
    mgr.inner.trap_frames[cur].x11 = args[1];
    mgr.inner.trap_frames[cur].x12 = args[2];
    let entry = *clock + 10;
    let exit = entry + 10;
    *clock = exit;
    trap_handler(mgr, TrapCause::UserEnvCall, entry, exit)
}

#[test]
fn syscall_id_decoding() {
    assert_eq!(SyscallId::from(64), SyscallId::Write);
    assert_eq!(SyscallId::from(93), SyscallId::Exit);
    assert_eq!(SyscallId::from(124), SyscallId::Yield);
    assert_eq!(SyscallId::from(169), SyscallId::GetTime);
    assert_eq!(SyscallId::from(233), SyscallId::GetTaskInfo);
    assert_eq!(SyscallId::from(0), SyscallId::Unsupported);
    assert_eq!(SyscallId::from(65), SyscallId::Unsupported);
}

#[test]
fn clock_arithmetic() {
    // one millisecond is CLOCK_FREQ / 1000 cycles
    assert_eq!(get_time_ms((CLOCK_FREQ / 1000) as u64), 1);
    assert_eq!(get_time_ms(3 * (CLOCK_FREQ / 1000) as u64 + 7), 3);
    assert_eq!(get_time_ms(0), 0);
    // one cycle of the 12.5 MHz counter lasts 80 ns
    assert_eq!(timer_now(4), 320);
    // the next preemption deadline is one tick ahead
    assert_eq!(set_next_trigger(1000), 1000 + (CLOCK_FREQ / 100) as u64);
    assert_eq!(sys_get_time(2 * (CLOCK_FREQ / 1000) as u64), 2);
}

#[test]
fn taskinfo_rejects_short_buffer_and_fills_ample_one() {
    // a 4-byte buffer for an 8-byte name fails with -1; a 32-byte buffer
    // returns the caller's id and its name
    let mut mgr = TaskManager::init(&scenario_names(&["task8888", "other"]));
    mgr.run_first_task(0);
    let buf = USER_STACK_BASE + 64;
    match sys_get_taskinfo(&mgr, buf, 4) {
        TaskInfoResult::NameTooLong => {}
        other => panic!("short buffer misjudged: {:?}", other),
    }
    match sys_get_taskinfo(&mgr, buf, 32) {
        TaskInfoResult::Copied { id, dst, name } => {
            assert_eq!(id, 0);
            assert_eq!(dst, buf);
            assert_eq!(name, b"task8888".to_vec());
        }
        other => panic!("ample buffer misjudged: {:?}", other),
    }
    // out of the caller's regions: rejected before the length check
    match sys_get_taskinfo(&mgr, 0x100, 32) {
        TaskInfoResult::OutOfBounds => {}
        other => panic!("wild buffer misjudged: {:?}", other),
    }
}

#[test]
fn taskinfo_through_the_trap_handler() {
    let mut mgr = TaskManager::init(&scenario_names(&["task8888", "other"]));
    let mut clock: u64 = 0;
    mgr.run_first_task(0);
    let buf = USER_STACK_BASE + 64;
    match trap_syscall(&mut mgr, &mut clock, SYSCALL_GET_TASKINFO, [buf, 4, 0]) {
        TrapOutcome::Syscall(SyscallOutcome::Value(v)) => assert_eq!(v, -1),
        other => panic!("short buffer misjudged: {:?}", other),
    }
    // the failure is visible to the task in its return-value register
    assert_eq!(mgr.inner.trap_frames[0].x10, (-1isize) as usize);
    match trap_syscall(&mut mgr, &mut clock, SYSCALL_GET_TASKINFO, [buf, 32, 0]) {
        TrapOutcome::Syscall(SyscallOutcome::NameCopy { ret, dst, name }) => {
            assert_eq!(ret, 0);
            assert_eq!(dst, buf);
            assert_eq!(name, b"task8888".to_vec());
        }
        other => panic!("ample buffer misjudged: {:?}", other),
    }
    assert_eq!(mgr.inner.trap_frames[0].x10, 0);
}

#[test]
fn syscall_return_advances_the_program_counter() {
    let mut mgr = TaskManager::init(&scenario_names(&["one"]));
    let mut clock: u64 = 0;
    mgr.run_first_task(0);
    let sepc_before = mgr.inner.trap_frames[0].sepc;
    trap_syscall(&mut mgr, &mut clock, SYSCALL_GET_TIME, [0, 0, 0]);
    // resumption continues after the call instruction, not at it
    assert_eq!(mgr.inner.trap_frames[0].sepc, sepc_before + 4);
    assert_eq!(mgr.inner.trap_frames[0].x10, 0);
}

#[test]
fn console_write_through_the_trap_handler() {
    let mut mgr = TaskManager::init(&scenario_names(&["writer"]));
    let mut clock: u64 = 0;
    mgr.run_first_task(0);
    let buf = APP_BASE_ADDRESS + 0x100;
    match trap_syscall(&mut mgr, &mut clock, SYSCALL_WRITE, [1, buf, 13]) {
        TrapOutcome::Syscall(SyscallOutcome::Console { ret, start, len }) => {
            assert_eq!(ret, 13);
            assert_eq!(start, buf);
            assert_eq!(len, 13);
        }
        other => panic!("console write misjudged: {:?}", other),
    }
    assert_eq!(mgr.inner.trap_frames[0].x10, 13);
    // a denied write fails with the negative sentinel
    match trap_syscall(&mut mgr, &mut clock, SYSCALL_WRITE, [1, 11, 3]) {
        TrapOutcome::Syscall(SyscallOutcome::Value(v)) => assert_eq!(v, -1),
        other => panic!("denied write misjudged: {:?}", other),
    }
    assert_eq!(mgr.inner.trap_frames[0].x10, (-1isize) as usize);
    // an unsupported descriptor is fatal to the kernel
    match trap_syscall(&mut mgr, &mut clock, SYSCALL_WRITE, [3, buf, 13]) {
        TrapOutcome::Syscall(SyscallOutcome::Fatal) => {}
        other => panic!("bad descriptor misjudged: {:?}", other),
    }
}

#[test]
fn unsupported_syscall_is_fatal() {
    let mut mgr = TaskManager::init(&scenario_names(&["one"]));
    let mut clock: u64 = 0;
    mgr.run_first_task(0);
    match trap_syscall(&mut mgr, &mut clock, 4000, [0, 0, 0]) {
        TrapOutcome::Syscall(SyscallOutcome::Fatal) => {}
        other => panic!("unsupported id misjudged: {:?}", other),
    }
}

#[test]
fn unknown_trap_cause_is_unhandled() {
    let mut mgr = TaskManager::init(&scenario_names(&["one"]));
    mgr.run_first_task(0);
    assert_eq!(
        trap_handler(&mut mgr, TrapCause::Unknown, 10, 20),
        TrapOutcome::Unhandled
    );
}

#[test]
fn timer_preemption_rotates_tasks() {
    let mut mgr = TaskManager::init(&scenario_names(&["a", "b", "c"]));
    mgr.run_first_task(0);
    let entry = 100;
    let exit = 130;
    match trap_handler(&mut mgr, TrapCause::SupervisorTimer, entry, exit) {
        TrapOutcome::Preempted { op, deadline } => {
            assert_eq!((op.save, op.load), (0, 1));
            assert_eq!(deadline, entry + (CLOCK_FREQ / 100) as u64);
        }
        other => panic!("timer trap misdispatched: {:?}", other),
    }
    assert_eq!(mgr.inner.tasks[0].task_status, TaskStatus::Ready);
    assert_eq!(mgr.inner.tasks[1].task_status, TaskStatus::Running);
    assert_eq!(mgr.get_current_task(), 1);
}

#[test]
fn store_fault_evicts_task_and_kernel_continues() {
    // a task stores out of bounds: the kernel kills it, schedules the next
    // ready task, and does not crash
    let mut mgr = TaskManager::init(&scenario_names(&["victim", "survivor"]));
    mgr.run_first_task(0);
    match trap_handler(&mut mgr, TrapCause::StoreFault, 50, 80) {
        TrapOutcome::FaultExit(Some(op)) => {
            assert_eq!((op.save, op.load), (0, 1));
        }
        other => panic!("store fault misdispatched: {:?}", other),
    }
    assert_eq!(mgr.inner.tasks[0].task_status, TaskStatus::Exited);
    assert_eq!(mgr.inner.tasks[1].task_status, TaskStatus::Running);
    // the survivor keeps running and can still make syscalls
    let mut clock: u64 = 80;
    match trap_syscall(&mut mgr, &mut clock, SYSCALL_GET_TIME, [0, 0, 0]) {
        TrapOutcome::Syscall(SyscallOutcome::Value(_)) => {}
        other => panic!("survivor syscall misjudged: {:?}", other),
    }
}

#[test]
fn illegal_instruction_evicts_task() {
    let mut mgr = TaskManager::init(&scenario_names(&["bad", "good"]));
    mgr.run_first_task(0);
    match trap_handler(&mut mgr, TrapCause::IllegalInstruction, 50, 80) {
        TrapOutcome::FaultExit(Some(op)) => assert_eq!(op.load, 1),
        other => panic!("illegal instruction misdispatched: {:?}", other),
    }
    assert_eq!(mgr.inner.tasks[0].task_status, TaskStatus::Exited);
}

#[test]
fn fault_in_last_task_halts() {
    let mut mgr = TaskManager::init(&scenario_names(&["only"]));
    mgr.run_first_task(0);
    match trap_handler(&mut mgr, TrapCause::StorePageFault, 50, 80) {
        TrapOutcome::FaultExit(None) => {}
        other => panic!("final fault misdispatched: {:?}", other),
    }
    assert_eq!(mgr.inner.tasks[0].task_status, TaskStatus::Exited);
}

#[test]
fn sleepers_share_the_cpu_until_all_exit() {
    // every task yields until the clock passes its start by 3000 ms, then
    // exits; the kernel halts once none is ready
    let cycles_per_ms = (CLOCK_FREQ / 1000) as u64;
    let mut mgr = TaskManager::init(&scenario_names(&["sleep0", "sleep1", "sleep2"]));
    let mut clock: u64 = 0;
    mgr.run_first_task(timer_now(clock));
    let start_ms = get_time_ms(clock);
    let deadline_ms = start_ms + 3000;
    let mut halted = false;
    let mut observed_exited_sibling = false;
    for _ in 0..10_000 {
        let now_ms = get_time_ms(clock);
        let cur = mgr.get_current_task();
        if mgr.inner.tasks.iter().enumerate().any(|(i, t)| {
            i != cur && t.task_status == TaskStatus::Exited
        }) {
            observed_exited_sibling = true;
        }
        let out = if now_ms <= deadline_ms {
            trap_syscall(&mut mgr, &mut clock, SYSCALL_YIELD, [0, 0, 0])
        } else {
            trap_syscall(&mut mgr, &mut clock, SYSCALL_EXIT, [0, 0, 0])
        };
        match out {
            TrapOutcome::Syscall(SyscallOutcome::Yielded { .. }) => {
                // between yields the task runs for a while
                clock += 100 * cycles_per_ms;
            }
            TrapOutcome::Syscall(SyscallOutcome::Exited { code, next }) => {
                assert_eq!(code, 0);
                if next.is_none() {
                    halted = true;
                    break;
                }
            }
            other => panic!("sleeper trap misjudged: {:?}", other),
        }
    }
    assert!(halted, "the kernel never halted");
    assert!(observed_exited_sibling);
    for t in mgr.inner.tasks.iter() {
        assert_eq!(t.task_status, TaskStatus::Exited);
    }
}
