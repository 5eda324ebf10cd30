//! Boot-time configuration: the static layout, the initial trap frames and
//! contexts, and the freshly initialised task manager.

use toyos::config::{
    APP_BASE_ADDRESS, APP_SIZE_LIMIT, KERNEL_STACK_BASE, KERNEL_STACK_SIZE, USER_STACK_BASE,
    USER_STACK_SIZE,
};
use toyos::loader::{app_data_region, app_images_fit, init_app_cx, kernel_stack, user_stack};
use toyos::task::TaskStatus;
use toyos::task_context::{TaskContext, TRAP_EXIT_ENTRY};
use toyos::task_manager::TaskManager;
use toyos::trap_context::{PrivilegeLevel, TrapContext, TRAP_CONTEXT_SIZE};

fn mk_names(n: usize) -> Vec<Vec<u8>> {
    (0..n).map(|i| format!("task{}", i).into_bytes()).collect()
}

#[test]
fn layout_strides() {
    assert_eq!(kernel_stack(0).get_ptr(), KERNEL_STACK_BASE);
    assert_eq!(kernel_stack(0).get_sp(), KERNEL_STACK_BASE + KERNEL_STACK_SIZE);
    assert_eq!(kernel_stack(3).get_ptr(), KERNEL_STACK_BASE + 3 * KERNEL_STACK_SIZE);
    assert_eq!(user_stack(2).get_sp(), USER_STACK_BASE + 2 * USER_STACK_SIZE + USER_STACK_SIZE);
    let stack = user_stack(1).get_stack();
    assert_eq!(stack.start, USER_STACK_BASE + USER_STACK_SIZE);
    assert_eq!(stack.end, USER_STACK_BASE + 2 * USER_STACK_SIZE);
    let data = app_data_region(2);
    assert_eq!(data.start, APP_BASE_ADDRESS + 2 * APP_SIZE_LIMIT);
    assert_eq!(data.end, APP_BASE_ADDRESS + 3 * APP_SIZE_LIMIT);
}

#[test]
fn image_size_check() {
    assert!(app_images_fit(&vec![0, 100, APP_SIZE_LIMIT]));
    assert!(!app_images_fit(&vec![100, APP_SIZE_LIMIT + 1]));
    assert!(app_images_fit(&vec![]));
}

#[test]
fn initial_trap_frame() {
    let cx = TrapContext::init_app_context(0x8040_0000, 0x8030_2000);
    assert_eq!(cx.sepc, 0x8040_0000);
    assert_eq!(cx.x2, 0x8030_2000);
    assert_eq!(cx.sstatus.spp, PrivilegeLevel::User);
    assert_eq!(cx.x1, 0);
    assert_eq!(cx.x10, 0);
    assert_eq!(cx.x17, 0);
    assert_eq!(cx.x31, 0);
}

#[test]
fn initial_task_context() {
    let (frame, addr) = init_app_cx(4);
    assert_eq!(frame.sepc, APP_BASE_ADDRESS + 4 * APP_SIZE_LIMIT);
    assert_eq!(addr, KERNEL_STACK_BASE + 4 * KERNEL_STACK_SIZE + KERNEL_STACK_SIZE - TRAP_CONTEXT_SIZE);
    let cx = TaskContext::goto_restore(addr);
    assert_eq!(cx.ra, TRAP_EXIT_ENTRY);
    assert_eq!(cx.sp, addr);
    assert_eq!(cx.s, [0usize; 12]);
    let zero = TaskContext::zero_init();
    assert_eq!(zero.ra, 0);
    assert_eq!(zero.sp, 0);
}

#[test]
fn boot_all_ready_with_entry_frames() {
    let names = mk_names(4);
    let mgr = TaskManager::init(&names);
    assert_eq!(mgr.inner.tasks.len(), 4);
    for i in 0..4 {
        // every TCB is Ready, with a trap frame whose saved program counter
        // is that task's entry address
        assert_eq!(mgr.inner.tasks[i].task_status, TaskStatus::Ready);
        assert_eq!(mgr.inner.trap_frames[i].sepc, APP_BASE_ADDRESS + i * APP_SIZE_LIMIT);
        assert_eq!(
            mgr.inner.trap_frames[i].x2,
            USER_STACK_BASE + i * USER_STACK_SIZE + USER_STACK_SIZE
        );
        assert_eq!(mgr.inner.trap_frames[i].sstatus.spp, PrivilegeLevel::User);
        assert_eq!(mgr.inner.tasks[i].task_cx.ra, TRAP_EXIT_ENTRY);
        assert_eq!(mgr.inner.infos[i].id, i);
        assert_eq!(mgr.inner.infos[i].status, TaskStatus::Ready);
        assert_eq!(
            &mgr.inner.infos[i].name[..mgr.inner.infos[i].name_len],
            names[i].as_slice()
        );
        assert_eq!(mgr.inner.infos[i].user_time, 0);
        assert_eq!(mgr.inner.infos[i].kernel_time, 0);
    }
    assert_eq!(mgr.get_current_task(), 0);
    assert_eq!(mgr.get_timestamp(), 0);
}

#[test]
fn nothing_runs_before_first_switch() {
    let mgr = TaskManager::init(&mk_names(5));
    let running = mgr
        .inner
        .tasks
        .iter()
        .filter(|t| t.task_status == TaskStatus::Running)
        .count();
    assert_eq!(running, 0);
}

#[test]
fn first_switch_runs_task_zero() {
    let mut mgr = TaskManager::init(&mk_names(3));
    mgr.run_first_task(7000);
    assert_eq!(mgr.inner.tasks[0].task_status, TaskStatus::Running);
    let running = mgr
        .inner
        .tasks
        .iter()
        .filter(|t| t.task_status == TaskStatus::Running)
        .count();
    assert_eq!(running, 1);
    assert_eq!(mgr.get_timestamp(), 7000);
    assert_eq!(mgr.get_current_task(), 0);
}

#[test]
fn current_task_accessors() {
    let mut mgr = TaskManager::init(&mk_names(3));
    mgr.run_first_task(0);
    assert_eq!(mgr.get_current_task_name(), b"task0".to_vec());
    assert_eq!(mgr.get_current_task_status(), TaskStatus::Running);
    assert_eq!(mgr.get_current_task_stack().base, USER_STACK_BASE);
    let data = mgr.get_current_task_data_section();
    assert_eq!(data.start, APP_BASE_ADDRESS);
    assert_eq!(data.end, APP_BASE_ADDRESS + APP_SIZE_LIMIT);
    let info = mgr.get_current_task_info();
    assert_eq!(info.id, 0);
}
