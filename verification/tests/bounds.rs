//! The syscall bounds check: the substitute for page-table isolation.

use toyos::config::{APP_BASE_ADDRESS, APP_SIZE_LIMIT, USER_STACK_BASE, USER_STACK_SIZE};
use toyos::loader::{app_data_region, user_stack, Region};
use toyos::syscall::{check_buf, sys_write, WriteResult};
use toyos::task_manager::TaskManager;

fn bounds_names(n: usize) -> Vec<Vec<u8>> {
    (0..n).map(|i| format!("task{}", i).into_bytes()).collect()
}

fn own_regions(task: usize) -> (Region, Region) {
    (user_stack(task).get_stack(), app_data_region(task))
}

#[test]
fn buffer_inside_own_stack_accepted() {
    let (stack, data) = own_regions(0);
    assert!(check_buf(stack, data, USER_STACK_BASE, 16));
    assert!(check_buf(stack, data, USER_STACK_BASE + USER_STACK_SIZE - 16, 16));
    assert!(check_buf(stack, data, USER_STACK_BASE, USER_STACK_SIZE));
}

#[test]
fn buffer_inside_own_data_accepted() {
    let (stack, data) = own_regions(1);
    let base = APP_BASE_ADDRESS + APP_SIZE_LIMIT;
    assert!(check_buf(stack, data, base, 64));
    assert!(check_buf(stack, data, base + APP_SIZE_LIMIT - 1, 1));
}

#[test]
fn buffer_straddling_a_region_edge_rejected() {
    let (stack, data) = own_regions(0);
    // starts inside the stack, ends outside it
    assert!(!check_buf(stack, data, USER_STACK_BASE + USER_STACK_SIZE - 8, 16));
    // starts inside the data slot, ends outside it
    assert!(!check_buf(stack, data, APP_BASE_ADDRESS + APP_SIZE_LIMIT - 8, 16));
    // starts just below the stack
    assert!(!check_buf(stack, data, USER_STACK_BASE - 4, 8));
}

#[test]
fn buffer_in_another_tasks_region_rejected() {
    let (stack, data) = own_regions(0);
    // entirely inside task 1's user stack
    assert!(!check_buf(stack, data, USER_STACK_BASE + USER_STACK_SIZE, 16));
    // entirely inside task 1's data slot
    assert!(!check_buf(stack, data, APP_BASE_ADDRESS + APP_SIZE_LIMIT, 16));
}

#[test]
fn kernel_and_wild_addresses_rejected() {
    let (stack, data) = own_regions(0);
    assert!(!check_buf(stack, data, 0, 8));
    assert!(!check_buf(stack, data, 11, 3));
    assert!(!check_buf(stack, data, usize::MAX - 4, 8));
}

#[test]
fn empty_buffer_at_region_edge() {
    let (stack, data) = own_regions(0);
    // a zero-length range at the very end of the stack still lies inside it
    assert!(check_buf(stack, data, USER_STACK_BASE + USER_STACK_SIZE, 0));
}

#[test]
fn write_applies_the_bounds_check() {
    let mut mgr = TaskManager::init(&bounds_names(2));
    mgr.run_first_task(0);
    // a buffer inside task 0's stack is accepted on the console
    match sys_write(&mgr, 1, USER_STACK_BASE + 100, 5) {
        WriteResult::Console { start, len } => {
            assert_eq!(start, USER_STACK_BASE + 100);
            assert_eq!(len, 5);
        }
        other => panic!("accepted write misjudged: {:?}", other),
    }
    // the same buffer on a bad descriptor is fatal
    assert_eq!(sys_write(&mgr, 2, USER_STACK_BASE + 100, 5), WriteResult::BadFd);
    // task 1's stack is out of bounds for task 0, checked before the fd
    assert_eq!(
        sys_write(&mgr, 1, USER_STACK_BASE + USER_STACK_SIZE + 100, 5),
        WriteResult::OutOfBounds
    );
    assert_eq!(
        sys_write(&mgr, 7, USER_STACK_BASE + USER_STACK_SIZE + 100, 5),
        WriteResult::OutOfBounds
    );
}
