//! Fixed parameters of the static memory layout and of the clock.

use vstd::prelude::*;

verus! {

/// Size in bytes of each task's user stack.
pub const USER_STACK_SIZE: usize = 4096 * 2;

/// Size in bytes of each task's kernel stack.
pub const KERNEL_STACK_SIZE: usize = 4096 * 2;

/// Base physical address of the first application data slot.
pub const APP_BASE_ADDRESS: usize = 0x80400000;

/// Fixed stride and size limit of one application data slot.
pub const APP_SIZE_LIMIT: usize = 0x200000;

/// Base physical address of the arena of kernel stacks.
pub const KERNEL_STACK_BASE: usize = 0x80200000;

/// Base physical address of the arena of user stacks.
pub const USER_STACK_BASE: usize = 0x80300000;

/// Largest number of task slots the static layout reserves room for.
pub const MAX_APP_NUM: usize = 16;

/// Capacity of the fixed-size task name buffer.
pub const MAX_NAME_LEN: usize = 32;

/// Cycles of the monotonic counter per second.
pub const CLOCK_FREQ: usize = 12500000;

/// Nanoseconds that one cycle of the monotonic counter lasts: one second
/// divided by `CLOCK_FREQ` (12.5 MHz) is 80 ns, so the nanosecond clock and
/// the millisecond clock agree on the length of a cycle.
pub const NANOS_PER_CYCLE: u64 = 80;

} // verus!
