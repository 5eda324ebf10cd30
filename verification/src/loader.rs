//! The static memory layout: one kernel stack, one user stack and one
//! application data slot per task, each a fixed-stride region addressed by
//! task index.  Nothing here touches memory; the layout hands out
//! bounds-checked region descriptors, and the copies into the slots are the
//! hosting runtime's concern.

use vstd::prelude::*;

use crate::config::{
    APP_BASE_ADDRESS, APP_SIZE_LIMIT, KERNEL_STACK_BASE, KERNEL_STACK_SIZE, MAX_APP_NUM,
    USER_STACK_BASE, USER_STACK_SIZE,
};
use crate::trap_context::{PrivilegeLevel, TrapContext, TRAP_CONTEXT_SIZE};

verus! {

/// A half-open range of physical addresses, `[start, end)`.
#[derive(Clone, Copy, PartialEq, Eq, Structural, Debug)]
pub struct Region {
    pub start: usize,
    pub end: usize,
}

impl Region {
    pub open spec fn wf(self) -> bool {
        self.start <= self.end
    }

    /// The bytes `[buf, buf + len)` lie entirely inside this region.
    pub open spec fn spec_contains_buf(self, buf: int, len: int) -> bool {
        self.start <= buf && buf + len <= self.end
    }

    /// Overflow-free containment test for a byte range.
    pub fn contains_buf(&self, buf: usize, len: usize) -> (r: bool)
        requires
            self.wf(),
        ensures
            r == self.spec_contains_buf(buf as int, len as int),
    {
        self.start <= buf && buf <= self.end && len <= self.end - buf
    }
}

/// Descriptor of one task's kernel stack slot.
#[derive(Clone, Copy, PartialEq, Eq, Structural, Debug)]
pub struct KernelStack {
    pub base: usize,
}

/// Descriptor of one task's user stack slot.
#[derive(Clone, Copy, PartialEq, Eq, Structural, Debug)]
pub struct UserStack {
    pub base: usize,
}

/// Base address of task `app_id`'s kernel stack.
pub open spec fn kernel_stack_base_spec(app_id: int) -> int {
    KERNEL_STACK_BASE + app_id * KERNEL_STACK_SIZE
}

/// Base address of task `app_id`'s user stack.
pub open spec fn user_stack_base_spec(app_id: int) -> int {
    USER_STACK_BASE + app_id * USER_STACK_SIZE
}

/// Base address of task `app_id`'s application data slot.
pub open spec fn app_base_spec(app_id: int) -> int {
    APP_BASE_ADDRESS + app_id * APP_SIZE_LIMIT
}

impl KernelStack {
    /// Initial stack pointer: the top of the slot (stacks grow downwards).
    pub fn get_sp(&self) -> (sp: usize)
        requires
            self.base + KERNEL_STACK_SIZE <= usize::MAX,
        ensures
            sp == self.base + KERNEL_STACK_SIZE,
    {
        self.base + KERNEL_STACK_SIZE
    }

    /// Lowest address of the slot.
    pub fn get_ptr(&self) -> (p: usize)
        ensures
            p == self.base,
    {
        self.base
    }
}

impl UserStack {
    /// Initial stack pointer: the top of the slot (stacks grow downwards).
    pub fn get_sp(&self) -> (sp: usize)
        requires
            self.base + USER_STACK_SIZE <= usize::MAX,
        ensures
            sp == self.base + USER_STACK_SIZE,
    {
        self.base + USER_STACK_SIZE
    }

    /// The whole slot as an address region.
    pub fn get_stack(&self) -> (r: Region)
        requires
            self.base + USER_STACK_SIZE <= usize::MAX,
        ensures
            r.start == self.base,
            r.end == self.base + USER_STACK_SIZE,
            r.wf(),
    {
        Region { start: self.base, end: self.base + USER_STACK_SIZE }
    }
}

/// The kernel stack slot of task `app_id`.
pub fn kernel_stack(app_id: usize) -> (s: KernelStack)
    requires
        app_id < MAX_APP_NUM,
    ensures
        s.base == kernel_stack_base_spec(app_id as int),
{
    KernelStack { base: KERNEL_STACK_BASE + app_id * KERNEL_STACK_SIZE }
}

/// The user stack slot of task `app_id`.
pub fn user_stack(app_id: usize) -> (s: UserStack)
    requires
        app_id < MAX_APP_NUM,
    ensures
        s.base == user_stack_base_spec(app_id as int),
{
    UserStack { base: USER_STACK_BASE + app_id * USER_STACK_SIZE }
}

/// The application data slot of task `app_id`.
pub fn app_data_region(app_id: usize) -> (r: Region)
    requires
        app_id < MAX_APP_NUM,
    ensures
        r.start == app_base_spec(app_id as int),
        r.end == app_base_spec(app_id as int) + APP_SIZE_LIMIT,
        r.wf(),
{
    let base = APP_BASE_ADDRESS + app_id * APP_SIZE_LIMIT;
    Region { start: base, end: base + APP_SIZE_LIMIT }
}

/// Every application image fits its fixed-size data slot.  An oversized
/// image is a fatal configuration error, detected once at boot before any
/// task runs; the copies into the slots are the runtime's work.
pub fn app_images_fit(app_sizes: &Vec<usize>) -> (ok: bool)
    ensures
        ok == forall|i: int| 0 <= i < app_sizes@.len() ==> app_sizes@[i] <= APP_SIZE_LIMIT,
{
    let mut i: usize = 0;
    while i < app_sizes.len()
        invariant
            0 <= i <= app_sizes@.len(),
            forall|j: int| 0 <= j < i ==> app_sizes@[j] <= APP_SIZE_LIMIT,
        decreases app_sizes@.len() - i,
    {
        if app_sizes[i] > APP_SIZE_LIMIT {
            return false;
        }
        i = i + 1;
    }
    true
}

/// The initial trap frame of task `app_id` and the address it sits at: the
/// frame lands at the task's entry point in user mode on the task's own user
/// stack, and lives at the top of the task's kernel stack.
pub fn init_app_cx(app_id: usize) -> (r: (TrapContext, usize))
    requires
        app_id < MAX_APP_NUM,
    ensures
        r.0.sepc == app_base_spec(app_id as int),
        r.0.x2 == user_stack_base_spec(app_id as int) + USER_STACK_SIZE,
        r.0.sstatus.spp == PrivilegeLevel::User,
        r.0.regs_zero(),
        r.1 == kernel_stack_base_spec(app_id as int) + KERNEL_STACK_SIZE - TRAP_CONTEXT_SIZE,
{
    let entry = APP_BASE_ADDRESS + app_id * APP_SIZE_LIMIT;
    let kstack = kernel_stack(app_id);
    let ustack = user_stack(app_id);
    let cx = TrapContext::init_app_context(entry, ustack.get_sp());
    let cx_addr = kstack.get_sp() - TRAP_CONTEXT_SIZE;
    (cx, cx_addr)
}

} // verus!
