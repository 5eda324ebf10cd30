//! The trap frame: the fixed-layout register save area that the hardware-level
//! trap entry sequence pushes onto the trapping task's kernel stack and the
//! matching exit sequence pops.  Entry and exit use byte-identical offsets for
//! every field, so the layout is a single structure; the syscall convention
//! reads the id from `x17`, the arguments from `x10..x12`, and writes the
//! return value back into `x10`.
//!
//! `x0` (hardwired zero) and `x4` are not part of the frame; the user stack
//! pointer is parked in the dedicated scratch register during the swap and
//! stored into the frame's `x2` slot.

use vstd::prelude::*;

verus! {

/// Privilege level recorded in the status register's "previous privilege"
/// field; a trap exit returns to this level.
#[derive(Clone, Copy, PartialEq, Eq, Structural, Debug)]
pub enum PrivilegeLevel {
    User,
    Supervisor,
}

/// The slice of the privileged status register that the kernel reads and
/// writes: the privilege level the next trap exit returns to.
#[derive(Clone, Copy, PartialEq, Eq, Structural, Debug)]
pub struct Sstatus {
    pub spp: PrivilegeLevel,
}

/// Byte size of one trap frame: thirty general registers, the status
/// register and the saved program counter, eight bytes each.
pub const TRAP_CONTEXT_SIZE: usize = 32 * 8;

/// The register save area.  One frame lives at the top of each task's kernel
/// stack; it is created by the trap entry sequence (or, for a task that has
/// never run, by [`TrapContext::init_app_context`]) and consumed by the exit
/// sequence.
#[derive(Clone, Copy, PartialEq, Eq, Structural, Debug)]
pub struct TrapContext {
    pub x1: usize,
    /// The interrupted task's own stack pointer (the kernel stack pointer is
    /// what the frame itself lives on).
    pub x2: usize,
    pub x3: usize,
    pub x5: usize,
    pub x6: usize,
    pub x7: usize,
    pub x8: usize,
    pub x9: usize,
    /// First syscall argument; the syscall return value is written back here.
    pub x10: usize,
    /// Second syscall argument.
    pub x11: usize,
    /// Third syscall argument.
    pub x12: usize,
    pub x13: usize,
    pub x14: usize,
    pub x15: usize,
    pub x16: usize,
    /// Syscall id register.
    pub x17: usize,
    pub x18: usize,
    pub x19: usize,
    pub x20: usize,
    pub x21: usize,
    pub x22: usize,
    pub x23: usize,
    pub x24: usize,
    pub x25: usize,
    pub x26: usize,
    pub x27: usize,
    pub x28: usize,
    pub x29: usize,
    pub x30: usize,
    pub x31: usize,
    pub sstatus: Sstatus,
    /// Saved program counter: where the trap exit resumes.
    pub sepc: usize,
}

impl TrapContext {
    /// All thirty general registers of the frame are zero.
    pub open spec fn regs_zero(self) -> bool {
        &&& self.x1 == 0
        &&& self.x3 == 0
        &&& self.x5 == 0
        &&& self.x6 == 0
        &&& self.x7 == 0
        &&& self.x8 == 0
        &&& self.x9 == 0
        &&& self.x10 == 0
        &&& self.x11 == 0
        &&& self.x12 == 0
        &&& self.x13 == 0
        &&& self.x14 == 0
        &&& self.x15 == 0
        &&& self.x16 == 0
        &&& self.x17 == 0
        &&& self.x18 == 0
        &&& self.x19 == 0
        &&& self.x20 == 0
        &&& self.x21 == 0
        &&& self.x22 == 0
        &&& self.x23 == 0
        &&& self.x24 == 0
        &&& self.x25 == 0
        &&& self.x26 == 0
        &&& self.x27 == 0
        &&& self.x28 == 0
        &&& self.x29 == 0
        &&& self.x30 == 0
        &&& self.x31 == 0
    }

    /// The frame a not-yet-run task starts from: resuming through the trap
    /// exit sequence lands at `entry` in user mode, on the task's own stack.
    pub fn init_app_context(entry: usize, sp: usize) -> (cx: Self)
        ensures
            cx.sepc == entry,
            cx.x2 == sp,
            cx.sstatus.spp == PrivilegeLevel::User,
            cx.regs_zero(),
    {
        TrapContext {
            x1: 0,
            x2: sp,
            x3: 0,
            x5: 0,
            x6: 0,
            x7: 0,
            x8: 0,
            x9: 0,
            x10: 0,
            x11: 0,
            x12: 0,
            x13: 0,
            x14: 0,
            x15: 0,
            x16: 0,
            x17: 0,
            x18: 0,
            x19: 0,
            x20: 0,
            x21: 0,
            x22: 0,
            x23: 0,
            x24: 0,
            x25: 0,
            x26: 0,
            x27: 0,
            x28: 0,
            x29: 0,
            x30: 0,
            x31: 0,
            sstatus: Sstatus { spp: PrivilegeLevel::User },
            sepc: entry,
        }
    }
}

} // verus!
