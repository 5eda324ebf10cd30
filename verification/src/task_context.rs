//! The task context: the minimal callee-saved register set that the
//! cooperative context-switch routine stores and loads.  Everything
//! caller-saved is already flushed by the compiler, because the switch is an
//! ordinary call boundary; only the return address, the kernel stack pointer
//! and the callee-saved registers cross it.

use vstd::prelude::*;

verus! {

/// Where the switch routine's "return" lands when it resumes a task that has
/// never run: the entry of the trap exit sequence.  In the model this is an
/// abstract code address; a suspended-for-the-first-time task resuming here
/// behaves exactly like a task returning from a trap, which unifies "start"
/// and "resume" into one path.
pub const TRAP_EXIT_ENTRY: usize = 0x80201000;

/// One kernel execution path's resumption point: return address, kernel
/// stack pointer, and the twelve callee-saved registers.
#[derive(Clone, Copy, PartialEq, Eq, Debug)]
pub struct TaskContext {
    /// Return address the switch routine returns through.
    pub ra: usize,
    /// Kernel stack pointer of the suspended path.
    pub sp: usize,
    /// Callee-saved registers `s0..s11`.
    pub s: [usize; 12],
}

impl TaskContext {
    /// The context of a task that has never run: switching into it "returns"
    /// into the trap exit sequence with the kernel stack pointing at the
    /// task's freshly initialised trap frame.
    pub fn goto_restore(kstack_ptr: usize) -> (cx: TaskContext)
        ensures
            cx.ra == TRAP_EXIT_ENTRY,
            cx.sp == kstack_ptr,
            forall|i: int| 0 <= i < 12 ==> cx.s[i] == 0,
    {
        TaskContext { ra: TRAP_EXIT_ENTRY, sp: kstack_ptr, s: [0; 12] }
    }

    /// The all-zero context a task slot holds before boot fills it in.
    pub fn zero_init() -> (cx: Self)
        ensures
            cx.ra == 0,
            cx.sp == 0,
            forall|i: int| 0 <= i < 12 ==> cx.s[i] == 0,
    {
        Self { ra: 0, sp: 0, s: [0; 12] }
    }
}

} // verus!
