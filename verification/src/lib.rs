//! A model of a minimal single-core, cooperatively and timer-preemptively
//! scheduled kernel for a fixed set of statically placed tasks.
//!
//! The hardware-facing pieces (trap entry/exit, the context-switch routine,
//! control/status registers, the physical copies in and out of task memory)
//! are non-local jumps and privileged instructions that no ordinary call can
//! express; here they are modelled as an explicit state machine.  The kernel
//! decides: the trap handler maps a trap cause and the clock to a change of
//! task state plus an action (return to user, switch contexts, program the
//! timer, print bytes, halt), and the runtime that hosts the kernel performs
//! the action.  Every decision - the task state machine, the round-robin
//! scheduler, the syscall dispatch, the memory-bounds check and the per-task
//! accounting - is verified.

pub mod config;
pub mod fairness;
pub mod loader;
pub mod syscall;
pub mod task;
pub mod task_context;
pub mod task_manager;
pub mod timer;
pub mod trap;
pub mod trap_context;
