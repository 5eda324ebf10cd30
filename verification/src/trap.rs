//! The trap handler: the single dispatch point every interrupt and exception
//! funnels through.  The hardware entry sequence has already pushed the
//! trapping task's registers into its trap frame; the runtime decodes the
//! cause register into a [`TrapCause`], samples the clock at entry and exit,
//! and calls [`trap_handler`].  The handler accounts the elapsed time,
//! dispatches - syscall, fatal-to-task exception, or timer preemption - and
//! answers with the [`TrapOutcome`] the runtime must act on.

use vstd::prelude::*;

use crate::config::CLOCK_FREQ;
use crate::syscall::{
    current_buf_in_bounds, syscall, syscall_id_from_spec, SyscallId, SyscallOutcome, FD_STDOUT,
    MAX_SYSCALL_NUM,
};
use crate::task::{slot_index, TaskStatus};
use crate::task_manager::{
    exists_ready, find_next_spec, running_only, status_update, SwitchOp, TaskManager,
};
use crate::timer::{get_time_ms_spec, set_next_trigger, timer_now, timer_now_spec, TICKS_PER_SEC};
use crate::trap_context::TrapContext;

verus! {

/// The trap causes the kernel models, decoded from the hardware cause
/// register by the runtime.  Everything else is `Unknown`.
#[derive(Clone, Copy, PartialEq, Eq, Structural, Debug)]
pub enum TrapCause {
    /// Environment call from user mode: a syscall.
    UserEnvCall,
    /// Store to a forbidden address: fatal to the task.
    StoreFault,
    /// Store page fault: fatal to the task.
    StorePageFault,
    /// Illegal instruction: fatal to the task.
    IllegalInstruction,
    /// The preemption timer fired.
    SupervisorTimer,
    /// An unmodelled cause: fatal to the kernel.
    Unknown,
}

/// What the runtime must do after the handler returns.
#[derive(Clone, PartialEq, Eq, Debug)]
pub enum TrapOutcome {
    /// A syscall was dispatched; act on its outcome (print, copy, switch,
    /// halt, or just return to user mode through the trap exit sequence).
    Syscall(SyscallOutcome),
    /// The task died on an exception: print the diagnostic, then switch to
    /// the next task, or halt on `None` (no task left to run).
    FaultExit(Option<SwitchOp>),
    /// Timer preemption: arm the one-shot timer with `deadline` and perform
    /// the switch.
    Preempted { op: SwitchOp, deadline: u64 },
    /// Unmodelled trap cause: the kernel panics.
    Unhandled,
}

/// The trap frame of a task that returns from a syscall: the saved program
/// counter has moved past the `ecall` instruction (so resumption does not
/// re-execute it), and the return-value register holds the result for the
/// outcomes that return to the caller.
pub open spec fn syscall_ret_frame(frame: TrapContext, out: SyscallOutcome) -> TrapContext {
    let bumped = TrapContext { sepc: (frame.sepc + 4) as usize, ..frame };
    match out {
        SyscallOutcome::Value(v) => TrapContext { x10: v as usize, ..bumped },
        SyscallOutcome::Console { ret, .. } => TrapContext { x10: ret as usize, ..bumped },
        SyscallOutcome::NameCopy { ret, .. } => TrapContext { x10: ret as usize, ..bumped },
        SyscallOutcome::Yielded { .. } => TrapContext { x10: 0, ..bumped },
        SyscallOutcome::Exited { .. } => bumped,
        SyscallOutcome::Fatal => bumped,
    }
}

/// Kernel time a trap entered at `entry_cycles` accrues to the interrupted
/// task: the wall-clock interval since the last recorded timestamp.
pub open spec fn kernel_delta(mgr: TaskManager, entry_cycles: u64) -> int {
    timer_now_spec(entry_cycles) - mgr.inner.timestamp
}

/// Interval a syscall additionally attributes to the calling task: the clock
/// advance between trap entry and trap exit.
pub open spec fn user_delta(entry_cycles: u64, exit_cycles: u64) -> int {
    timer_now_spec(exit_cycles) - timer_now_spec(entry_cycles)
}

/// Dispatch one trap.  `cause` is the decoded cause register, `entry_cycles`
/// and `exit_cycles` the clock samples at trap entry and just before trap
/// exit.  The machine limits in the `requires` cap the modelled uptime and
/// counter totals at the width of their registers; the runtime checks them
/// before calling.
pub fn trap_handler(mgr: &mut TaskManager, cause: TrapCause, entry_cycles: u64, exit_cycles: u64) -> (r:
    TrapOutcome)
    requires
        old(mgr).wf(),
        // every trap is raised while the current task is on the CPU
        old(mgr).inner.tasks@[old(mgr).inner.current_task as int].task_status
            == TaskStatus::Running,
        entry_cycles <= exit_cycles,
        exit_cycles * crate::config::NANOS_PER_CYCLE <= u64::MAX,
        old(mgr).inner.timestamp <= timer_now_spec(entry_cycles),
        ({
            let cur = old(mgr).inner.current_task as int;
            let frame = old(mgr).inner.trap_frames@[cur];
            let id = syscall_id_from_spec(frame.x17 as int);
            &&& old(mgr).inner.infos@[cur].kernel_time + kernel_delta(*old(mgr), entry_cycles)
                <= u64::MAX
            &&& (cause == TrapCause::UserEnvCall ==> {
                &&& old(mgr).inner.infos@[cur].user_time + user_delta(entry_cycles, exit_cycles)
                    <= u64::MAX
                &&& frame.sepc + 4 <= usize::MAX
                &&& old(mgr).inner.infos@[cur].call.count_of(id) < usize::MAX
                &&& (id == SyscallId::GetTime ==> get_time_ms_spec(entry_cycles) <= isize::MAX)
            })
            &&& (cause == TrapCause::SupervisorTimer ==> entry_cycles + (CLOCK_FREQ
                / TICKS_PER_SEC) as u64 <= u64::MAX)
        }),
    ensures
        final(mgr).wf(),
        final(mgr).inner.timestamp == timer_now_spec(exit_cycles),
        final(mgr).n() == old(mgr).n(),
        final(mgr).inner.infos@.len() == old(mgr).inner.infos@.len(),
        // Accounted time only ever grows.
        forall|j: int|
            0 <= j < old(mgr).inner.infos@.len() ==> (#[trigger] final(mgr).inner.infos@[j]).user_time
                + final(mgr).inner.infos@[j].kernel_time >= old(mgr).inner.infos@[j].user_time + old(
                mgr,
            ).inner.infos@[j].kernel_time,
        ({
            let cur = old(mgr).inner.current_task as int;
            let dk = kernel_delta(*old(mgr), entry_cycles);
            let du = user_delta(entry_cycles, exit_cycles);
            let oldinfo = old(mgr).inner.infos@[cur];
            let newinfo = final(mgr).inner.infos@[cur];
            let frame = old(mgr).inner.trap_frames@[cur];
            let id = syscall_id_from_spec(frame.x17 as int);
            &&& (forall|j: int|
                0 <= j < old(mgr).inner.infos@.len() && j != cur ==> final(mgr).inner.infos@[j]
                    == old(mgr).inner.infos@[j])
            &&& newinfo.kernel_time == oldinfo.kernel_time + dk
            &&& newinfo.id == oldinfo.id
            &&& newinfo.name == oldinfo.name
            &&& newinfo.name_len == oldinfo.name_len
            &&& match cause {
                TrapCause::UserEnvCall => {
                    &&& newinfo.user_time == oldinfo.user_time + du
                    &&& (id != SyscallId::Unsupported ==> newinfo.call == crate::task::add_spec(
                        oldinfo.call,
                        id,
                    ))
                    &&& (id != SyscallId::Unsupported ==> {
                        &&& (if slot_index(oldinfo.call.inner@, id) < MAX_SYSCALL_NUM
                            || slot_index(oldinfo.call.inner@, SyscallId::Unsupported)
                            < MAX_SYSCALL_NUM {
                            newinfo.call.count_of(id) == oldinfo.call.count_of(id) + 1
                        } else {
                            newinfo.call.count_of(id) == oldinfo.call.count_of(id)
                        })
                        &&& forall|other: SyscallId|
                            other != id && other != SyscallId::Unsupported
                                ==> newinfo.call.count_of(other) == oldinfo.call.count_of(other)
                    })
                    &&& (id == SyscallId::Unsupported ==> newinfo.call == oldinfo.call)
                    &&& newinfo.status == (if id == SyscallId::Yield {
                        TaskStatus::Ready
                    } else if id == SyscallId::Exit {
                        TaskStatus::Exited
                    } else {
                        oldinfo.status
                    })
                    &&& (r matches TrapOutcome::Syscall(out) && {
                        let a0 = frame.x10;
                        let a1 = frame.x11;
                        let a2 = frame.x12;
                        let bounds_ok = current_buf_in_bounds(*old(mgr), a1 as int, a2 as int);
                        let info_ok = current_buf_in_bounds(*old(mgr), a0 as int, a1 as int);
                        let name = oldinfo.name_bytes();
                        &&& final(mgr).inner.trap_frames@ == old(mgr).inner.trap_frames@.update(
                            cur,
                            syscall_ret_frame(frame, out),
                        )
                        &&& match id {
                            SyscallId::Write => unswitched(*old(mgr), *final(mgr)) && (if !bounds_ok {
                                out == SyscallOutcome::Value(-1isize)
                            } else if a0 == FD_STDOUT {
                                out == (SyscallOutcome::Console {
                                    ret: a2 as isize,
                                    start: a1,
                                    len: a2,
                                })
                            } else {
                                out == SyscallOutcome::Fatal
                            }),
                            SyscallId::Exit => out matches SyscallOutcome::Exited { code, next }
                                && code == frame.x10 as i32 && exited_tasks(
                                *old(mgr),
                                *final(mgr),
                                next,
                            ),
                            SyscallId::Yield => out matches SyscallOutcome::Yielded { op }
                                && suspended_tasks(*old(mgr), *final(mgr), op),
                            SyscallId::GetTime => unswitched(*old(mgr), *final(mgr)) && (out
                                matches SyscallOutcome::Value(v) && v == get_time_ms_spec(
                                entry_cycles,
                            )),
                            SyscallId::GetTaskInfo => unswitched(*old(mgr), *final(mgr)) && (
                            if !info_ok {
                                out == SyscallOutcome::Value(-1isize)
                            } else if name.len() > a1 {
                                out == SyscallOutcome::Value(-1isize)
                            } else {
                                out matches SyscallOutcome::NameCopy { ret, dst, name: n } && ret
                                    == cur as isize && dst == a0 && n@ == name
                            }),
                            SyscallId::Unsupported => unswitched(*old(mgr), *final(mgr)) && out
                                == SyscallOutcome::Fatal,
                        }
                    })
                },
                TrapCause::SupervisorTimer => {
                    &&& newinfo.user_time == oldinfo.user_time
                    &&& newinfo.call == oldinfo.call
                    &&& newinfo.status == TaskStatus::Ready
                    &&& final(mgr).inner.trap_frames@ == old(mgr).inner.trap_frames@
                    &&& (r matches TrapOutcome::Preempted { op, deadline } && {
                        &&& deadline == entry_cycles + (CLOCK_FREQ / TICKS_PER_SEC) as int
                        &&& suspended_tasks(*old(mgr), *final(mgr), op)
                    })
                },
                TrapCause::Unknown => {
                    &&& newinfo.user_time == oldinfo.user_time
                    &&& newinfo.call == oldinfo.call
                    &&& newinfo.status == oldinfo.status
                    &&& final(mgr).inner.trap_frames@ == old(mgr).inner.trap_frames@
                    &&& final(mgr).inner.tasks@ == old(mgr).inner.tasks@
                    &&& final(mgr).inner.current_task == old(mgr).inner.current_task
                    &&& r == TrapOutcome::Unhandled
                },
                _ => {
                    // Store fault, store page fault, illegal instruction:
                    // fatal to the task, not to the kernel.
                    &&& newinfo.user_time == oldinfo.user_time
                    &&& newinfo.call == oldinfo.call
                    &&& newinfo.status == TaskStatus::Exited
                    &&& final(mgr).inner.trap_frames@ == old(mgr).inner.trap_frames@
                    &&& (r matches TrapOutcome::FaultExit(next) && exited_tasks(
                        *old(mgr),
                        *final(mgr),
                        next,
                    ))
                },
            }
        }),
{
    let entry_nanos = timer_now(entry_cycles);
    let exit_nanos = timer_now(exit_cycles);
    let dk = entry_nanos - mgr.get_timestamp();
    mgr.add_current_task_kernel_time(dk);
    mgr.set_timestamp(exit_nanos);
    match cause {
        TrapCause::UserEnvCall => {
            let current = mgr.get_current_task();
            let mut frame = mgr.inner.trap_frames[current];
            let raw = frame.x17;
            let a = [frame.x10, frame.x11, frame.x12];
            frame.sepc = frame.sepc + 4;
            mgr.inner.trap_frames[current] = frame;
            mgr.add_current_task_user_time(exit_nanos - entry_nanos);
            let id = SyscallId::from(raw);
            proof {
                let c = old(mgr).inner.infos@[old(mgr).inner.current_task as int].call;
                crate::task::lemma_slot_index_from_properties(
                    c.inner@,
                    syscall_id_from_spec(raw as int),
                    0,
                );
                crate::task::lemma_slot_index_from_properties(c.inner@, SyscallId::Unsupported, 0);
            }
            match id {
                SyscallId::Unsupported => {},
                _ => {
                    let _ = mgr.add_current_task_info_call_times(id);
                },
            }
            let out = syscall(mgr, raw, a, entry_cycles);
            let ret_write: Option<isize> = match &out {
                SyscallOutcome::Value(v) => Some(*v),
                SyscallOutcome::Console { ret, .. } => Some(*ret),
                SyscallOutcome::NameCopy { ret, .. } => Some(*ret),
                SyscallOutcome::Yielded { .. } => Some(0),
                SyscallOutcome::Exited { .. } => None,
                SyscallOutcome::Fatal => None,
            };
            match ret_write {
                Some(v) => {
                    let mut fr = mgr.inner.trap_frames[current];
                    fr.x10 = #[verifier::truncate] (v as usize);
                    mgr.inner.trap_frames[current] = fr;
                },
                None => {},
            }
            TrapOutcome::Syscall(out)
        },
        TrapCause::StoreFault | TrapCause::StorePageFault | TrapCause::IllegalInstruction => {
            let next = mgr.exit_current_and_run_next();
            TrapOutcome::FaultExit(next)
        },
        TrapCause::SupervisorTimer => {
            let deadline = set_next_trigger(entry_cycles);
            let op = mgr.suspend_current_and_run_next();
            TrapOutcome::Preempted { op, deadline }
        },
        TrapCause::Unknown => TrapOutcome::Unhandled,
    }
}

/// No scheduling happened: the task states and the cursor are as before.
pub open spec fn unswitched(o: TaskManager, f: TaskManager) -> bool {
    &&& f.inner.tasks@ == o.inner.tasks@
    &&& f.inner.current_task == o.inner.current_task
}

/// The task-state part of a suspension: the caller went back to `Ready`, the
/// scan picked the nearest ready task after it, and that task is the one
/// `Running` task and the new cursor.
pub open spec fn suspended_tasks(o: TaskManager, f: TaskManager, op: SwitchOp) -> bool {
    let cur = o.inner.current_task as int;
    let marked = status_update(o.inner.tasks@, cur, TaskStatus::Ready);
    &&& op.save == o.inner.current_task
    &&& 0 <= (op.load as int) < o.inner.tasks@.len()
    &&& find_next_spec(marked, cur) == Some(op.load as int)
    &&& f.inner.tasks@ == status_update(marked, op.load as int, crate::task::TaskStatus::Running)
    &&& running_only(f.inner.tasks@, op.load as int)
    &&& f.inner.current_task == op.load
}

/// The task-state part of an exit: the caller is `Exited` for good; either
/// the scan scheduled the nearest ready task, or none is left and the state
/// is final (the kernel halts).
pub open spec fn exited_tasks(o: TaskManager, f: TaskManager, r: Option<SwitchOp>) -> bool {
    let cur = o.inner.current_task as int;
    let marked = status_update(o.inner.tasks@, cur, TaskStatus::Exited);
    match r {
        Some(op) => {
            &&& op.save == o.inner.current_task
            &&& 0 <= (op.load as int) < o.inner.tasks@.len()
            &&& find_next_spec(marked, cur) == Some(op.load as int)
            &&& f.inner.tasks@ == status_update(
                marked,
                op.load as int,
                TaskStatus::Running,
            )
            &&& running_only(f.inner.tasks@, op.load as int)
            &&& f.inner.current_task == op.load
        },
        None => {
            &&& !exists_ready(marked)
            &&& f.inner.tasks@ == marked
            &&& f.inner.current_task == o.inner.current_task
        },
    }
}

} // verus!
