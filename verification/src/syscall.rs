//! The syscall layer: the recognized syscall ids (values fixed for binary
//! compatibility with the user programs), the memory-bounds check every
//! buffer-taking syscall shares, and the dispatcher that maps an id and three
//! raw argument registers to the syscall's decision.

use vstd::prelude::*;

use crate::config::{APP_SIZE_LIMIT, USER_STACK_SIZE};
use crate::loader::{app_base_spec, user_stack_base_spec, Region};
use crate::task_manager::{exit_transition, suspend_transition, SwitchOp, TaskManager};
use crate::timer::{get_time_ms, get_time_ms_spec};

verus! {

/// Slots in each task's per-syscall invocation counter table.
pub const MAX_SYSCALL_NUM: usize = 8;

/// Raw id of `write`.
pub const SYSCALL_WRITE: usize = 64;

/// Raw id of `exit`.
pub const SYSCALL_EXIT: usize = 93;

/// Raw id of `yield`.
pub const SYSCALL_YIELD: usize = 124;

/// Raw id of `get_time`.
pub const SYSCALL_GET_TIME: usize = 169;

/// Raw id of `get_taskinfo`.
pub const SYSCALL_GET_TASKINFO: usize = 233;

/// The recognized syscalls.  `Unsupported` stands for every other raw id and
/// doubles as the "free slot" marker of the invocation counter table.
#[derive(Clone, Copy, PartialEq, Eq, Structural, Debug)]
pub enum SyscallId {
    Write,
    Exit,
    Yield,
    GetTime,
    GetTaskInfo,
    Unsupported,
}

/// The id a raw syscall register value decodes to.
pub open spec fn syscall_id_from_spec(v: int) -> SyscallId {
    if v == SYSCALL_WRITE {
        SyscallId::Write
    } else if v == SYSCALL_EXIT {
        SyscallId::Exit
    } else if v == SYSCALL_YIELD {
        SyscallId::Yield
    } else if v == SYSCALL_GET_TIME {
        SyscallId::GetTime
    } else if v == SYSCALL_GET_TASKINFO {
        SyscallId::GetTaskInfo
    } else {
        SyscallId::Unsupported
    }
}

impl vstd::std_specs::convert::FromSpecImpl<usize> for SyscallId {
    open spec fn obeys_from_spec() -> bool {
        true
    }

    open spec fn from_spec(v: usize) -> Self {
        syscall_id_from_spec(v as int)
    }
}

impl From<usize> for SyscallId {
    fn from(v: usize) -> (r: Self) {
        if v == SYSCALL_WRITE {
            SyscallId::Write
        } else if v == SYSCALL_EXIT {
            SyscallId::Exit
        } else if v == SYSCALL_YIELD {
            SyscallId::Yield
        } else if v == SYSCALL_GET_TIME {
            SyscallId::GetTime
        } else if v == SYSCALL_GET_TASKINFO {
            SyscallId::GetTaskInfo
        } else {
            SyscallId::Unsupported
        }
    }
}

/// The buffer `[buf, buf + len)` is acceptable from a task whose user stack
/// is `stack` and whose data slot is `data`: it lies entirely inside one of
/// the two regions the task owns.
pub open spec fn buf_in_bounds(stack: Region, data: Region, buf: int, len: int) -> bool {
    stack.spec_contains_buf(buf, len) || data.spec_contains_buf(buf, len)
}

/// The bounds check substituting for page-table isolation: a user-supplied
/// buffer is accepted only if it lies entirely inside the calling task's own
/// user stack region or its own data region.
pub fn check_buf(stack: Region, data: Region, buf: usize, len: usize) -> (ok: bool)
    requires
        stack.wf(),
        data.wf(),
    ensures
        ok == buf_in_bounds(stack, data, buf as int, len as int),
{
    stack.contains_buf(buf, len) || data.contains_buf(buf, len)
}

/// The file descriptor of the console, the only one `write` supports.
pub const FD_STDOUT: usize = 1;

/// The user stack region of the task the cursor points at.
pub open spec fn current_stack_region(mgr: TaskManager) -> Region {
    Region {
        start: user_stack_base_spec(mgr.inner.current_task as int) as usize,
        end: (user_stack_base_spec(mgr.inner.current_task as int) + USER_STACK_SIZE) as usize,
    }
}

/// The application data region of the task the cursor points at.
pub open spec fn current_data_region(mgr: TaskManager) -> Region {
    Region {
        start: app_base_spec(mgr.inner.current_task as int) as usize,
        end: (app_base_spec(mgr.inner.current_task as int) + APP_SIZE_LIMIT) as usize,
    }
}

/// A user buffer lies inside the current task's own stack or data region.
pub open spec fn current_buf_in_bounds(mgr: TaskManager, buf: int, len: int) -> bool {
    buf_in_bounds(current_stack_region(mgr), current_data_region(mgr), buf, len)
}

/// Decision of the `write` syscall.
#[derive(Clone, Copy, PartialEq, Eq, Structural, Debug)]
pub enum WriteResult {
    /// The buffer leaves the caller's own regions; the syscall fails with
    /// the negative sentinel -1 and the kernel touches nothing.
    OutOfBounds,
    /// Accepted: the runtime prints the `len` bytes at `start` and the
    /// syscall returns `len`.
    Console { start: usize, len: usize },
    /// A file descriptor other than the console: fatal to the kernel.
    BadFd,
}

/// Write `len` bytes at `buf` to file descriptor `fd`: decide whether the
/// buffer is the caller's to hand out and whether the descriptor is
/// supported.  The byte copy itself is the runtime's.
pub fn sys_write(mgr: &TaskManager, fd: usize, buf: usize, len: usize) -> (r: WriteResult)
    requires
        mgr.wf(),
    ensures
        r == (if !current_buf_in_bounds(*mgr, buf as int, len as int) {
            WriteResult::OutOfBounds
        } else if fd == FD_STDOUT {
            WriteResult::Console { start: buf, len }
        } else {
            WriteResult::BadFd
        }),
{
    let stack = mgr.get_current_task_stack().get_stack();
    let data = mgr.get_current_task_data_section();
    if !check_buf(stack, data, buf, len) {
        return WriteResult::OutOfBounds;
    }
    if fd == FD_STDOUT {
        WriteResult::Console { start: buf, len }
    } else {
        WriteResult::BadFd
    }
}

/// Voluntary yield: suspend the caller and schedule the next ready task.
/// The syscall returns 0 to the caller once it is resumed.
pub fn sys_yield(mgr: &mut TaskManager) -> (op: SwitchOp)
    requires
        old(mgr).wf(),
        old(mgr).inner.tasks@[old(mgr).inner.current_task as int].task_status
            == crate::task::TaskStatus::Running,
    ensures
        final(mgr).wf(),
        suspend_transition(old(mgr).inner, final(mgr).inner, op),
{
    mgr.suspend_current_and_run_next()
}

/// Milliseconds since boot, as a signed integer.  The count must fit the
/// return-value register, which caps the modelled uptime.
pub fn sys_get_time(now_cycles: u64) -> (t: isize)
    requires
        get_time_ms_spec(now_cycles) <= isize::MAX,
    ensures
        t == get_time_ms_spec(now_cycles),
        t >= 0,
{
    let ms = get_time_ms(now_cycles);
    proof {
        crate::timer::lemma_get_time_ms_fits(now_cycles);
    }
    ms as isize
}

/// Decision of the `get_taskinfo` syscall.
#[derive(Clone, PartialEq, Eq, Debug)]
pub enum TaskInfoResult {
    /// The buffer leaves the caller's own regions: the syscall returns -1.
    OutOfBounds,
    /// The buffer is too small for the name; truncation is rejected rather
    /// than silent: the syscall returns -1.
    NameTooLong,
    /// Accepted: the syscall returns the caller's own id `id`, and the
    /// runtime copies `name` to the user address `dst`.
    Copied { id: usize, dst: usize, name: Vec<u8> },
}

/// Report the calling task's id and copy its display name into the caller's
/// buffer, after the bounds check and a strict length check.
pub fn sys_get_taskinfo(mgr: &TaskManager, buf: usize, len: usize) -> (r: TaskInfoResult)
    requires
        mgr.wf(),
    ensures
        ({
            let cur = mgr.inner.current_task as int;
            let name = mgr.inner.infos@[cur].name_bytes();
            if !current_buf_in_bounds(*mgr, buf as int, len as int) {
                r == TaskInfoResult::OutOfBounds
            } else if name.len() > len {
                r == TaskInfoResult::NameTooLong
            } else {
                r matches TaskInfoResult::Copied { id, dst, name: n } && id
                    == mgr.inner.current_task && dst == buf && n@ == name
            }
        }),
{
    let stack = mgr.get_current_task_stack().get_stack();
    let data = mgr.get_current_task_data_section();
    if !check_buf(stack, data, buf, len) {
        return TaskInfoResult::OutOfBounds;
    }
    let task_id = mgr.get_current_task();
    let name = mgr.get_current_task_name();
    if name.len() > len {
        return TaskInfoResult::NameTooLong;
    }
    TaskInfoResult::Copied { id: task_id, dst: buf, name }
}

/// What a dispatched syscall asks of the hosting runtime.
#[derive(Clone, PartialEq, Eq, Debug)]
pub enum SyscallOutcome {
    /// The syscall is done; write `ret` into the caller's return-value
    /// register and return to user mode.
    Value(isize),
    /// Print the `len` bytes at `start` (validated to be the caller's own),
    /// write `ret`, and return to user mode.
    Console { ret: isize, start: usize, len: usize },
    /// Copy `name` to the user address `dst` (validated), write `ret`, and
    /// return to user mode.
    NameCopy { ret: isize, dst: usize, name: Vec<u8> },
    /// The caller yielded: its return-value register already holds 0;
    /// perform the switch.
    Yielded { op: SwitchOp },
    /// The caller exited with `code`: print the code, then perform the
    /// switch, or halt ("all applications completed") on `None`.
    Exited { code: i32, next: Option<SwitchOp> },
    /// Unsupported syscall id or file descriptor: fatal to the kernel.
    Fatal,
}

/// Dispatch a syscall by raw id: decode the id, run the matching syscall on
/// the three raw argument registers, and say what the runtime must do.
/// `now_cycles` is the sampled clock `get_time` reports.
pub fn syscall(mgr: &mut TaskManager, syscall_id_raw: usize, args: [usize; 3], now_cycles: u64) -> (r:
    SyscallOutcome)
    requires
        old(mgr).wf(),
        syscall_id_from_spec(syscall_id_raw as int) == SyscallId::GetTime ==> get_time_ms_spec(
            now_cycles,
        ) <= isize::MAX,
        // yield and exit suspend the caller, which must be the running task
        (syscall_id_from_spec(syscall_id_raw as int) == SyscallId::Yield || syscall_id_from_spec(
            syscall_id_raw as int,
        ) == SyscallId::Exit) ==> old(mgr).inner.tasks@[old(mgr).inner.current_task as int].task_status
            == crate::task::TaskStatus::Running,
    ensures
        final(mgr).wf(),
        ({
            let id = syscall_id_from_spec(syscall_id_raw as int);
            let bounds_ok = current_buf_in_bounds(*old(mgr), args[1] as int, args[2] as int);
            let info_ok = current_buf_in_bounds(*old(mgr), args[0] as int, args[1] as int);
            let cur = old(mgr).inner.current_task as int;
            let name = old(mgr).inner.infos@[cur].name_bytes();
            match id {
                SyscallId::Write => *final(mgr) == *old(mgr) && (if !bounds_ok {
                    r == SyscallOutcome::Value(-1isize)
                } else if args[0] == FD_STDOUT {
                    r == (SyscallOutcome::Console {
                        ret: args[2] as isize,
                        start: args[1],
                        len: args[2],
                    })
                } else {
                    r == SyscallOutcome::Fatal
                }),
                SyscallId::Exit => r matches SyscallOutcome::Exited { code, next } && code == (
                args[0] as i32) && exit_transition(old(mgr).inner, final(mgr).inner, next),
                SyscallId::Yield => r matches SyscallOutcome::Yielded { op } && suspend_transition(
                    old(mgr).inner,
                    final(mgr).inner,
                    op,
                ),
                SyscallId::GetTime => *final(mgr) == *old(mgr) && (r matches SyscallOutcome::Value(v)
                    && v == get_time_ms_spec(now_cycles)),
                SyscallId::GetTaskInfo => *final(mgr) == *old(mgr) && (if !info_ok {
                    r == SyscallOutcome::Value(-1isize)
                } else if name.len() > args[1] {
                    r == SyscallOutcome::Value(-1isize)
                } else {
                    r matches SyscallOutcome::NameCopy { ret, dst, name: n } && ret == cur as isize
                        && dst == args[0] && n@ == name
                }),
                SyscallId::Unsupported => *final(mgr) == *old(mgr) && r == SyscallOutcome::Fatal,
            }
        }),
{
    let syscall_id = SyscallId::from(syscall_id_raw);
    match syscall_id {
        SyscallId::Write => {
            match sys_write(mgr, args[0], args[1], args[2]) {
                WriteResult::OutOfBounds => SyscallOutcome::Value(-1),
                WriteResult::Console { start, len } => {
                    proof {
                        lemma_bounded_len(*mgr, args[1] as int, args[2] as int);
                    }
                    SyscallOutcome::Console { ret: len as isize, start, len }
                },
                WriteResult::BadFd => SyscallOutcome::Fatal,
            }
        },
        SyscallId::Exit => {
            let code = args[0] as i32;
            let next = mgr.exit_current_and_run_next();
            SyscallOutcome::Exited { code, next }
        },
        SyscallId::Yield => {
            let op = sys_yield(mgr);
            SyscallOutcome::Yielded { op }
        },
        SyscallId::GetTime => SyscallOutcome::Value(sys_get_time(now_cycles)),
        SyscallId::GetTaskInfo => {
            match sys_get_taskinfo(mgr, args[0], args[1]) {
                TaskInfoResult::OutOfBounds => SyscallOutcome::Value(-1),
                TaskInfoResult::NameTooLong => SyscallOutcome::Value(-1),
                TaskInfoResult::Copied { id, dst, name } => {
                    SyscallOutcome::NameCopy { ret: id as isize, dst, name }
                },
            }
        },
        SyscallId::Unsupported => SyscallOutcome::Fatal,
    }
}

/// Isolation across tasks: a non-empty buffer lying entirely inside another
/// task's user stack or data region is never accepted by the current task's
/// bounds check, because the fixed-stride slots of distinct tasks are
/// disjoint by construction.
pub proof fn lemma_other_task_buf_rejected(mgr: TaskManager, other: int, buf: int, len: int)
    requires
        mgr.wf(),
        0 <= other < crate::config::MAX_APP_NUM,
        other != mgr.inner.current_task as int,
        1 <= len,
        ({
            let ostack = Region {
                start: user_stack_base_spec(other) as usize,
                end: (user_stack_base_spec(other) + USER_STACK_SIZE) as usize,
            };
            let odata = Region {
                start: app_base_spec(other) as usize,
                end: (app_base_spec(other) + APP_SIZE_LIMIT) as usize,
            };
            ostack.spec_contains_buf(buf, len) || odata.spec_contains_buf(buf, len)
        }),
    ensures
        !current_buf_in_bounds(mgr, buf, len),
{
    let cur = mgr.inner.current_task as int;
    assert(0 <= cur < crate::config::MAX_APP_NUM);
    assert(user_stack_base_spec(cur) == 0x80300000 + cur * 8192);
    assert(user_stack_base_spec(other) == 0x80300000 + other * 8192);
    assert(app_base_spec(cur) == 0x80400000 + cur * 0x200000);
    assert(app_base_spec(other) == 0x80400000 + other * 0x200000);
    assert(0 <= user_stack_base_spec(cur) + USER_STACK_SIZE < 0x1_0000_0000);
    assert(0 <= user_stack_base_spec(other) + USER_STACK_SIZE < 0x1_0000_0000);
    assert(0 <= app_base_spec(cur) + APP_SIZE_LIMIT < 0x1_0000_0000);
    assert(0 <= app_base_spec(other) + APP_SIZE_LIMIT < 0x1_0000_0000);
    assert(usize::MAX >= 0xffff_ffff);
}

/// A buffer accepted by the bounds check is no longer than a region, so its
/// length is far below `isize::MAX` and survives the cast to the syscall's
/// signed return value.
proof fn lemma_bounded_len(mgr: TaskManager, buf: int, len: int)
    requires
        mgr.inner.current_task < crate::config::MAX_APP_NUM,
        current_buf_in_bounds(mgr, buf, len),
        0 <= len,
    ensures
        len <= APP_SIZE_LIMIT,
{
    let cur = mgr.inner.current_task as int;
    let sb = user_stack_base_spec(cur);
    let db = app_base_spec(cur);
    assert(0 <= cur < 16);
    assert(sb == 0x80300000 + cur * 8192);
    assert(db == 0x80400000 + cur * 0x200000);
    assert(0 <= sb && sb + USER_STACK_SIZE < 0x1_0000_0000);
    assert(0 <= db && db + APP_SIZE_LIMIT < 0x1_0000_0000);
    assert(usize::MAX >= 0xffff_ffff);
    assert(current_stack_region(mgr).start == sb);
    assert(current_stack_region(mgr).end == sb + USER_STACK_SIZE);
    assert(current_data_region(mgr).start == db);
    assert(current_data_region(mgr).end == db + APP_SIZE_LIMIT);
}

} // verus!
