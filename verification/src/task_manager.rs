//! The task manager: owner of the task control blocks, the stack-resident
//! trap frames and the per-task accounting, and home of the round-robin
//! scheduler.
//!
//! A context switch is a non-local jump that never returns to its caller in
//! program order, so the manager does not perform it: a scheduling method
//! updates the task states and hands back a [`SwitchOp`] naming the context
//! to save into and the context to load, and the hosting runtime makes the
//! jump.  The manager is a single explicitly constructed object with
//! single-threaded access discipline; exclusive access is the `&mut`
//! receiver.

use vstd::prelude::*;

use crate::config::{KERNEL_STACK_SIZE, MAX_APP_NUM, MAX_NAME_LEN, NANOS_PER_CYCLE, USER_STACK_SIZE};
use crate::loader::{
    app_base_spec, app_data_region, init_app_cx, kernel_stack_base_spec, user_stack,
    user_stack_base_spec, Region, UserStack,
};
use crate::syscall::SyscallId;
use crate::task::{slot_index, Call, TaskControlBlock, TaskInfo, TaskStatus};
use crate::task_context::{TaskContext, TRAP_EXIT_ENTRY};
use crate::trap_context::{PrivilegeLevel, TrapContext, TRAP_CONTEXT_SIZE};

verus! {

/// A context switch the runtime must perform: store the running kernel
/// path's registers into task `save`'s context, load task `load`'s.
#[derive(Clone, Copy, PartialEq, Eq, Structural, Debug)]
pub struct SwitchOp {
    pub save: usize,
    pub load: usize,
}

/// The manager's exclusively owned state.
pub struct TaskManagerInner {
    /// Accounting records, index = task id.
    pub infos: Vec<TaskInfo>,
    /// Task control blocks, index = task id.
    pub tasks: Vec<TaskControlBlock>,
    /// The trap frame at the top of each task's kernel stack.
    pub trap_frames: Vec<TrapContext>,
    /// Scheduler cursor: the task the CPU belongs to.
    pub current_task: usize,
    /// Nanosecond timestamp of the last accounting update.
    pub timestamp: u64,
}

/// The process-wide task manager, constructed once at boot.
pub struct TaskManager {
    pub inner: TaskManagerInner,
}

/// Task `i` is ready to be scheduled.
pub open spec fn task_ready(tasks: Seq<TaskControlBlock>, i: int) -> bool {
    tasks[i].task_status == TaskStatus::Ready
}

/// Some task is ready to be scheduled.
pub open spec fn exists_ready(tasks: Seq<TaskControlBlock>) -> bool {
    exists|i: int| 0 <= i < tasks.len() && task_ready(tasks, i)
}

/// No task is running (the state between suspending one task and scheduling
/// the next, and before the first switch).
pub open spec fn none_running(tasks: Seq<TaskControlBlock>) -> bool {
    forall|i: int| 0 <= i < tasks.len() ==> tasks[i].task_status != TaskStatus::Running
}

/// Task `c` is running and no other task is.
pub open spec fn running_only(tasks: Seq<TaskControlBlock>, c: int) -> bool {
    forall|i: int|
        0 <= i < tasks.len() ==> ((tasks[i].task_status == TaskStatus::Running) <==> i == c)
}

/// The task index `k` cyclic steps after `c`, for `0 <= c < n` and
/// `1 <= k <= n`.
pub open spec fn cyc_index(c: int, k: int, n: int) -> int {
    if c + k < n {
        c + k
    } else {
        c + k - n
    }
}

/// Cyclic distance from `c` forward to `j`, for `0 <= c, j < n`: the number
/// of steps the scan takes to reach `j`, in `1..=n` (`n` for `j == c`).
pub open spec fn cyc_dist(c: int, j: int, n: int) -> int {
    if j > c {
        j - c
    } else {
        j + n - c
    }
}

/// First ready task at cyclic offset `k` or more after `c`, scanning in
/// increasing offset order; `None` once every offset up to `n` is exhausted.
pub open spec fn find_from(tasks: Seq<TaskControlBlock>, c: int, k: int) -> Option<int>
    decreases tasks.len() + 1 - k,
{
    let n = tasks.len() as int;
    if k < 1 || k > n {
        None
    } else if task_ready(tasks, cyc_index(c, k, n)) {
        Some(cyc_index(c, k, n))
    } else {
        find_from(tasks, c, k + 1)
    }
}

/// The task the round-robin scan starting after `c` selects: the first
/// `Ready` task in the cyclic index order `c+1, c+2, ..., c+n`.
pub open spec fn find_next_spec(tasks: Seq<TaskControlBlock>, c: int) -> Option<int> {
    find_from(tasks, c, 1)
}

/// The status the accounting record caches: the scheduler writes `Ready` and
/// `Exited` through to the record but does not write `Running`, so a running
/// task's record still shows `Ready`.
pub open spec fn cached_status(s: TaskStatus) -> TaskStatus {
    if s == TaskStatus::Running {
        TaskStatus::Ready
    } else {
        s
    }
}

/// `tasks` with task `i`'s status replaced by `st` (its context kept).
pub open spec fn status_update(
    tasks: Seq<TaskControlBlock>,
    i: int,
    st: TaskStatus,
) -> Seq<TaskControlBlock> {
    tasks.update(i, TaskControlBlock { task_status: st, ..tasks[i] })
}

/// `infos` with record `i`'s cached status replaced by `st`.
pub open spec fn info_status_update(infos: Seq<TaskInfo>, i: int, st: TaskStatus) -> Seq<TaskInfo> {
    infos.update(i, TaskInfo { status: st, ..infos[i] })
}

/// The manager state change of a voluntary suspension: the current task goes
/// back to `Ready`, the round-robin scan picks the next ready task (at worst
/// the suspended one itself), and that task becomes the one `Running` task.
pub open spec fn suspend_transition(o: TaskManagerInner, f: TaskManagerInner, op: SwitchOp) -> bool {
    let cur = o.current_task as int;
    let marked = status_update(o.tasks@, cur, TaskStatus::Ready);
    &&& op.save == o.current_task
    &&& 0 <= (op.load as int) < o.tasks@.len()
    &&& find_next_spec(marked, cur) == Some(op.load as int)
    &&& f.tasks@ == status_update(marked, op.load as int, TaskStatus::Running)
    &&& running_only(f.tasks@, op.load as int)
    &&& f.current_task == op.load
    &&& f.infos@ == info_status_update(o.infos@, cur, TaskStatus::Ready)
    &&& f.trap_frames@ == o.trap_frames@
    &&& f.timestamp == o.timestamp
}

/// The manager state change of an exit: the current task becomes `Exited`
/// for good; if any task is still ready the scan schedules it, otherwise the
/// state is final and the kernel halts.
pub open spec fn exit_transition(o: TaskManagerInner, f: TaskManagerInner, r: Option<SwitchOp>) -> bool {
    let cur = o.current_task as int;
    let marked = status_update(o.tasks@, cur, TaskStatus::Exited);
    &&& f.infos@ == info_status_update(o.infos@, cur, TaskStatus::Exited)
    &&& f.trap_frames@ == o.trap_frames@
    &&& f.timestamp == o.timestamp
    &&& match r {
        Some(op) => {
            &&& op.save == o.current_task
            &&& 0 <= (op.load as int) < o.tasks@.len()
            &&& find_next_spec(marked, cur) == Some(op.load as int)
            &&& f.tasks@ == status_update(marked, op.load as int, TaskStatus::Running)
            &&& running_only(f.tasks@, op.load as int)
            &&& f.current_task == op.load
        },
        None => {
            &&& !exists_ready(marked)
            &&& f.tasks@ == marked
            &&& f.current_task == o.current_task
        },
    }
}

/// Boot state of one task slot: `Ready`, a first-resumption context that
/// enters the trap exit sequence on its own kernel stack, a trap frame that
/// lands at the task's entry point in user mode on its own user stack, and a
/// zeroed accounting record carrying the task's id and name.
pub open spec fn boot_task_state(
    t: TaskControlBlock,
    info: TaskInfo,
    frame: TrapContext,
    i: int,
    name: Seq<u8>,
) -> bool {
    &&& t.task_status == TaskStatus::Ready
    &&& t.task_cx.ra == TRAP_EXIT_ENTRY
    &&& t.task_cx.sp == kernel_stack_base_spec(i) + KERNEL_STACK_SIZE - TRAP_CONTEXT_SIZE
    &&& forall|k: int| 0 <= k < 12 ==> t.task_cx.s[k] == 0
    &&& frame.sepc == app_base_spec(i)
    &&& frame.x2 == user_stack_base_spec(i) + USER_STACK_SIZE
    &&& frame.sstatus.spp == PrivilegeLevel::User
    &&& frame.regs_zero()
    &&& info.wf()
    &&& info.id == i
    &&& info.status == TaskStatus::Ready
    &&& info.name_bytes() == name
    &&& info.user_time == 0
    &&& info.kernel_time == 0
    &&& forall|id: SyscallId| info.call.count_of(id) == 0
}

impl TaskManagerInner {
    /// Number of configured tasks.
    pub open spec fn n(self) -> int {
        self.tasks@.len() as int
    }

    /// The manager's invariant: parallel arrays of equal length, a cursor in
    /// range, records carrying their own index with well-formed counter
    /// tables, only the current task possibly `Running`, and the cached
    /// status mirror in step with the real status.
    pub open spec fn wf(self) -> bool {
        &&& 1 <= self.n() <= MAX_APP_NUM
        &&& self.infos@.len() == self.n()
        &&& self.trap_frames@.len() == self.n()
        &&& self.current_task < self.n()
        &&& forall|i: int| 0 <= i < self.n() ==> (#[trigger] self.infos@[i]).id == i
        &&& forall|i: int| 0 <= i < self.n() ==> (#[trigger] self.infos@[i]).wf()
        &&& forall|i: int|
            0 <= i < self.n() && (#[trigger] self.tasks@[i]).task_status == TaskStatus::Running
                ==> i == self.current_task
        &&& forall|i: int|
            0 <= i < self.n() ==> (#[trigger] self.infos@[i]).status == cached_status(
                self.tasks@[i].task_status,
            )
    }
}

impl TaskManager {
    pub open spec fn wf(self) -> bool {
        self.inner.wf()
    }

    /// Number of configured tasks.
    pub open spec fn n(self) -> int {
        self.inner.n()
    }

    /// Boot: configure one `Ready` task per name, each with a trap frame at
    /// the top of its own kernel stack whose saved program counter is the
    /// task's entry address, and a first-resumption context that enters the
    /// trap exit sequence; the cursor starts at task 0 and nothing runs yet.
    pub fn init(names: &Vec<Vec<u8>>) -> (mgr: Self)
        requires
            1 <= names@.len() <= MAX_APP_NUM,
            forall|i: int| 0 <= i < names@.len() ==> (#[trigger] names@[i])@.len() <= MAX_NAME_LEN,
        ensures
            mgr.wf(),
            mgr.n() == names@.len(),
            mgr.inner.current_task == 0,
            mgr.inner.timestamp == 0,
            none_running(mgr.inner.tasks@),
            forall|i: int|
                0 <= i < names@.len() ==> boot_task_state(
                    #[trigger] mgr.inner.tasks@[i],
                    mgr.inner.infos@[i],
                    mgr.inner.trap_frames@[i],
                    i,
                    names@[i]@,
                ),
    {
        let n = names.len();
        let mut tasks: Vec<TaskControlBlock> = Vec::new();
        let mut infos: Vec<TaskInfo> = Vec::new();
        let mut trap_frames: Vec<TrapContext> = Vec::new();
        let mut app_id: usize = 0;
        while app_id < n
            invariant
                0 <= app_id <= n,
                1 <= n <= MAX_APP_NUM,
                n == names@.len(),
                forall|i: int| 0 <= i < n ==> (#[trigger] names@[i])@.len() <= MAX_NAME_LEN,
                tasks@.len() == app_id,
                infos@.len() == app_id,
                trap_frames@.len() == app_id,
                forall|i: int|
                    0 <= i < app_id ==> boot_task_state(
                        #[trigger] tasks@[i],
                        infos@[i],
                        trap_frames@[i],
                        i,
                        names@[i]@,
                    ),
            decreases n - app_id,
        {
            let (cx, cx_addr) = init_app_cx(app_id);
            let mut tcb = TaskControlBlock::zero_init();
            tcb.task_cx = TaskContext::goto_restore(cx_addr);
            tcb.task_status = TaskStatus::Ready;
            tasks.push(tcb);
            trap_frames.push(cx);
            infos.push(TaskInfo::boot_init(app_id, &names[app_id]));
            app_id = app_id + 1;
        }
        let mgr = TaskManager {
            inner: TaskManagerInner { infos, tasks, trap_frames, current_task: 0, timestamp: 0 },
        };
        proof {
            assert forall|i: int| 0 <= i < mgr.inner.n() implies {
                &&& (#[trigger] mgr.inner.infos@[i]).id == i
                &&& mgr.inner.infos@[i].wf()
                &&& mgr.inner.infos@[i].status == cached_status(mgr.inner.tasks@[i].task_status)
                &&& mgr.inner.tasks@[i].task_status != TaskStatus::Running
            } by {
                assert(boot_task_state(
                    mgr.inner.tasks@[i],
                    mgr.inner.infos@[i],
                    mgr.inner.trap_frames@[i],
                    i,
                    names@[i]@,
                ));
            }
        }
        mgr
    }

    /// Scheduler cursor: the task the CPU currently belongs to.
    pub fn get_current_task(&self) -> (id: usize)
        ensures
            id == self.inner.current_task,
    {
        self.inner.current_task
    }

    /// A copy of the current task's display name.
    pub fn get_current_task_name(&self) -> (name: Vec<u8>)
        requires
            self.wf(),
        ensures
            name@ == self.inner.infos@[self.inner.current_task as int].name_bytes(),
    {
        let info = &self.inner.infos[self.inner.current_task];
        info.get_name()
    }

    /// The current task's real scheduling status.
    pub fn get_current_task_status(&self) -> (status: TaskStatus)
        requires
            self.wf(),
        ensures
            status == self.inner.tasks@[self.inner.current_task as int].task_status,
    {
        self.inner.tasks[self.inner.current_task].task_status
    }

    /// The current task's user stack slot.
    pub fn get_current_task_stack(&self) -> (stack: UserStack)
        requires
            self.wf(),
        ensures
            stack.base == user_stack_base_spec(self.inner.current_task as int),
    {
        user_stack(self.inner.current_task)
    }

    /// The current task's application data slot.
    pub fn get_current_task_data_section(&self) -> (r: Region)
        requires
            self.wf(),
        ensures
            r.start == app_base_spec(self.inner.current_task as int),
            r.end == app_base_spec(self.inner.current_task as int) + crate::config::APP_SIZE_LIMIT,
            r.wf(),
    {
        app_data_region(self.inner.current_task)
    }

    /// A copy of the current task's accounting record.
    pub fn get_current_task_info(&self) -> (info: TaskInfo)
        requires
            self.wf(),
        ensures
            info == self.inner.infos@[self.inner.current_task as int],
    {
        self.inner.infos[self.inner.current_task]
    }

    /// The round-robin scan: the first `Ready` task in cyclic index order
    /// after the current one, if any task is ready at all.
    pub fn find_next_task(&self) -> (r: Option<usize>)
        requires
            self.wf(),
        ensures
            match r {
                Some(id) => id < self.n() && find_next_spec(
                    self.inner.tasks@,
                    self.inner.current_task as int,
                ) == Some(id as int),
                None => find_next_spec(self.inner.tasks@, self.inner.current_task as int)
                    is None,
            },
    {
        let n = self.inner.tasks.len();
        let current = self.inner.current_task;
        let ghost tasks = self.inner.tasks@;
        let mut k: usize = 1;
        while k <= n
            invariant
                1 <= k <= n + 1,
                1 <= n <= MAX_APP_NUM,
                n == tasks.len(),
                tasks == self.inner.tasks@,
                current == self.inner.current_task,
                current < n,
                find_next_spec(tasks, current as int) == find_from(tasks, current as int, k as int),
            decreases n + 1 - k,
        {
            let id = if current + k < n {
                current + k
            } else {
                current + k - n
            };
            if self.inner.tasks[id].task_status == TaskStatus::Ready {
                return Some(id);
            }
            k = k + 1;
        }
        None
    }
}

impl TaskManager {
    /// Start multiplexing: task 0 (already `Ready` from boot) becomes the one
    /// `Running` task and the accounting clock starts at `now_nanos`.  The
    /// runtime then loads task 0's context (the save side of this first
    /// switch is a throwaway context).
    pub fn run_first_task(&mut self, now_nanos: u64)
        requires
            old(self).wf(),
            none_running(old(self).inner.tasks@),
            task_ready(old(self).inner.tasks@, 0),
            old(self).inner.current_task == 0,
        ensures
            final(self).wf(),
            final(self).inner.tasks@ == old(self).inner.tasks@.update(
                0,
                (TaskControlBlock {
                    task_status: TaskStatus::Running,
                    ..old(self).inner.tasks@[0]
                }),
            ),
            running_only(final(self).inner.tasks@, 0),
            final(self).inner.current_task == 0,
            final(self).inner.timestamp == now_nanos,
            final(self).inner.infos == old(self).inner.infos,
            final(self).inner.trap_frames == old(self).inner.trap_frames,
    {
        let mut task0 = self.inner.tasks[0];
        task0.task_status = TaskStatus::Running;
        self.inner.tasks[0] = task0;
        self.inner.timestamp = now_nanos;
    }

    /// Change the status of the current `Running` task into `Ready`.
    pub fn mark_current_suspended(&mut self)
        requires
            old(self).wf(),
            old(self).inner.tasks@[old(self).inner.current_task as int].task_status
                == TaskStatus::Running,
        ensures
            final(self).wf(),
            final(self).inner.tasks@ == old(self).inner.tasks@.update(
                old(self).inner.current_task as int,
                (TaskControlBlock {
                    task_status: TaskStatus::Ready,
                    ..old(self).inner.tasks@[old(self).inner.current_task as int]
                }),
            ),
            final(self).inner.infos@ == old(self).inner.infos@.update(
                old(self).inner.current_task as int,
                (TaskInfo {
                    status: TaskStatus::Ready,
                    ..old(self).inner.infos@[old(self).inner.current_task as int]
                }),
            ),
            none_running(final(self).inner.tasks@),
            final(self).inner.current_task == old(self).inner.current_task,
            final(self).inner.timestamp == old(self).inner.timestamp,
            final(self).inner.trap_frames == old(self).inner.trap_frames,
    {
        let current = self.inner.current_task;
        let mut tcb = self.inner.tasks[current];
        tcb.task_status = TaskStatus::Ready;
        self.inner.tasks[current] = tcb;
        let mut info = self.inner.infos[current];
        info.status = TaskStatus::Ready;
        self.inner.infos[current] = info;
    }

    /// Change the status of the current `Running` task into `Exited`; the
    /// task is never scheduled again.
    pub fn mark_current_exited(&mut self)
        requires
            old(self).wf(),
            old(self).inner.tasks@[old(self).inner.current_task as int].task_status
                == TaskStatus::Running,
        ensures
            final(self).wf(),
            final(self).inner.tasks@ == old(self).inner.tasks@.update(
                old(self).inner.current_task as int,
                (TaskControlBlock {
                    task_status: TaskStatus::Exited,
                    ..old(self).inner.tasks@[old(self).inner.current_task as int]
                }),
            ),
            final(self).inner.infos@ == old(self).inner.infos@.update(
                old(self).inner.current_task as int,
                (TaskInfo {
                    status: TaskStatus::Exited,
                    ..old(self).inner.infos@[old(self).inner.current_task as int]
                }),
            ),
            none_running(final(self).inner.tasks@),
            final(self).inner.current_task == old(self).inner.current_task,
            final(self).inner.timestamp == old(self).inner.timestamp,
            final(self).inner.trap_frames == old(self).inner.trap_frames,
    {
        let current = self.inner.current_task;
        let mut tcb = self.inner.tasks[current];
        tcb.task_status = TaskStatus::Exited;
        self.inner.tasks[current] = tcb;
        let mut info = self.inner.infos[current];
        info.status = TaskStatus::Exited;
        self.inner.infos[current] = info;
    }

    /// Schedule: move the cursor to the first `Ready` task in cyclic order
    /// after the current one, make it `Running`, and hand back the switch the
    /// runtime must perform; `None` when no task is ready, which is the
    /// kernel's halt condition ("all applications completed").
    pub fn run_next_task(&mut self) -> (r: Option<SwitchOp>)
        requires
            old(self).wf(),
            none_running(old(self).inner.tasks@),
        ensures
            final(self).wf(),
            match r {
                Some(op) => {
                    &&& op.save == old(self).inner.current_task
                    &&& op.load < old(self).n()
                    &&& find_next_spec(
                        old(self).inner.tasks@,
                        old(self).inner.current_task as int,
                    ) == Some(op.load as int)
                    &&& final(self).inner.current_task == op.load
                    &&& final(self).inner.tasks@ == old(self).inner.tasks@.update(
                        op.load as int,
                        (TaskControlBlock {
                            task_status: TaskStatus::Running,
                            ..old(self).inner.tasks@[op.load as int]
                        }),
                    )
                    &&& running_only(final(self).inner.tasks@, op.load as int)
                    &&& final(self).inner.infos == old(self).inner.infos
                    &&& final(self).inner.trap_frames == old(self).inner.trap_frames
                    &&& final(self).inner.timestamp == old(self).inner.timestamp
                },
                None => {
                    &&& *final(self) == *old(self)
                    &&& !exists_ready(old(self).inner.tasks@)
                },
            },
    {
        let next = self.find_next_task();
        proof {
            lemma_find_next_characterization(self.inner.tasks@, self.inner.current_task as int);
        }
        match next {
            Some(next) => {
                let current = self.inner.current_task;
                self.inner.current_task = next;
                let mut tcb = self.inner.tasks[next];
                tcb.task_status = TaskStatus::Running;
                self.inner.tasks[next] = tcb;
                Some(SwitchOp { save: current, load: next })
            },
            None => None,
        }
    }

    /// Voluntary suspension: the current task goes back to `Ready` and the
    /// next ready task is scheduled.  Some task is always ready here (at
    /// worst the suspended one itself), so a switch always comes back.
    pub fn suspend_current_and_run_next(&mut self) -> (op: SwitchOp)
        requires
            old(self).wf(),
            old(self).inner.tasks@[old(self).inner.current_task as int].task_status
                == TaskStatus::Running,
        ensures
            final(self).wf(),
            suspend_transition(old(self).inner, final(self).inner, op),
    {
        self.mark_current_suspended();
        proof {
            assert(task_ready(self.inner.tasks@, self.inner.current_task as int));
        }
        let r = self.run_next_task();
        match r {
            Some(op) => op,
            // the suspended task itself is ready, so the scan cannot fail
            None => unreached(),
        }
    }

    /// Exit: the current task becomes `Exited` for good and the next ready
    /// task is scheduled; `None` when it was the last one, which halts the
    /// kernel.
    pub fn exit_current_and_run_next(&mut self) -> (r: Option<SwitchOp>)
        requires
            old(self).wf(),
            old(self).inner.tasks@[old(self).inner.current_task as int].task_status
                == TaskStatus::Running,
        ensures
            final(self).wf(),
            exit_transition(old(self).inner, final(self).inner, r),
    {
        self.mark_current_exited();
        self.run_next_task()
    }

    /// Count one invocation of `syscall_id` in the current task's record; a
    /// count for a new id is dropped (`None`) once the fixed-capacity table
    /// holds distinct ids in every slot.
    pub fn add_current_task_info_call_times(&mut self, syscall_id: SyscallId) -> (r: Option<()>)
        requires
            old(self).wf(),
            old(self).inner.infos@[old(self).inner.current_task as int].call.count_of(syscall_id)
                < usize::MAX,
        ensures
            final(self).wf(),
            ({
                let cur = old(self).inner.current_task as int;
                let old_call = old(self).inner.infos@[cur].call;
                let new_call = final(self).inner.infos@[cur].call;
                &&& final(self).inner.infos@ == old(self).inner.infos@.update(
                    cur,
                    (TaskInfo { call: new_call, ..old(self).inner.infos@[cur] }),
                )
                &&& new_call == crate::task::add_spec(old_call, syscall_id)
                &&& (syscall_id != SyscallId::Unsupported && r is Some ==> new_call.count_of(
                    syscall_id,
                ) == old_call.count_of(syscall_id) + 1)
                &&& forall|other: SyscallId|
                    other != syscall_id && other != SyscallId::Unsupported
                        ==> new_call.count_of(other) == old_call.count_of(other)
                &&& (r is None <==> (slot_index(old_call.inner@, syscall_id)
                    == old_call.inner@.len() && slot_index(
                    old_call.inner@,
                    SyscallId::Unsupported,
                ) == old_call.inner@.len()))
                &&& (r is None ==> new_call == old_call)
            }),
            final(self).inner.tasks == old(self).inner.tasks,
            final(self).inner.trap_frames == old(self).inner.trap_frames,
            final(self).inner.current_task == old(self).inner.current_task,
            final(self).inner.timestamp == old(self).inner.timestamp,
    {
        let current = self.inner.current_task;
        let mut info = self.inner.infos[current];
        let r = info.call.add(syscall_id);
        self.inner.infos[current] = info;
        proof {
            let cur = old(self).inner.current_task as int;
            crate::task::lemma_slot_index_from_properties(
                old(self).inner.infos@[cur].call.inner@,
                syscall_id,
                0,
            );
            crate::task::lemma_slot_index_from_properties(
                old(self).inner.infos@[cur].call.inner@,
                SyscallId::Unsupported,
                0,
            );
            assert(self.inner.infos@ =~= old(self).inner.infos@.update(
                cur,
                (TaskInfo { call: self.inner.infos@[cur].call, ..old(self).inner.infos@[cur] }),
            ));
        }
        r
    }

    /// Accrue `time` nanoseconds of user-mode execution to the current task.
    pub fn add_current_task_user_time(&mut self, time: u64)
        requires
            old(self).wf(),
            old(self).inner.infos@[old(self).inner.current_task as int].user_time + time
                <= u64::MAX,
        ensures
            final(self).wf(),
            ({
                let cur = old(self).inner.current_task as int;
                final(self).inner.infos@ == old(self).inner.infos@.update(
                    cur,
                    (TaskInfo {
                        user_time: (old(self).inner.infos@[cur].user_time + time) as u64,
                        ..old(self).inner.infos@[cur]
                    }),
                )
            }),
            final(self).inner.tasks == old(self).inner.tasks,
            final(self).inner.trap_frames == old(self).inner.trap_frames,
            final(self).inner.current_task == old(self).inner.current_task,
            final(self).inner.timestamp == old(self).inner.timestamp,
    {
        let current = self.inner.current_task;
        let mut info = self.inner.infos[current];
        info.add_user_time(time);
        self.inner.infos[current] = info;
    }

    /// Accrue `time` nanoseconds of kernel-mode execution to the current task.
    pub fn add_current_task_kernel_time(&mut self, time: u64)
        requires
            old(self).wf(),
            old(self).inner.infos@[old(self).inner.current_task as int].kernel_time + time
                <= u64::MAX,
        ensures
            final(self).wf(),
            ({
                let cur = old(self).inner.current_task as int;
                final(self).inner.infos@ == old(self).inner.infos@.update(
                    cur,
                    (TaskInfo {
                        kernel_time: (old(self).inner.infos@[cur].kernel_time + time) as u64,
                        ..old(self).inner.infos@[cur]
                    }),
                )
            }),
            final(self).inner.tasks == old(self).inner.tasks,
            final(self).inner.trap_frames == old(self).inner.trap_frames,
            final(self).inner.current_task == old(self).inner.current_task,
            final(self).inner.timestamp == old(self).inner.timestamp,
    {
        let current = self.inner.current_task;
        let mut info = self.inner.infos[current];
        info.add_kernel_time(time);
        self.inner.infos[current] = info;
    }

    /// Nanosecond timestamp of the last accounting update.
    pub fn get_timestamp(&self) -> (t: u64)
        ensures
            t == self.inner.timestamp,
    {
        self.inner.timestamp
    }

    /// Record the accounting timestamp.
    pub fn set_timestamp(&mut self, timestamp: u64)
        requires
            old(self).wf(),
        ensures
            final(self).wf(),
            final(self).inner.timestamp == timestamp,
            final(self).inner.tasks == old(self).inner.tasks,
            final(self).inner.infos == old(self).inner.infos,
            final(self).inner.trap_frames == old(self).inner.trap_frames,
            final(self).inner.current_task == old(self).inner.current_task,
    {
        self.inner.timestamp = timestamp;
    }
}

/// `find_from(tasks, c, k)` selects the ready task nearest in cyclic
/// distance among those at distance `k` or more, and fails only when no
/// ready task lies at distance `k` or more.
pub proof fn lemma_find_from_props(tasks: Seq<TaskControlBlock>, c: int, k: int)
    requires
        0 <= c < tasks.len(),
        1 <= k <= tasks.len() + 1,
    ensures
        match find_from(tasks, c, k) {
            Some(id) => {
                &&& 0 <= id < tasks.len()
                &&& task_ready(tasks, id)
                &&& k <= cyc_dist(c, id, tasks.len() as int) <= tasks.len()
                &&& forall|j: int|
                    0 <= j < tasks.len() && task_ready(tasks, j) && cyc_dist(
                        c,
                        j,
                        tasks.len() as int,
                    ) >= k ==> cyc_dist(c, id, tasks.len() as int) <= cyc_dist(
                        c,
                        j,
                        tasks.len() as int,
                    )
            },
            None => forall|j: int|
                0 <= j < tasks.len() && cyc_dist(c, j, tasks.len() as int) >= k ==> !task_ready(
                    tasks,
                    j,
                ),
        },
    decreases tasks.len() + 1 - k,
{
    let n = tasks.len() as int;
    if k <= n {
        assert(0 <= cyc_index(c, k, n) < n);
        assert(cyc_dist(c, cyc_index(c, k, n), n) == k);
        if !task_ready(tasks, cyc_index(c, k, n)) {
            lemma_find_from_props(tasks, c, k + 1);
            assert forall|j: int| 0 <= j < n && cyc_dist(c, j, n) == k implies !task_ready(
                tasks,
                j,
            ) by {
                assert(cyc_index(c, cyc_dist(c, j, n), n) == j);
            }
        }
    }
}

/// The round-robin scan finds a task exactly when some task is ready, and
/// what it finds is the ready task nearest in cyclic order after `c`.
pub proof fn lemma_find_next_characterization(tasks: Seq<TaskControlBlock>, c: int)
    requires
        0 <= c < tasks.len(),
    ensures
        (find_next_spec(tasks, c) is Some) <==> exists_ready(tasks),
        match find_next_spec(tasks, c) {
            Some(id) => {
                &&& 0 <= id < tasks.len()
                &&& task_ready(tasks, id)
                &&& forall|j: int|
                    0 <= j < tasks.len() && task_ready(tasks, j) ==> cyc_dist(
                        c,
                        id,
                        tasks.len() as int,
                    ) <= cyc_dist(c, j, tasks.len() as int)
            },
            None => !exists_ready(tasks),
        },
{
    let n = tasks.len() as int;
    lemma_find_from_props(tasks, c, 1);
    match find_from(tasks, c, 1) {
        Some(id) => {}
        None => {
            assert forall|j: int| 0 <= j < n implies !task_ready(tasks, j) by {
                assert(cyc_dist(c, j, n) >= 1);
            }
        }
    }
}

} // verus!
