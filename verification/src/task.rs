//! Per-task state: the task control block with its status machine, and the
//! accounting record (name, cached status, per-syscall invocation counters,
//! accumulated user- and kernel-mode time).

use vstd::prelude::*;

use crate::config::MAX_NAME_LEN;
use crate::syscall::{SyscallId, MAX_SYSCALL_NUM};
use crate::task_context::TaskContext;

verus! {

/// The task state machine: `Uninit -> Ready` at boot, `Ready -> Running` when
/// scheduled, `Running -> Ready` when suspended, `Running -> Exited` on exit
/// or a fatal fault.  `Exited` is terminal.
#[derive(Clone, Copy, PartialEq, Eq, Structural, Debug)]
pub enum TaskStatus {
    Uninit,
    Ready,
    Running,
    Exited,
}

/// One task slot: its scheduling status and, while it is not on the CPU, the
/// saved resumption point of its kernel execution path.
#[derive(Clone, Copy, PartialEq, Eq, Debug)]
pub struct TaskControlBlock {
    pub task_status: TaskStatus,
    pub task_cx: TaskContext,
}

impl TaskControlBlock {
    /// The state of a task slot before boot configures it.
    pub fn zero_init() -> (t: Self)
        ensures
            t.task_status == TaskStatus::Uninit,
            t.task_cx.ra == 0,
            t.task_cx.sp == 0,
            forall|i: int| 0 <= i < 12 ==> t.task_cx.s[i] == 0,
    {
        TaskControlBlock { task_status: TaskStatus::Uninit, task_cx: TaskContext::zero_init() }
    }
}

/// One invocation counter: how many times the task has issued `id`.
#[derive(Clone, Copy, PartialEq, Eq, Structural, Debug)]
pub struct SyscallInfo {
    pub id: SyscallId,
    pub times: usize,
}

/// The fixed-capacity, linearly probed per-syscall invocation counter table.
/// A slot whose id is `Unsupported` is free; once every slot holds a distinct
/// id, counts for further ids are silently dropped.
#[derive(Clone, Copy, PartialEq, Eq, Debug)]
pub struct Call {
    pub inner: [SyscallInfo; MAX_SYSCALL_NUM],
}

/// Index of the first slot of `s` at position `k` or later whose id is `id`,
/// or `s.len()` if there is none.
pub open spec fn slot_index_from(s: Seq<SyscallInfo>, id: SyscallId, k: int) -> int
    decreases s.len() - k,
{
    if k < 0 || k >= s.len() {
        s.len() as int
    } else if s[k].id == id {
        k
    } else {
        slot_index_from(s, id, k + 1)
    }
}

/// Index of the first slot of `s` whose id is `id`, or `s.len()` if none.
pub open spec fn slot_index(s: Seq<SyscallInfo>, id: SyscallId) -> int {
    slot_index_from(s, id, 0)
}

impl Call {
    /// Distinct recognized ids occupy distinct slots, so a counter is read
    /// off the single slot holding its id.
    pub open spec fn wf(self) -> bool {
        slots_unique(self.inner@)
    }

    /// The invocation count recorded for `id`: the count in its slot, or zero
    /// while no slot holds it.
    pub open spec fn count_of(self, id: SyscallId) -> int {
        let s = self.inner@;
        let p = slot_index(s, id);
        if p < s.len() {
            s[p].times as int
        } else {
            0
        }
    }

    /// A table of free slots only.
    pub fn zero_init() -> (c: Self)
        ensures
            c.wf(),
            forall|i: int|
                0 <= i < MAX_SYSCALL_NUM ==> c.inner@[i] == (SyscallInfo {
                    id: SyscallId::Unsupported,
                    times: 0,
                }),
            forall|id: SyscallId| c.count_of(id) == 0int,
    {
        let c = Call {
            inner: [SyscallInfo { id: SyscallId::Unsupported, times: 0 }; MAX_SYSCALL_NUM],
        };
        proof {
            assert forall|id: SyscallId| c.count_of(id) == 0int by {
                lemma_slot_index_from_properties(c.inner@, id, 0);
                if slot_index(c.inner@, id) < c.inner@.len() {
                    assert(c.inner@[slot_index(c.inner@, id)].times == 0);
                }
            }
        }
        c
    }

    /// Count one invocation of `syscall_id`: bump its slot, or claim the
    /// first free slot if it has none, or drop the count (`None`) when the
    /// table is exhausted.
    pub fn add(&mut self, syscall_id: SyscallId) -> (r: Option<()>)
        requires
            old(self).wf(),
            old(self).count_of(syscall_id) < usize::MAX,
        ensures
            final(self).wf(),
            ({
                let s = old(self).inner@;
                let p = slot_index(s, syscall_id);
                let q = slot_index(s, SyscallId::Unsupported);
                if p < s.len() {
                    r == Some(()) && final(self).inner@ == s.update(
                        p,
                        SyscallInfo { id: syscall_id, times: (s[p].times + 1) as usize },
                    )
                } else if q < s.len() {
                    r == Some(()) && final(self).inner@ == s.update(
                        q,
                        SyscallInfo { id: syscall_id, times: 1 },
                    )
                } else {
                    r == None::<()> && *final(self) == *old(self)
                }
            }),
            *final(self) == add_spec(*old(self), syscall_id),
            syscall_id != SyscallId::Unsupported && r is Some ==> final(self).count_of(syscall_id)
                == old(self).count_of(syscall_id) + 1,
            forall|other: SyscallId|
                other != syscall_id && other != SyscallId::Unsupported
                    ==> final(self).count_of(other) == old(self).count_of(other),
    {
        let ghost s = self.inner@;
        let pos = self.find_slot(syscall_id);
        if pos < MAX_SYSCALL_NUM {
            let mut slot = self.inner[pos];
            proof {
                lemma_slot_index_from_properties(s, syscall_id, 0);
            }
            slot.times = slot.times + 1;
            self.inner[pos] = slot;
            proof {
                lemma_add_existing(s, syscall_id, pos as int);
                assert forall|other: SyscallId|
                    other != syscall_id && other != SyscallId::Unsupported
                    implies self.count_of(other) == old(self).count_of(other) by {
                    lemma_slot_index_from_properties(s, other, 0);
                }
            }
            Some(())
        } else {
            proof {
                lemma_slot_index_from_properties(s, syscall_id, 0);
                assert(s.len() == MAX_SYSCALL_NUM);
            }
            let free = self.find_slot(SyscallId::Unsupported);
            if free < MAX_SYSCALL_NUM {
                self.inner[free] = SyscallInfo { id: syscall_id, times: 1 };
                proof {
                    lemma_add_fresh(s, syscall_id, free as int);
                    assert forall|other: SyscallId|
                        other != syscall_id && other != SyscallId::Unsupported
                        implies self.count_of(other) == old(self).count_of(other) by {
                        lemma_slot_index_from_properties(s, other, 0);
                        lemma_slot_index_from_properties(s, SyscallId::Unsupported, 0);
                        assert(s[free as int].id == SyscallId::Unsupported);
                        lemma_slot_index_from_same(s, self.inner@, other, 0);
                        let w = slot_index(s, other);
                        if w < s.len() {
                            assert(s[w].id == other);
                            assert(self.inner@[w] == s[w]);
                        }
                    }
                }
                Some(())
            } else {
                None
            }
        }
    }

    /// First slot holding `id`, or `MAX_SYSCALL_NUM` if none does.
    fn find_slot(&self, id: SyscallId) -> (pos: usize)
        ensures
            pos == slot_index(self.inner@, id),
    {
        let ghost s = self.inner@;
        let mut k: usize = 0;
        while k < MAX_SYSCALL_NUM
            invariant
                0 <= k <= MAX_SYSCALL_NUM,
                s == self.inner@,
                slot_index(s, id) == slot_index_from(s, id, k as int),
            decreases MAX_SYSCALL_NUM - k,
        {
            if self.inner[k].id == id {
                return k;
            }
            k = k + 1;
        }
        k
    }
}

/// Per-task accounting, read back by the `get_taskinfo` syscall: stable id,
/// display name in a fixed-size buffer, cached status mirror, invocation
/// counters, and accumulated user- and kernel-mode time in nanoseconds.
#[derive(Clone, Copy, PartialEq, Eq, Debug)]
pub struct TaskInfo {
    pub id: usize,
    pub status: TaskStatus,
    pub name: [u8; MAX_NAME_LEN],
    pub name_len: usize,
    pub call: Call,
    pub user_time: u64,
    pub kernel_time: u64,
}

impl TaskInfo {
    /// The display name: the used prefix of the fixed-size buffer.
    pub open spec fn name_bytes(self) -> Seq<u8> {
        self.name@.subrange(0, self.name_len as int)
    }

    pub open spec fn wf(self) -> bool {
        &&& self.name_len <= MAX_NAME_LEN
        &&& self.call.wf()
    }

    /// The record of a task slot before boot configures it.
    pub fn zero_init() -> (t: Self)
        ensures
            t.wf(),
            t.id == 0,
            t.status == TaskStatus::Uninit,
            t.name_len == 0,
            t.name_bytes() == Seq::<u8>::empty(),
            forall|id: SyscallId| t.call.count_of(id) == 0int,
            t.user_time == 0,
            t.kernel_time == 0,
    {
        let t = TaskInfo {
            id: 0,
            status: TaskStatus::Uninit,
            name: [0; MAX_NAME_LEN],
            name_len: 0,
            call: Call::zero_init(),
            user_time: 0,
            kernel_time: 0,
        };
        proof {
            assert(t.name_bytes() =~= Seq::<u8>::empty());
        }
        t
    }

    /// The record boot installs: the task's id and name, status `Ready`, and
    /// zeroed counters and times.
    pub fn boot_init(id: usize, name: &Vec<u8>) -> (t: Self)
        requires
            name@.len() <= MAX_NAME_LEN,
        ensures
            t.wf(),
            t.id == id,
            t.status == TaskStatus::Ready,
            t.name_len == name@.len(),
            t.name_bytes() == name@,
            t.user_time == 0,
            t.kernel_time == 0,
            forall|sid: SyscallId| t.call.count_of(sid) == 0int,
    {
        let mut arr = [0u8; MAX_NAME_LEN];
        let mut i: usize = 0;
        while i < name.len()
            invariant
                0 <= i <= name@.len(),
                name@.len() <= MAX_NAME_LEN,
                forall|j: int| 0 <= j < i ==> arr@[j] == name@[j],
            decreases name@.len() - i,
        {
            arr[i] = name[i];
            i = i + 1;
        }
        let t = TaskInfo {
            id,
            status: TaskStatus::Ready,
            name: arr,
            name_len: name.len(),
            call: Call::zero_init(),
            user_time: 0,
            kernel_time: 0,
        };
        proof {
            assert(t.name_bytes() =~= name@);
        }
        t
    }

    /// A copy of the display name as a byte vector.
    pub fn get_name(&self) -> (v: Vec<u8>)
        requires
            self.wf(),
        ensures
            v@ == self.name_bytes(),
    {
        let mut v: Vec<u8> = Vec::new();
        let mut i: usize = 0;
        while i < self.name_len
            invariant
                0 <= i <= self.name_len,
                self.name_len <= MAX_NAME_LEN,
                v@.len() == i,
                forall|j: int| 0 <= j < i ==> v@[j] == self.name@[j],
            decreases self.name_len - i,
        {
            v.push(self.name[i]);
            i = i + 1;
        }
        proof {
            assert(v@ =~= self.name_bytes());
        }
        v
    }

    /// Accrue `time` nanoseconds of user-mode execution.
    pub fn add_user_time(&mut self, time: u64)
        requires
            old(self).user_time + time <= u64::MAX,
        ensures
            *final(self) == (TaskInfo {
                user_time: (old(self).user_time + time) as u64,
                ..*old(self)
            }),
    {
        self.user_time = self.user_time + time;
    }

    /// Accrue `time` nanoseconds of kernel-mode execution.
    pub fn add_kernel_time(&mut self, time: u64)
        requires
            old(self).kernel_time + time <= u64::MAX,
        ensures
            *final(self) == (TaskInfo {
                kernel_time: (old(self).kernel_time + time) as u64,
                ..*old(self)
            }),
    {
        self.kernel_time = self.kernel_time + time;
    }
}

/// The table [`Call::add`] leaves behind, as a function of the old table:
/// the slot holding `id` bumped, or the first free slot claimed, or - both
/// exhausted - the table unchanged.
pub open spec fn add_spec(c: Call, id: SyscallId) -> Call {
    let s = c.inner@;
    let p = slot_index(s, id);
    let q = slot_index(s, SyscallId::Unsupported);
    if p < s.len() {
        Call {
            inner: vstd::array::spec_array_update(
                c.inner,
                p,
                SyscallInfo { id, times: (s[p].times + 1) as usize },
            ),
        }
    } else if q < s.len() {
        Call { inner: vstd::array::spec_array_update(c.inner, q, SyscallInfo { id, times: 1 }) }
    } else {
        c
    }
}

/// The table after `k` invocations of `id` have been counted.
pub open spec fn add_times(c: Call, id: SyscallId, k: nat) -> Call
    decreases k,
{
    if k == 0 {
        c
    } else {
        add_spec(add_times(c, id, (k - 1) as nat), id)
    }
}

/// One counting step: on a well-formed table that holds `id` or still has a
/// free slot, counting `id` once raises its counter by exactly one, touches
/// no other id's counter, and leaves `id` in the table.
proof fn lemma_add_spec_step(c: Call, id: SyscallId)
    requires
        c.wf(),
        id != SyscallId::Unsupported,
        slot_index(c.inner@, id) < c.inner@.len() || slot_index(c.inner@, SyscallId::Unsupported)
            < c.inner@.len(),
        c.count_of(id) < usize::MAX,
    ensures
        add_spec(c, id).wf(),
        add_spec(c, id).count_of(id) == c.count_of(id) + 1,
        forall|other: SyscallId|
            other != id && other != SyscallId::Unsupported ==> add_spec(c, id).count_of(other)
                == c.count_of(other),
        slot_index(add_spec(c, id).inner@, id) < add_spec(c, id).inner@.len(),
{
    let s = c.inner@;
    let p = slot_index(s, id);
    let q = slot_index(s, SyscallId::Unsupported);
    lemma_slot_index_from_properties(s, id, 0);
    lemma_slot_index_from_properties(s, SyscallId::Unsupported, 0);
    let t = add_spec(c, id).inner@;
    if p < s.len() {
        assert(t =~= s.update(p, SyscallInfo { id, times: (s[p].times + 1) as usize }));
        lemma_add_existing(s, id, p);
    } else {
        assert(t =~= s.update(q, SyscallInfo { id, times: 1 }));
        lemma_add_fresh(s, id, q);
    }
    assert forall|other: SyscallId| other != id && other != SyscallId::Unsupported
        implies add_spec(c, id).count_of(other) == c.count_of(other) by {
        lemma_slot_index_from_properties(s, other, 0);
        let w = slot_index(s, other);
        if w < s.len() {
            assert(s[w].id == other);
            assert(t[w] == s[w]);
        }
    }
}

/// The counting law of the accounting table: a task that has `k` invocations
/// of one recognized id counted - on a well-formed table that holds the id
/// or still has room - ends with its counter for that id higher by exactly
/// `k`, every other id's counter untouched.
pub proof fn lemma_repeated_add_counts_k(c: Call, id: SyscallId, k: nat)
    requires
        c.wf(),
        id != SyscallId::Unsupported,
        slot_index(c.inner@, id) < c.inner@.len() || slot_index(c.inner@, SyscallId::Unsupported)
            < c.inner@.len(),
        c.count_of(id) + k <= usize::MAX,
    ensures
        add_times(c, id, k).wf(),
        add_times(c, id, k).count_of(id) == c.count_of(id) + k,
        forall|other: SyscallId|
            other != id && other != SyscallId::Unsupported ==> add_times(c, id, k).count_of(other)
                == c.count_of(other),
        k > 0 ==> slot_index(add_times(c, id, k).inner@, id) < add_times(c, id, k).inner@.len(),
    decreases k,
{
    if k > 0 {
        lemma_repeated_add_counts_k(c, id, (k - 1) as nat);
        lemma_add_spec_step(add_times(c, id, (k - 1) as nat), id);
    }
}

/// `slot_index_from(s, id, k)` really is the first occurrence at or after `k`.
pub proof fn lemma_slot_index_from_properties(s: Seq<SyscallInfo>, id: SyscallId, k: int)
    requires
        0 <= k <= s.len(),
    ensures
        k <= slot_index_from(s, id, k) <= s.len(),
        slot_index_from(s, id, k) < s.len() ==> s[slot_index_from(s, id, k)].id == id,
        forall|m: int| k <= m < slot_index_from(s, id, k) ==> s[m].id != id,
    decreases s.len() - k,
{
    if k < s.len() && s[k].id != id {
        lemma_slot_index_from_properties(s, id, k + 1);
    }
}

/// Two tables whose slots hold `id` at exactly the same positions agree on
/// where `id`'s slot is.
proof fn lemma_slot_index_from_same(s1: Seq<SyscallInfo>, s2: Seq<SyscallInfo>, id: SyscallId, k: int)
    requires
        0 <= k <= s1.len(),
        s1.len() == s2.len(),
        forall|m: int| 0 <= m < s1.len() ==> ((s1[m].id == id) <==> (s2[m].id == id)),
    ensures
        slot_index_from(s1, id, k) == slot_index_from(s2, id, k),
    decreases s1.len() - k,
{
    if k < s1.len() && s1[k].id != id {
        lemma_slot_index_from_same(s1, s2, id, k + 1);
    }
}

/// Uniqueness of the non-free slot ids, as a predicate on the raw slots.
pub open spec fn slots_unique(s: Seq<SyscallInfo>) -> bool {
    forall|i: int, j: int|
        0 <= i < j < s.len() && s[i].id != SyscallId::Unsupported ==> s[i].id != s[j].id
}

/// Effect of bumping the slot that already holds `id`.
proof fn lemma_add_existing(s: Seq<SyscallInfo>, id: SyscallId, p: int)
    requires
        p == slot_index(s, id),
        0 <= p < s.len(),
        slots_unique(s),
    ensures
        ({
            let t = s.update(p, SyscallInfo { id, times: (s[p].times + 1) as usize });
            &&& slots_unique(t)
            &&& slot_index(t, id) == p
            &&& forall|other: SyscallId| other != id ==> slot_index(t, other) == slot_index(s, other)
        }),
{
    let t = s.update(p, SyscallInfo { id, times: (s[p].times + 1) as usize });
    lemma_slot_index_from_properties(s, id, 0);
    assert(forall|m: int| 0 <= m < s.len() ==> t[m].id == s[m].id);
    lemma_slot_index_from_same(s, t, id, 0);
    assert forall|other: SyscallId| other != id implies slot_index(t, other) == slot_index(
        s,
        other,
    ) by {
        lemma_slot_index_from_same(s, t, other, 0);
    }
}

/// Effect of claiming the first free slot for a previously unseen `id`.
proof fn lemma_add_fresh(s: Seq<SyscallInfo>, id: SyscallId, q: int)
    requires
        slot_index(s, id) == s.len(),
        q == slot_index(s, SyscallId::Unsupported),
        0 <= q < s.len(),
        slots_unique(s),
    ensures
        ({
            let t = s.update(q, SyscallInfo { id, times: 1 });
            &&& slots_unique(t)
            &&& slot_index(t, id) == q
            &&& forall|other: SyscallId|
                other != id && other != SyscallId::Unsupported ==> slot_index(t, other)
                    == slot_index(s, other)
        }),
{
    let t = s.update(q, SyscallInfo { id, times: 1 });
    lemma_slot_index_from_properties(s, id, 0);
    lemma_slot_index_from_properties(s, SyscallId::Unsupported, 0);
    assert forall|m: int| 0 <= m < q implies t[m].id != id by {
        assert(s[m].id != id);
    }
    lemma_first_occurrence(t, id, q);
    assert forall|other: SyscallId| other != id && other != SyscallId::Unsupported
        implies slot_index(t, other) == slot_index(s, other) by {
        lemma_slot_index_from_same(s, t, other, 0);
    }
    assert(s[q].id == SyscallId::Unsupported);
    assert forall|i: int, j: int|
        0 <= i < j < t.len() && t[i].id != SyscallId::Unsupported implies t[i].id != t[j].id by {
        if i == q {
            assert(t[j].id == s[j].id);
            assert(s[j].id != id);
        } else if j == q {
            assert(t[i].id == s[i].id);
            assert(s[i].id != id);
        }
    }
}

/// If `s[p].id == id` and no earlier slot holds `id`, the first occurrence is `p`.
proof fn lemma_first_occurrence(s: Seq<SyscallInfo>, id: SyscallId, p: int)
    requires
        0 <= p < s.len(),
        s[p].id == id,
        forall|m: int| 0 <= m < p ==> s[m].id != id,
    ensures
        slot_index(s, id) == p,
{
    lemma_slot_index_from_properties(s, id, 0);
    let r = slot_index(s, id);
    if r < p {
        assert(s[r].id == id);
    }
}

} // verus!
