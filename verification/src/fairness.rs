//! Round-robin fairness.
//!
//! The scheduler's scan ([`find_next_spec`]) picks the first `Ready` task in
//! cyclic index order after the cursor.  This module proves the fairness law
//! of that policy: starting from any cursor and iterating the scan - each
//! scan starting from the task the previous one selected, statuses held
//! fixed - every ready task is visited exactly once, in increasing cyclic
//! index order, before the sequence repeats.

use vstd::prelude::*;

use crate::task::{TaskControlBlock, TaskStatus};
use crate::task_manager::{
    cyc_dist, exists_ready, find_next_spec, lemma_find_next_characterization, status_update,
    suspend_transition, task_ready, SwitchOp, TaskManagerInner,
};

verus! {

/// The task the scan selects, as a plain index (meaningful when some task is
/// ready).
pub open spec fn next_ready(tasks: Seq<TaskControlBlock>, c: int) -> int {
    find_next_spec(tasks, c)->Some_0
}

/// The first `m` tasks the iterated scan visits, starting after `c`: each
/// entry is the scan's pick when started from the previous entry.
pub open spec fn visit_seq(tasks: Seq<TaskControlBlock>, c: int, m: nat) -> Seq<int>
    decreases m,
{
    if m == 0 {
        Seq::empty()
    } else {
        let prev = visit_seq(tasks, c, (m - 1) as nat);
        let from = if m == 1 {
            c
        } else {
            prev.last()
        };
        prev.push(next_ready(tasks, from))
    }
}

/// Number of ready tasks among the first `k` indexes.
pub open spec fn ready_count_upto(tasks: Seq<TaskControlBlock>, k: int) -> int
    decreases k,
{
    if k <= 0 {
        0
    } else {
        ready_count_upto(tasks, k - 1) + if task_ready(tasks, k - 1) {
            1int
        } else {
            0int
        }
    }
}

/// Number of ready tasks.
pub open spec fn ready_count(tasks: Seq<TaskControlBlock>) -> int {
    ready_count_upto(tasks, tasks.len() as int)
}

/// Number of ready tasks within cyclic distance `b` of `c`, among the first
/// `k` indexes.
pub open spec fn near_count_upto(tasks: Seq<TaskControlBlock>, c: int, b: int, k: int) -> int
    decreases k,
{
    if k <= 0 {
        0
    } else {
        near_count_upto(tasks, c, b, k - 1) + if task_ready(tasks, k - 1) && cyc_dist(
            c,
            k - 1,
            tasks.len() as int,
        ) <= b {
            1int
        } else {
            0int
        }
    }
}

/// Number of ready tasks within cyclic distance `b` of `c`.
pub open spec fn near_count(tasks: Seq<TaskControlBlock>, c: int, b: int) -> int {
    near_count_upto(tasks, c, b, tasks.len() as int)
}

proof fn lemma_near_count_mono(tasks: Seq<TaskControlBlock>, c: int, b1: int, b2: int, k: int)
    requires
        b1 <= b2,
    ensures
        near_count_upto(tasks, c, b1, k) <= near_count_upto(tasks, c, b2, k),
    decreases k,
{
    if k > 0 {
        lemma_near_count_mono(tasks, c, b1, b2, k - 1);
    }
}

proof fn lemma_near_count_zero(tasks: Seq<TaskControlBlock>, c: int, b: int, k: int)
    requires
        b <= 0,
        0 <= c < tasks.len(),
        k <= tasks.len(),
    ensures
        near_count_upto(tasks, c, b, k) == 0,
    decreases k,
{
    if k > 0 {
        lemma_near_count_zero(tasks, c, b, k - 1);
        assert(cyc_dist(c, k - 1, tasks.len() as int) >= 1);
    }
}

/// If no ready task sits at a distance in `(b1, b2]`, the two counts agree.
proof fn lemma_near_count_gap(tasks: Seq<TaskControlBlock>, c: int, b1: int, b2: int, k: int)
    requires
        b1 <= b2,
        k <= tasks.len(),
        forall|j: int|
            0 <= j < tasks.len() && task_ready(tasks, j) ==> !(b1 < cyc_dist(
                c,
                j,
                tasks.len() as int,
            ) <= b2),
    ensures
        near_count_upto(tasks, c, b1, k) == near_count_upto(tasks, c, b2, k),
    decreases k,
{
    if k > 0 {
        lemma_near_count_gap(tasks, c, b1, b2, k - 1);
    }
}

/// Counting one step further out than the ready task `x` adds exactly `x`.
proof fn lemma_near_count_bump(tasks: Seq<TaskControlBlock>, c: int, x: int, k: int)
    requires
        0 <= c < tasks.len(),
        0 <= x < tasks.len(),
        task_ready(tasks, x),
        k <= tasks.len(),
    ensures
        near_count_upto(tasks, c, cyc_dist(c, x, tasks.len() as int), k) == near_count_upto(
            tasks,
            c,
            cyc_dist(c, x, tasks.len() as int) - 1,
            k,
        ) + if x < k {
            1int
        } else {
            0int
        },
    decreases k,
{
    let n = tasks.len() as int;
    if k > 0 {
        lemma_near_count_bump(tasks, c, x, k - 1);
        if k - 1 != x {
            // distinct indexes sit at distinct cyclic distances
            assert(cyc_dist(c, k - 1, n) != cyc_dist(c, x, n));
        }
    }
}

/// Every ready task sits within distance `n`, so the count at `n` is total.
proof fn lemma_near_count_full(tasks: Seq<TaskControlBlock>, c: int, k: int)
    requires
        0 <= c < tasks.len(),
        k <= tasks.len(),
    ensures
        near_count_upto(tasks, c, tasks.len() as int, k) == ready_count_upto(tasks, k),
    decreases k,
{
    if k > 0 {
        lemma_near_count_full(tasks, c, k - 1);
        assert(cyc_dist(c, k - 1, tasks.len() as int) <= tasks.len() as int);
    }
}

/// The invariant of the iterated scan, proved by induction on the number of
/// visits `i`: the visits so far are ready, strictly ordered by cyclic
/// distance from `c`, their count matches the number of ready tasks within
/// the last visit's distance, and no nearer ready task was skipped.
proof fn lemma_visit_seq_invariant(tasks: Seq<TaskControlBlock>, c: int, i: nat)
    requires
        0 <= c < tasks.len(),
        exists_ready(tasks),
        1 <= i <= ready_count(tasks),
    ensures
        ({
            let n = tasks.len() as int;
            let v = visit_seq(tasks, c, i);
            &&& v.len() == i
            &&& forall|t: int| 0 <= t < i ==> 0 <= #[trigger] v[t] < n && task_ready(tasks, v[t])
            &&& forall|s: int, t: int|
                0 <= s < t < i ==> cyc_dist(c, #[trigger] v[s], n) < cyc_dist(c, #[trigger] v[t], n)
            &&& near_count(tasks, c, cyc_dist(c, v.last(), n)) == i
            &&& forall|j: int|
                0 <= j < n && task_ready(tasks, j) && cyc_dist(c, j, n) <= cyc_dist(
                    c,
                    v.last(),
                    n,
                ) ==> exists|t: int| 0 <= t < i && v[t] == j
        }),
    decreases i,
{
    let n = tasks.len() as int;
    let v = visit_seq(tasks, c, i);
    if i == 1 {
        lemma_find_next_characterization(tasks, c);
        let y = next_ready(tasks, c);
        assert(v =~= seq![y]);
        let dy = cyc_dist(c, y, n);
        // no ready task is nearer than the scan's pick
        lemma_near_count_zero(tasks, c, 0, n);
        lemma_near_count_gap(tasks, c, 0, dy - 1, n);
        lemma_near_count_bump(tasks, c, y, n);
        assert(near_count(tasks, c, dy) == 1);
        assert forall|j: int|
            0 <= j < n && task_ready(tasks, j) && cyc_dist(c, j, n) <= dy implies exists|t: int|
            0 <= t < i && v[t] == j by {
            // the pick is nearest, and distances are injective
            assert(cyc_dist(c, j, n) == dy);
            assert(j == y);
            assert(v[0] == j);
        }
    } else {
        lemma_visit_seq_invariant(tasks, c, (i - 1) as nat);
        let prev = visit_seq(tasks, c, (i - 1) as nat);
        let x = prev.last();
        let dx = cyc_dist(c, x, n);
        let y = next_ready(tasks, x);
        let dy = cyc_dist(c, y, n);
        assert(v =~= prev.push(y));
        lemma_find_next_characterization(tasks, x);
        // Some ready task lies strictly beyond x, else the count within dx
        // would already be the total.
        assert(exists|z: int| 0 <= z < n && task_ready(tasks, z) && cyc_dist(c, z, n) > dx) by {
            if forall|z: int|
                0 <= z < n && task_ready(tasks, z) ==> cyc_dist(c, z, n) <= dx {
                lemma_near_count_gap(tasks, c, dx, n, n);
                lemma_near_count_full(tasks, c, n);
                assert(near_count(tasks, c, dx) == ready_count(tasks));
            }
        }
        let z = choose|z: int| 0 <= z < n && task_ready(tasks, z) && cyc_dist(c, z, n) > dx;
        // Rotating the viewpoint to x: tasks beyond x come nearer than tasks
        // at or before x, so the scan's pick from x is the nearest task
        // strictly beyond x in the ordering from c.
        assert(cyc_dist(x, z, n) == cyc_dist(c, z, n) - dx);
        assert(task_ready(tasks, y));
        assert(cyc_dist(x, y, n) <= cyc_dist(x, z, n));
        assert(dy > dx) by {
            if y == x {
                assert(cyc_dist(x, y, n) == n);
                assert(cyc_dist(x, z, n) <= n - 1);
            } else if dy <= dx {
                assert(cyc_dist(x, y, n) == dy + n - dx);
                assert(cyc_dist(x, z, n) == cyc_dist(c, z, n) - dx <= n - dx);
            }
        }
        // No ready task sits strictly between x and y (seen from c).
        assert forall|w: int|
            0 <= w < n && task_ready(tasks, w) && dx < cyc_dist(c, w, n) implies dy <= cyc_dist(
            c,
            w,
            n,
        ) by {
            assert(cyc_dist(x, w, n) == cyc_dist(c, w, n) - dx);
            assert(cyc_dist(x, y, n) <= cyc_dist(x, w, n));
            assert(cyc_dist(x, y, n) == dy - dx);
        }
        lemma_near_count_gap(tasks, c, dx, dy - 1, n);
        lemma_near_count_bump(tasks, c, y, n);
        assert(near_count(tasks, c, dy) == i);
        // the visits stay strictly ordered by distance
        assert forall|s: int, t: int| 0 <= s < t < i implies cyc_dist(c, #[trigger] v[s], n)
            < cyc_dist(c, #[trigger] v[t], n) by {
            if t < i - 1 {
                assert(v[s] == prev[s] && v[t] == prev[t]);
            } else {
                assert(v[t] == y);
                if s < i - 2 {
                    assert(cyc_dist(c, prev[s], n) < cyc_dist(c, prev[i - 2], n));
                }
                assert(v[s] == prev[s]);
                assert(cyc_dist(c, prev[s], n) <= dx);
            }
        }
        // no nearer ready task was skipped
        assert forall|j: int|
            0 <= j < n && task_ready(tasks, j) && cyc_dist(c, j, n) <= dy implies exists|t: int|
            0 <= t < i && v[t] == j by {
            if cyc_dist(c, j, n) <= dx {
                let t = choose|t: int| 0 <= t < i - 1 && prev[t] == j;
                assert(v[t] == j);
            } else {
                assert(cyc_dist(c, j, n) == dy);
                assert(j == y);
                assert(v[i - 1] == j);
            }
        }
    }
}

/// Round-robin fairness: with statuses held fixed, iterating the scan from
/// any cursor visits every ready task exactly once - the visits are strictly
/// increasing in cyclic index order from the cursor, and every ready task
/// appears - and the scan after the last visit returns the first one again.
pub proof fn lemma_round_robin_fairness(tasks: Seq<TaskControlBlock>, c: int)
    requires
        0 <= c < tasks.len(),
        exists_ready(tasks),
    ensures
        ({
            let n = tasks.len() as int;
            let m = ready_count(tasks);
            let v = visit_seq(tasks, c, m as nat);
            &&& m >= 1
            &&& v.len() == m
            &&& forall|t: int| 0 <= t < m ==> 0 <= #[trigger] v[t] < n && task_ready(tasks, v[t])
            &&& forall|s: int, t: int|
                0 <= s < t < m ==> cyc_dist(c, #[trigger] v[s], n) < cyc_dist(c, #[trigger] v[t], n)
            &&& forall|j: int|
                0 <= j < n && task_ready(tasks, j) ==> exists|t: int| 0 <= t < m && v[t] == j
            &&& next_ready(tasks, v.last()) == v[0]
        }),
{
    let n = tasks.len() as int;
    let m = ready_count(tasks);
    assert(m >= 1) by {
        let j = choose|j: int| 0 <= j < n && task_ready(tasks, j);
        lemma_near_count_bump(tasks, c, j, n);
        lemma_near_count_mono(tasks, c, 0, cyc_dist(c, j, n) - 1, n);
        lemma_near_count_mono(tasks, c, cyc_dist(c, j, n), n, n);
        lemma_near_count_full(tasks, c, n);
        lemma_near_count_zero(tasks, c, 0, n);
    }
    assert(m <= n) by {
        lemma_ready_count_le_len(tasks, n);
    }
    lemma_visit_seq_invariant(tasks, c, m as nat);
    let v = visit_seq(tasks, c, m as nat);
    let last = v.last();
    let dl = cyc_dist(c, last, n);
    // every ready task lies within the last visit's distance
    assert forall|j: int| 0 <= j < n && task_ready(tasks, j) implies cyc_dist(c, j, n) <= dl by {
        if cyc_dist(c, j, n) > dl {
            lemma_near_count_bump(tasks, c, j, n);
            lemma_near_count_mono(tasks, c, dl, cyc_dist(c, j, n) - 1, n);
            lemma_near_count_mono(tasks, c, cyc_dist(c, j, n), n, n);
            lemma_near_count_full(tasks, c, n);
        }
    }
    // the scan from the last visit wraps around to the first
    let first = v[0];
    lemma_find_next_characterization(tasks, c);
    lemma_find_next_characterization(tasks, last);
    let y = next_ready(tasks, last);
    assert(y == first) by {
        assert(task_ready(tasks, y));
        assert(task_ready(tasks, first));
        assert(cyc_dist(last, y, n) <= cyc_dist(last, first, n));
        assert(cyc_dist(c, first, n) <= cyc_dist(c, y, n));
        if y != first {
            // both are at or before `last` seen from c, so rotating to
            // `last` preserves their order by distance from c
            assert(cyc_dist(c, y, n) <= dl);
            assert(cyc_dist(c, first, n) <= dl);
            if y == last {
                assert(cyc_dist(last, y, n) == n);
                assert(cyc_dist(last, first, n) == cyc_dist(c, first, n) + n - dl <= n);
                assert(cyc_dist(c, first, n) == dl);
            } else if first == last {
                assert(v.len() == 1);
            } else {
                assert(cyc_dist(last, y, n) == cyc_dist(c, y, n) + n - dl);
                assert(cyc_dist(last, first, n) == cyc_dist(c, first, n) + n - dl);
            }
        }
    }
}

/// The task states one voluntary suspension leaves behind: the caller `c`
/// goes back to `Ready` and the scan's pick over that picture becomes the
/// one `Running` task.
pub open spec fn yield_step(tasks: Seq<TaskControlBlock>, c: int) -> Seq<TaskControlBlock> {
    let base = status_update(tasks, c, TaskStatus::Ready);
    status_update(base, next_ready(base, c), TaskStatus::Running)
}

/// The task a voluntary suspension of `c` hands the CPU to.
pub open spec fn yield_cursor(tasks: Seq<TaskControlBlock>, c: int) -> int {
    next_ready(status_update(tasks, c, TaskStatus::Ready), c)
}

/// Task states and cursor after `i` voluntary suspensions in a row, each
/// suspending the task the previous one scheduled.
pub open spec fn yield_state(tasks: Seq<TaskControlBlock>, c: int, i: nat) -> (
    Seq<TaskControlBlock>,
    int,
)
    decreases i,
{
    if i == 0 {
        (tasks, c)
    } else {
        let prev = yield_state(tasks, c, (i - 1) as nat);
        (yield_step(prev.0, prev.1), yield_cursor(prev.0, prev.1))
    }
}

/// A suspension of the manager is one [`yield_step`] of the task states.
pub proof fn lemma_suspend_is_yield_step(o: TaskManagerInner, f: TaskManagerInner, op: SwitchOp)
    requires
        suspend_transition(o, f, op),
    ensures
        f.tasks@ == yield_step(o.tasks@, o.current_task as int),
        f.current_task as int == yield_cursor(o.tasks@, o.current_task as int),
{
}

/// Each of the first `ready_count` iterated suspensions schedules the next
/// entry of the visit sequence over the fixed all-ready picture `base`: a
/// suspension parks the running task as `Ready`, so every scan of the chain
/// sees the same statuses, cursor moving.
proof fn lemma_yield_orbit(tasks: Seq<TaskControlBlock>, c: int, i: nat)
    requires
        0 <= c < tasks.len(),
        1 <= i <= ready_count(status_update(tasks, c, TaskStatus::Ready)),
    ensures
        ({
            let base = status_update(tasks, c, TaskStatus::Ready);
            let v = visit_seq(base, c, i);
            &&& yield_state(tasks, c, i).1 == v[i - 1]
            &&& yield_state(tasks, c, i).0 == status_update(base, v[i - 1], TaskStatus::Running)
        }),
    decreases i,
{
    let n = tasks.len() as int;
    let base = status_update(tasks, c, TaskStatus::Ready);
    assert(exists_ready(base)) by {
        assert(task_ready(base, c));
    }
    lemma_visit_seq_invariant(base, c, i);
    let v = visit_seq(base, c, i);
    if i == 1 {
        assert(yield_state(tasks, c, 0) == (tasks, c));
        assert(yield_state(tasks, c, 1) == (yield_step(tasks, c), yield_cursor(tasks, c)));
        assert(v[0] == next_ready(base, c));
    } else {
        lemma_yield_orbit(tasks, c, (i - 1) as nat);
        lemma_visit_seq_invariant(base, c, (i - 1) as nat);
        let prev = visit_seq(base, c, (i - 1) as nat);
        let cu = prev[i - 2];
        let t = status_update(base, cu, TaskStatus::Running);
        // parking the scheduled task again restores the same picture
        assert(status_update(t, cu, TaskStatus::Ready) =~= base) by {
            assert(task_ready(base, cu));
            assert(base[cu] == (TaskControlBlock {
                task_status: TaskStatus::Ready,
                ..base[cu]
            }));
        }
        assert(v[i - 1] == next_ready(base, cu));
    }
}

/// Progress of a yield loop, the composition behind scenario-style sleeping:
/// starting from a running caller, with every task only yielding (none
/// exiting), the i-th voluntary suspension schedules the i-th visit of the
/// round-robin sweep; within `ready_count` suspensions every other ready
/// task is scheduled exactly once, in increasing cyclic order, and the last
/// suspension of the sweep resumes the caller itself.
pub proof fn lemma_yield_loop_progress(tasks: Seq<TaskControlBlock>, c: int)
    requires
        0 <= c < tasks.len(),
        tasks[c].task_status == TaskStatus::Running,
    ensures
        ({
            let n = tasks.len() as int;
            let base = status_update(tasks, c, TaskStatus::Ready);
            let m = ready_count(base);
            let v = visit_seq(base, c, m as nat);
            &&& 1 <= m <= n
            &&& forall|i: int|
                1 <= i <= m ==> #[trigger] yield_state(tasks, c, i as nat).1 == v[i - 1]
            &&& v[m - 1] == c
            &&& forall|t: int| 0 <= t < m - 1 ==> v[t] != c
            &&& forall|j: int|
                0 <= j < n && task_ready(base, j) && j != c ==> exists|t: int|
                    0 <= t < m - 1 && v[t] == j
            &&& forall|s: int, t: int|
                0 <= s < t < m ==> cyc_dist(c, #[trigger] v[s], n) < cyc_dist(c, #[trigger] v[t], n)
        }),
{
    let n = tasks.len() as int;
    let base = status_update(tasks, c, TaskStatus::Ready);
    assert(exists_ready(base)) by {
        assert(task_ready(base, c));
    }
    lemma_round_robin_fairness(base, c);
    lemma_ready_count_le_len(base, n);
    let m = ready_count(base);
    let v = visit_seq(base, c, m as nat);
    assert forall|i: int| 1 <= i <= m implies #[trigger] yield_state(tasks, c, i as nat).1 == v[i
        - 1] by {
        lemma_yield_orbit(tasks, c, i as nat);
        lemma_visit_seq_invariant(base, c, i as nat);
        assert(visit_seq(base, c, i as nat)[i - 1] == v[i - 1]) by {
            lemma_visit_seq_prefix(base, c, i as nat, m as nat);
        }
    }
    // the caller sits at the maximal cyclic distance, so it is the last visit
    assert(task_ready(base, c));
    assert(exists|t: int| 0 <= t < m && v[t] == c);
    let t = choose|t: int| 0 <= t < m && v[t] == c;
    assert(0 <= t < m && v[t] == c);
    if t < m - 1 {
        assert(cyc_dist(c, v[t], n) < cyc_dist(c, v[m - 1], n));
        assert(cyc_dist(c, c, n) == n);
        assert(cyc_dist(c, v[m - 1], n) <= n);
    }
    assert(v[m - 1] == c);
    assert forall|j: int| 0 <= j < n && task_ready(base, j) && j != c implies exists|t: int|
        0 <= t < m - 1 && v[t] == j by {
        assert(exists|w: int| 0 <= w < m && v[w] == j);
        let w = choose|w: int| 0 <= w < m && v[w] == j;
        assert(0 <= w < m && v[w] == j);
        assert(w != m - 1);
    }
}

/// The scan iterated `m` times yields `m` visits.
proof fn lemma_visit_seq_len(tasks: Seq<TaskControlBlock>, c: int, m: nat)
    ensures
        visit_seq(tasks, c, m).len() == m,
    decreases m,
{
    if m > 0 {
        lemma_visit_seq_len(tasks, c, (m - 1) as nat);
    }
}

/// A shorter iteration of the scan is a prefix of a longer one.
proof fn lemma_visit_seq_prefix(tasks: Seq<TaskControlBlock>, c: int, i: nat, m: nat)
    requires
        i <= m,
    ensures
        forall|t: int| 0 <= t < i ==> visit_seq(tasks, c, i)[t] == visit_seq(tasks, c, m)[t],
    decreases m,
{
    lemma_visit_seq_len(tasks, c, m);
    if i < m {
        lemma_visit_seq_len(tasks, c, (m - 1) as nat);
        lemma_visit_seq_prefix(tasks, c, i, (m - 1) as nat);
    }
}

proof fn lemma_ready_count_le_len(tasks: Seq<TaskControlBlock>, k: int)
    requires
        0 <= k <= tasks.len(),
    ensures
        ready_count_upto(tasks, k) <= k,
        0 <= ready_count_upto(tasks, k),
    decreases k,
{
    if k > 0 {
        lemma_ready_count_le_len(tasks, k - 1);
    }
}

} // verus!
