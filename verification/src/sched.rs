//! The process table and the decisions of task switching.
//!
//! The table holds one task control block per task, indexed by the task's
//! pid, together with the index of the task that currently runs and the
//! index of the task that sleeps on the timer.
use vstd::prelude::*;

verus! {

/// Base address of the process table in RAM.
pub const TCB_START: u32 = 0x2000_0200;

/// Size in bytes of one task control block in the table.
pub const TCB_SIZE: u32 = 12;

/// Represents the possible states of a task.
#[allow(non_camel_case_types)]
#[derive(Clone, Copy, PartialEq, Eq, Structural, Debug)]
pub enum TaskStates {
    READY,
    RUNNING,
    BLOCKED,
    TERMINATED,
}

/// Task control block: saved stack pointer, state and pid of a task.
#[derive(Clone, Copy, Debug)]
pub struct TCB {
    pub sp: u32,
    pub state: TaskStates,
    pub pid: u32,
}

/// A task the scheduler may hand the processor to.
pub open spec fn runnable(t: TCB) -> bool {
    t.state == TaskStates::READY || t.state == TaskStates::RUNNING
}

/// Whether some task of the table may run.
pub open spec fn has_runnable(tasks: Seq<TCB>) -> bool {
    exists|i: int| 0 <= i < tasks.len() && runnable(#[trigger] tasks[i])
}

/// `t` with its state replaced by `state`.
pub open spec fn with_state(t: TCB, state: TaskStates) -> TCB {
    TCB { sp: t.sp, state: state, pid: t.pid }
}

/// `t` with its saved stack pointer replaced by `sp`.
pub open spec fn with_sp(t: TCB, sp: u32) -> TCB {
    TCB { sp: sp, state: t.state, pid: t.pid }
}

/// The table with the state of entry `i` replaced, or unchanged when there
/// is no entry `i`.
pub open spec fn set_state_at(tasks: Seq<TCB>, i: int, state: TaskStates) -> Seq<TCB> {
    if 0 <= i < tasks.len() {
        tasks.update(i, with_state(tasks[i], state))
    } else {
        tasks
    }
}

/// The table with the stack pointer of entry `i` replaced, or unchanged when
/// there is no entry `i`.
pub open spec fn set_sp_at(tasks: Seq<TCB>, i: int, sp: u32) -> Seq<TCB> {
    if 0 <= i < tasks.len() {
        tasks.update(i, with_sp(tasks[i], sp))
    } else {
        tasks
    }
}

/// The slot `k` places after slot `cur` in a table of `n` entries, for
/// `0 <= cur < n` and `0 <= k <= n`.
pub open spec fn slot_after(cur: int, k: int, n: int) -> int {
    if cur + k >= n {
        cur + k - n
    } else {
        cur + k
    }
}

/// The number of places, counted from 1, from slot `cur` to the first
/// runnable task at or after place `k`, where place `n` is `cur` itself.
pub open spec fn runnable_offset(tasks: Seq<TCB>, cur: int, k: nat) -> nat
    decreases tasks.len() - k,
{
    if k >= tasks.len() || runnable(tasks[slot_after(cur, k as int, tasks.len() as int)]) {
        k
    } else {
        runnable_offset(tasks, cur, k + 1)
    }
}

/// The slot that round-robin scheduling hands the processor to after slot
/// `cur`: the first runnable task after `cur` in cyclic order.
pub open spec fn next_index(tasks: Seq<TCB>, cur: int) -> int {
    slot_after(cur, runnable_offset(tasks, cur, 1) as int, tasks.len() as int)
}

pub struct TaskTable {
    tasks: Vec<TCB>,
    current: u32,
    sleeping: u32,
}

impl TaskTable {
    /// The task control blocks, indexed by pid.
    pub closed spec fn entries(&self) -> Seq<TCB> {
        self.tasks@
    }

    /// The slot of the task that currently runs.
    pub closed spec fn running_index(&self) -> int {
        self.current as int
    }

    /// The slot of the task that sleeps on the timer.
    pub closed spec fn sleeping_index(&self) -> int {
        self.sleeping as int
    }

    /// Well-formedness: every entry holds its own slot as pid, the count of
    /// tasks fits a `u32`, and the running and sleeping slots are entries of
    /// the table (or 0 while it is empty).
    pub open spec fn wf(&self) -> bool {
        &&& self.entries().len() < u32::MAX
        &&& forall|i: int| 0 <= i < self.entries().len() ==> (#[trigger] self.entries()[i]).pid == i
        &&& 0 <= self.running_index()
        &&& self.running_index() == 0 || self.running_index() < self.entries().len()
        &&& 0 <= self.sleeping_index()
        &&& self.sleeping_index() == 0 || self.sleeping_index() < self.entries().len()
    }

    /// `after` is `before` with the state of the running task set to `state`.
    pub open spec fn state_set(before: TaskTable, after: TaskTable, state: TaskStates) -> bool {
        &&& after.entries() == set_state_at(before.entries(), before.running_index(), state)
        &&& after.running_index() == before.running_index()
        &&& after.sleeping_index() == before.sleeping_index()
    }

    /// `after` is `before` with the saved stack pointer of the running task set to `sp`.
    pub open spec fn sp_saved(before: TaskTable, after: TaskTable, sp: u32) -> bool {
        &&& after.entries() == set_sp_at(before.entries(), before.running_index(), sp)
        &&& after.running_index() == before.running_index()
        &&& after.sleeping_index() == before.sleeping_index()
    }

    /// `after` is `before` with the running task blocked and recorded as the
    /// sleeping one.
    pub open spec fn marked_sleeping(before: TaskTable, after: TaskTable) -> bool {
        &&& after.entries() == set_state_at(
            before.entries(),
            before.running_index(),
            TaskStates::BLOCKED,
        )
        &&& after.running_index() == before.running_index()
        &&& after.sleeping_index() == before.running_index()
    }

    /// `after` is `before` with the sleeping task made the running one, and
    /// `sp` its saved stack pointer (0 when the table has no such entry).
    pub open spec fn woke_sleeping(before: TaskTable, after: TaskTable, sp: u32) -> bool {
        let s = before.sleeping_index();
        &&& after.entries() == set_state_at(before.entries(), s, TaskStates::RUNNING)
        &&& after.running_index() == s
        &&& after.sleeping_index() == s
        &&& sp == (if s < before.entries().len() {
            before.entries()[s].sp
        } else {
            0u32
        })
    }

    /// `after` is `before` with the processor handed, round robin, to the next
    /// runnable task, and `sp` that task's saved stack pointer.
    pub open spec fn switched(before: TaskTable, after: TaskTable, sp: u32) -> bool {
        &&& after.entries() == before.entries()
        &&& after.running_index() == next_index(before.entries(), before.running_index())
        &&& after.sleeping_index() == before.sleeping_index()
        &&& sp == before.entries()[after.running_index()].sp
    }

    /// `after` is `before` once the running task's stack pointer was saved
    /// as `psp` and the processor was handed, round robin, to the next
    /// runnable task, whose saved stack pointer is `sp`.
    pub open spec fn preempted(before: TaskTable, after: TaskTable, psp: u32, sp: u32) -> bool {
        let saved = set_sp_at(before.entries(), before.running_index(), psp);
        &&& after.entries() == saved
        &&& after.running_index() == next_index(saved, before.running_index())
        &&& after.sleeping_index() == before.sleeping_index()
        &&& sp == saved[after.running_index()].sp
    }

    /// `after` is `before` once the running task's stack pointer was saved
    /// as `psp` and the sleeping task was made the running one; `sp` is its
    /// saved stack pointer (0 when the table holds no such task).
    pub open spec fn resumed_sleeper(before: TaskTable, after: TaskTable, psp: u32, sp: u32) -> bool {
        let saved = set_sp_at(before.entries(), before.running_index(), psp);
        let s = before.sleeping_index();
        &&& after.entries() == set_state_at(saved, s, TaskStates::RUNNING)
        &&& after.running_index() == s
        &&& after.sleeping_index() == s
        &&& sp == (if s < saved.len() {
            saved[s].sp
        } else {
            0u32
        })
    }

    /// An empty table: no tasks, slot 0 running and sleeping.
    pub fn new() -> (table: TaskTable)
        ensures
            table.wf(),
            table.entries() == Seq::<TCB>::empty(),
            table.running_index() == 0,
            table.sleeping_index() == 0,
    {
        TaskTable { tasks: Vec::new(), current: 0, sleeping: 0 }
    }

    /// Number of tasks in the table.
    pub fn len(&self) -> (n: usize)
        ensures
            n == self.entries().len(),
    {
        self.tasks.len()
    }

    /// Slot of the task that currently runs.
    pub fn current_task(&self) -> (i: u32)
        ensures
            i == self.running_index(),
    {
        self.current
    }

    /// Slot of the task that sleeps on the timer.
    pub fn currently_sleeping(&self) -> (i: u32)
        ensures
            i == self.sleeping_index(),
    {
        self.sleeping
    }

    /// The control block in slot `i`, if the table has one.
    pub fn entry(&self, i: usize) -> (t: Option<TCB>)
        ensures
            t == (if i < self.entries().len() {
                Some(self.entries()[i as int])
            } else {
                None
            }),
    {
        if i < self.tasks.len() {
            Some(self.tasks[i])
        } else {
            None
        }
    }

    /// Whether some task of the table may run (is READY or RUNNING).
    pub fn has_runnable_task(&self) -> (b: bool)
        ensures
            b == has_runnable(self.entries()),
    {
        let mut i: usize = 0;
        while i < self.tasks.len()
            invariant
                i <= self.tasks@.len(),
                forall|j: int| 0 <= j < i ==> !runnable(#[trigger] self.tasks@[j]),
            decreases self.tasks@.len() - i,
        {
            if may_run(&self.tasks[i]) {
                return true;
            }
            i = i + 1;
        }
        false
    }

    /// Adds a ready task whose context is saved at `stack_pointer`, and
    /// returns its pid, the next free slot of the table.
    pub fn insert(&mut self, stack_pointer: u32) -> (pid: u32)
        requires
            old(self).wf(),
            TCB_START + old(self).entries().len() * TCB_SIZE <= u32::MAX,
        ensures
            final(self).wf(),
            pid == old(self).entries().len(),
            final(self).entries() == old(self).entries().push(
                TCB { sp: stack_pointer, state: TaskStates::READY, pid: pid },
            ),
            final(self).running_index() == old(self).running_index(),
            final(self).sleeping_index() == old(self).sleeping_index(),
    {
        let pid = self.tasks.len() as u32;
        self.tasks.push(TCB { sp: stack_pointer, state: TaskStates::READY, pid });
        pid
    }

    /// Stores `new_sp` as the saved stack pointer of the running task.
    pub fn update_sp(&mut self, new_sp: u32)
        requires
            old(self).wf(),
        ensures
            final(self).wf(),
            TaskTable::sp_saved(*old(self), *final(self), new_sp),
    {
        let cur = self.current as usize;
        if cur < self.tasks.len() {
            let t = self.tasks[cur];
            self.tasks.set(cur, TCB { sp: new_sp, state: t.state, pid: t.pid });
        }
    }

    /// Overrides the state of the running task with `new_state`.
    pub fn set_task_state(&mut self, new_state: TaskStates)
        requires
            old(self).wf(),
        ensures
            final(self).wf(),
            TaskTable::state_set(*old(self), *final(self), new_state),
    {
        let cur = self.current as usize;
        if cur < self.tasks.len() {
            let t = self.tasks[cur];
            self.tasks.set(cur, TCB { sp: t.sp, state: new_state, pid: t.pid });
        }
    }

    /// Marks the running task as terminated, so that the scheduler skips it.
    pub fn terminate_task(&mut self)
        requires
            old(self).wf(),
        ensures
            final(self).wf(),
            TaskTable::state_set(*old(self), *final(self), TaskStates::TERMINATED),
    {
        self.set_task_state(TaskStates::TERMINATED);
    }

    /// Blocks the running task and records it as the one sleeping on the timer.
    pub fn mark_self_as_sleeping(&mut self)
        requires
            old(self).wf(),
        ensures
            final(self).wf(),
            TaskTable::marked_sleeping(*old(self), *final(self)),
    {
        self.set_task_state(TaskStates::BLOCKED);
        self.sleeping = self.current;
    }

    /// Makes the sleeping task the running one, sets it running and returns
    /// its saved stack pointer (0 when the table holds no such task).
    pub fn get_sleeping(&mut self) -> (sp: u32)
        requires
            old(self).wf(),
        ensures
            final(self).wf(),
            TaskTable::woke_sleeping(*old(self), *final(self), sp),
    {
        let s = self.sleeping;
        self.current = s;
        let si = s as usize;
        if si < self.tasks.len() {
            let t = self.tasks[si];
            self.tasks.set(si, TCB { sp: t.sp, state: TaskStates::RUNNING, pid: t.pid });
            t.sp
        } else {
            0
        }
    }

    /// Hands the processor, round robin, to the next task after the running
    /// one that is neither blocked nor terminated, makes it the running task
    /// and returns its saved stack pointer.
    ///
    /// The table must hold a task, and one that may run: otherwise the
    /// search would never end.
    pub fn next_process(&mut self) -> (sp: u32)
        requires
            old(self).wf(),
            old(self).entries().len() > 0,
            has_runnable(old(self).entries()),
        ensures
            final(self).wf(),
            TaskTable::switched(*old(self), *final(self), sp),
    {
        let ghost tasks = self.tasks@;
        let ghost cur = self.current as int;
        let n = self.tasks.len() as u32;
        proof {
            lemma_step_mod(cur, n as int);
        }
        let mut next: u32 = (self.current + 1) % n;
        let ghost mut k: int = 1;
        while !may_run(&self.tasks[next as usize])
            invariant
                self.tasks@ == tasks,
                self.current as int == cur,
                n as int == tasks.len(),
                0 < n < u32::MAX,
                0 <= cur < n,
                has_runnable(tasks),
                1 <= k <= n,
                next as int == slot_after(cur, k, n as int),
                forall|j: int|
                    #![trigger slot_after(cur, j, n as int)]
                    1 <= j < k ==> !runnable(tasks[slot_after(cur, j, n as int)]),
                runnable_offset(tasks, cur, 1) == runnable_offset(tasks, cur, k as nat),
            decreases n - k,
        {
            assert(k < n) by {
                if k == n {
                    let w = choose|w: int| 0 <= w < tasks.len() && runnable(#[trigger] tasks[w]);
                    let j = if w > cur {
                        w - cur
                    } else {
                        w - cur + n
                    };
                    assert(slot_after(cur, j, n as int) == w);
                }
            }
            proof {
                lemma_step_mod(next as int, n as int);
            }
            next = (next + 1) % n;
            proof {
                k = k + 1;
            }
        }
        self.current = next;
        self.tasks[next as usize].sp
    }

    /// Saves `psp` as the stack pointer of the running task and hands the
    /// processor, round robin, to the next runnable task, whose saved stack
    /// pointer it returns.
    pub fn context_switch(&mut self, psp: u32) -> (sp: u32)
        requires
            old(self).wf(),
            old(self).entries().len() > 0,
            has_runnable(old(self).entries()),
        ensures
            final(self).wf(),
            TaskTable::preempted(*old(self), *final(self), psp, sp),
    {
        let ghost before = self.tasks@;
        self.update_sp(psp);
        proof {
            lemma_set_sp_keeps_runnable(before, self.current as int, psp);
        }
        self.next_process()
    }

    /// Saves `psp` as the stack pointer of the running task and makes the
    /// sleeping task the running one, returning its saved stack pointer
    /// (0 when the table holds no such task).
    pub fn priority_schedule(&mut self, psp: u32) -> (sp: u32)
        requires
            old(self).wf(),
        ensures
            final(self).wf(),
            TaskTable::resumed_sleeper(*old(self), *final(self), psp, sp),
    {
        self.update_sp(psp);
        self.get_sleeping()
    }
}

/// Saving a stack pointer changes no task's state.
proof fn lemma_set_sp_keeps_runnable(tasks: Seq<TCB>, i: int, sp: u32)
    requires
        has_runnable(tasks),
    ensures
        has_runnable(set_sp_at(tasks, i, sp)),
{
    let w = choose|w: int| 0 <= w < tasks.len() && runnable(#[trigger] tasks[w]);
    assert(runnable(set_sp_at(tasks, i, sp)[w]));
}

/// Whether the task may be handed the processor.
fn may_run(t: &TCB) -> (b: bool)
    ensures
        b == runnable(*t),
{
    match t.state {
        TaskStates::READY => true,
        TaskStates::BLOCKED => false,
        TaskStates::TERMINATED => false,
        TaskStates::RUNNING => true,
    }
}

/// One step forward in a table of `n` slots wraps to 0 past the last slot.
proof fn lemma_step_mod(i: int, n: int)
    requires
        0 <= i < n,
    ensures
        (i + 1) % n == (if i + 1 == n {
            0
        } else {
            i + 1
        }),
{
    if i + 1 == n {
        vstd::arithmetic::div_mod::lemma_mod_self_0(n);
    } else {
        vstd::arithmetic::div_mod::lemma_small_mod((i + 1) as nat, n as nat);
    }
}

/// Facts about the search from place `k` on.
proof fn lemma_offset_from(tasks: Seq<TCB>, cur: int, k: nat)
    requires
        0 <= cur < tasks.len(),
        1 <= k <= tasks.len(),
    ensures
        k <= runnable_offset(tasks, cur, k) <= tasks.len(),
        forall|j: int|
            #![trigger slot_after(cur, j, tasks.len() as int)]
            k <= j < runnable_offset(tasks, cur, k) ==> !runnable(
                tasks[slot_after(cur, j, tasks.len() as int)],
            ),
        runnable_offset(tasks, cur, k) < tasks.len() ==> runnable(
            tasks[slot_after(cur, runnable_offset(tasks, cur, k) as int, tasks.len() as int)],
        ),
    decreases tasks.len() - k,
{
    if k < tasks.len() && !runnable(tasks[slot_after(cur, k as int, tasks.len() as int)]) {
        lemma_offset_from(tasks, cur, k + 1);
    }
}

/// Round robin: the task that the scheduler picks after slot `cur` is a slot
/// of the table and may run, it lies 1 to `n` places after `cur` in cyclic
/// order, and every task it passed over on the way is blocked or terminated.
pub proof fn law_round_robin(tasks: Seq<TCB>, cur: int)
    requires
        0 <= cur < tasks.len(),
        has_runnable(tasks),
    ensures
        0 <= next_index(tasks, cur) < tasks.len(),
        runnable(tasks[next_index(tasks, cur)]),
        1 <= runnable_offset(tasks, cur, 1) <= tasks.len(),
        next_index(tasks, cur) == slot_after(cur, runnable_offset(tasks, cur, 1) as int, tasks.len() as int),
        forall|j: int|
            #![trigger slot_after(cur, j, tasks.len() as int)]
            1 <= j < runnable_offset(tasks, cur, 1) ==> !runnable(
                tasks[slot_after(cur, j, tasks.len() as int)],
            ),
{
    let n = tasks.len() as int;
    lemma_offset_from(tasks, cur, 1);
    let off = runnable_offset(tasks, cur, 1) as int;
    if off == n {
        let w = choose|w: int| 0 <= w < tasks.len() && runnable(#[trigger] tasks[w]);
        let j = if w > cur {
            w - cur
        } else {
            w - cur + n
        };
        assert(slot_after(cur, j, n) == w);
    }
}

/// A terminated task is never scheduled again: once the running task is
/// terminated, the next task that the scheduler picks is another one.
pub proof fn law_terminated_task_is_skipped(
    t0: TaskTable,
    t1: TaskTable,
    t2: TaskTable,
    sp: u32,
)
    requires
        t0.wf(),
        t0.running_index() < t0.entries().len(),
        TaskTable::state_set(t0, t1, TaskStates::TERMINATED),
        has_runnable(t1.entries()),
        TaskTable::switched(t1, t2, sp),
    ensures
        t2.running_index() != t0.running_index(),
        t2.entries()[t0.running_index()].state == TaskStates::TERMINATED,
{
    law_round_robin(t1.entries(), t1.running_index());
}

/// A task that goes to sleep is the one that the timer wakes: after the
/// running task is marked sleeping and the sleeping task is woken, the same
/// task runs again, in state RUNNING, from the stack pointer it had saved,
/// and every other task is as it was.
pub proof fn law_sleep_then_wake(t0: TaskTable, t1: TaskTable, t2: TaskTable, sp: u32)
    requires
        t0.wf(),
        t0.running_index() < t0.entries().len(),
        TaskTable::marked_sleeping(t0, t1),
        TaskTable::woke_sleeping(t1, t2, sp),
    ensures
        t2.running_index() == t0.running_index(),
        t2.entries().len() == t0.entries().len(),
        t2.entries()[t0.running_index()] == with_state(
            t0.entries()[t0.running_index()],
            TaskStates::RUNNING,
        ),
        sp == t0.entries()[t0.running_index()].sp,
        forall|i: int|
            0 <= i < t0.entries().len() && i != t0.running_index() ==> #[trigger] t2.entries()[i]
                == t0.entries()[i],
{
}

/// Suspending a task for a time: once the running task is marked sleeping
/// and preempted, the scheduler hands the processor to another task; when
/// the timer then resumes the sleeper, it runs again, in state RUNNING,
/// from exactly the stack pointer that was saved when it was preempted.
pub proof fn law_sleeper_resumes_where_preempted(
    t0: TaskTable,
    t1: TaskTable,
    t2: TaskTable,
    t3: TaskTable,
    psp: u32,
    sp: u32,
    psp2: u32,
    sp2: u32,
)
    requires
        t0.wf(),
        t0.running_index() < t0.entries().len(),
        TaskTable::marked_sleeping(t0, t1),
        has_runnable(t1.entries()),
        TaskTable::preempted(t1, t2, psp, sp),
        TaskTable::resumed_sleeper(t2, t3, psp2, sp2),
    ensures
        t2.running_index() != t0.running_index(),
        t3.running_index() == t0.running_index(),
        t3.entries()[t0.running_index()].state == TaskStates::RUNNING,
        sp2 == psp,
{
    let saved = set_sp_at(t1.entries(), t1.running_index(), psp);
    lemma_set_sp_keeps_runnable(t1.entries(), t1.running_index(), psp);
    law_round_robin(saved, t1.running_index());
    assert(!runnable(saved[t0.running_index()]));
}

/// A call the kernel may make while the task in slot `i` sleeps: a switch
/// to the next runnable task, or, while another task runs, saving that
/// task's stack pointer or setting its state.
pub open spec fn call_while_asleep(i: int, a: TaskTable, b: TaskTable) -> bool {
    ||| (a.entries().len() > 0 && has_runnable(a.entries()) && exists|sp: u32|
        #[trigger] TaskTable::switched(a, b, sp))
    ||| (a.running_index() != i && exists|x: u32| #[trigger] TaskTable::sp_saved(a, b, x))
    ||| (a.running_index() != i && exists|st: TaskStates|
        #[trigger] TaskTable::state_set(a, b, st))
}

/// A wake-up of the sleeping task: `get_sleeping`, or, while another task
/// runs, `priority_schedule` (which first saves that task's stack pointer).
pub open spec fn wakes_sleeper(i: int, a: TaskTable, b: TaskTable, sp: u32) -> bool {
    ||| TaskTable::woke_sleeping(a, b, sp)
    ||| (a.running_index() != i && exists|psp: u32|
        #[trigger] TaskTable::resumed_sleeper(a, b, psp, sp))
}

/// What holds while the task in slot `i` sleeps with stack pointer `x`.
spec fn asleep(i: int, n: nat, x: u32, t: TaskTable) -> bool {
    &&& t.entries().len() == n
    &&& 0 <= t.running_index() < n
    &&& t.sleeping_index() == i
    &&& t.entries()[i].state == TaskStates::BLOCKED
    &&& t.entries()[i].sp == x
}

proof fn lemma_asleep_step(i: int, n: nat, x: u32, a: TaskTable, b: TaskTable)
    requires
        0 <= i < n,
        asleep(i, n, x, a),
        call_while_asleep(i, a, b),
    ensures
        asleep(i, n, x, b),
{
    if a.entries().len() > 0 && has_runnable(a.entries()) && exists|sp: u32|
        #[trigger] TaskTable::switched(a, b, sp) {
        let sp = choose|sp: u32| #[trigger] TaskTable::switched(a, b, sp);
        law_round_robin(a.entries(), a.running_index());
    } else if a.running_index() != i && exists|y: u32| #[trigger] TaskTable::sp_saved(a, b, y) {
        let y = choose|y: u32| #[trigger] TaskTable::sp_saved(a, b, y);
        assert(b.entries()[i] == a.entries()[i]);
    } else {
        let st = choose|st: TaskStates| #[trigger] TaskTable::state_set(a, b, st);
        assert(b.entries()[i] == a.entries()[i]);
    }
}

proof fn lemma_asleep_trace(i: int, n: nat, x: u32, trace: Seq<TaskTable>, k: int)
    requires
        0 <= i < n,
        0 <= k < trace.len(),
        asleep(i, n, x, trace[0]),
        forall|j: int|
            0 <= j < trace.len() - 1 ==> call_while_asleep(i, #[trigger] trace[j], trace[j + 1]),
    ensures
        asleep(i, n, x, trace[k]),
    decreases k,
{
    if k > 0 {
        lemma_asleep_trace(i, n, x, trace, k - 1);
        lemma_asleep_step(i, n, x, trace[k - 1], trace[k]);
    }
}

/// Suspending a task for a time: a task that is marked sleeping and has its
/// stack pointer saved as `x` is passed over by every switch made while it
/// sleeps, whatever stack pointers and states are set for the other tasks
/// meanwhile; when it is woken it runs again, in state RUNNING, from `x`.
pub proof fn law_sleeper_resumes_saved_sp(
    t0: TaskTable,
    t1: TaskTable,
    trace: Seq<TaskTable>,
    x: u32,
    t_end: TaskTable,
    sp: u32,
)
    requires
        t0.wf(),
        t0.running_index() < t0.entries().len(),
        TaskTable::marked_sleeping(t0, t1),
        trace.len() >= 1,
        TaskTable::sp_saved(t1, trace[0], x),
        forall|j: int|
            0 <= j < trace.len() - 1 ==> call_while_asleep(
                t0.running_index(),
                #[trigger] trace[j],
                trace[j + 1],
            ),
        wakes_sleeper(t0.running_index(), trace.last(), t_end, sp),
    ensures
        forall|j: int|
            0 <= j < trace.len() ==> (#[trigger] trace[j]).entries()[t0.running_index()].sp == x
                && trace[j].entries()[t0.running_index()].state == TaskStates::BLOCKED,
        forall|j: int, s: u32|
            0 <= j < trace.len() - 1 && has_runnable(trace[j].entries())
                && #[trigger] TaskTable::switched(trace[j], trace[j + 1], s)
                ==> trace[j + 1].running_index() != t0.running_index(),
        sp == x,
        t_end.running_index() == t0.running_index(),
        t_end.entries()[t0.running_index()].state == TaskStates::RUNNING,
{
    let i = t0.running_index();
    let n = t0.entries().len();
    assert(asleep(i, n, x, trace[0]));
    assert forall|j: int| 0 <= j < trace.len() implies (#[trigger] trace[j]).entries()[i].sp == x
        && trace[j].entries()[i].state == TaskStates::BLOCKED by {
        lemma_asleep_trace(i, n, x, trace, j);
    }
    assert forall|j: int, s: u32|
        0 <= j < trace.len() - 1 && has_runnable(trace[j].entries())
            && #[trigger] TaskTable::switched(trace[j], trace[j + 1], s) implies trace[j
        + 1].running_index() != i by {
        lemma_asleep_trace(i, n, x, trace, j);
        law_round_robin(trace[j].entries(), trace[j].running_index());
    }
    lemma_asleep_trace(i, n, x, trace, trace.len() - 1);
    let last = trace.last();
    if !TaskTable::woke_sleeping(last, t_end, sp) {
        let psp = choose|psp: u32| #[trigger] TaskTable::resumed_sleeper(last, t_end, psp, sp);
        assert(set_sp_at(last.entries(), last.running_index(), psp)[i] == last.entries()[i]);
    }
}

/// A call that leaves the state of slot `c` as it is: a switch to the next
/// runnable task, saving a stack pointer, setting the state of (or putting
/// to sleep) a running task other than `c`, or waking a sleeping task other
/// than `c`.
pub open spec fn call_keeping_state_of(c: int, a: TaskTable, b: TaskTable) -> bool {
    ||| (a.entries().len() > 0 && has_runnable(a.entries()) && exists|sp: u32|
        #[trigger] TaskTable::switched(a, b, sp))
    ||| exists|x: u32| #[trigger] TaskTable::sp_saved(a, b, x)
    ||| (a.running_index() != c && exists|st: TaskStates|
        #[trigger] TaskTable::state_set(a, b, st))
    ||| (a.running_index() != c && TaskTable::marked_sleeping(a, b))
    ||| (a.sleeping_index() != c && exists|sp: u32| #[trigger] TaskTable::woke_sleeping(a, b, sp))
}

/// What holds while the task in slot `c` stays terminated.
spec fn stays_terminated(c: int, n: nat, t: TaskTable) -> bool {
    &&& t.entries().len() == n
    &&& 0 <= t.running_index() < n
    &&& 0 <= t.sleeping_index() < n
    &&& t.entries()[c].state == TaskStates::TERMINATED
}

proof fn lemma_terminated_step(c: int, n: nat, a: TaskTable, b: TaskTable)
    requires
        0 <= c < n,
        stays_terminated(c, n, a),
        call_keeping_state_of(c, a, b),
    ensures
        stays_terminated(c, n, b),
{
    if a.entries().len() > 0 && has_runnable(a.entries()) && exists|sp: u32|
        #[trigger] TaskTable::switched(a, b, sp) {
        let sp = choose|sp: u32| #[trigger] TaskTable::switched(a, b, sp);
        law_round_robin(a.entries(), a.running_index());
    } else if exists|y: u32| #[trigger] TaskTable::sp_saved(a, b, y) {
        let y = choose|y: u32| #[trigger] TaskTable::sp_saved(a, b, y);
        assert(b.entries()[c].state == a.entries()[c].state);
    } else if a.running_index() != c && exists|st: TaskStates|
        #[trigger] TaskTable::state_set(a, b, st) {
        let st = choose|st: TaskStates| #[trigger] TaskTable::state_set(a, b, st);
        assert(b.entries()[c] == a.entries()[c]);
    } else if a.running_index() != c && TaskTable::marked_sleeping(a, b) {
        assert(b.entries()[c] == a.entries()[c]);
    } else {
        let sp = choose|sp: u32| #[trigger] TaskTable::woke_sleeping(a, b, sp);
        assert(b.entries()[c] == a.entries()[c]);
    }
}

proof fn lemma_terminated_trace(c: int, n: nat, trace: Seq<TaskTable>, k: int)
    requires
        0 <= c < n,
        0 <= k < trace.len(),
        stays_terminated(c, n, trace[0]),
        forall|j: int|
            0 <= j < trace.len() - 1 ==> call_keeping_state_of(c, #[trigger] trace[j], trace[j + 1]),
    ensures
        stays_terminated(c, n, trace[k]),
    decreases k,
{
    if k > 0 {
        lemma_terminated_trace(c, n, trace, k - 1);
        lemma_terminated_step(c, n, trace[k - 1], trace[k]);
    }
}

/// A terminated task is never scheduled again: once the running task is
/// terminated, it stays terminated and no switch lands on it, whatever
/// calls follow, as long as none of them sets the state of that task again
/// (by setting the state of the running task while it runs, or by waking it
/// as the sleeping task).
pub proof fn law_terminated_never_scheduled(t0: TaskTable, trace: Seq<TaskTable>)
    requires
        t0.wf(),
        t0.running_index() < t0.entries().len(),
        trace.len() >= 1,
        TaskTable::state_set(t0, trace[0], TaskStates::TERMINATED),
        forall|j: int|
            0 <= j < trace.len() - 1 ==> call_keeping_state_of(
                t0.running_index(),
                #[trigger] trace[j],
                trace[j + 1],
            ),
    ensures
        forall|j: int|
            0 <= j < trace.len() ==> (#[trigger] trace[j]).entries()[t0.running_index()].state
                == TaskStates::TERMINATED,
        forall|j: int, sp: u32|
            0 <= j < trace.len() - 1 && has_runnable(trace[j].entries())
                && #[trigger] TaskTable::switched(trace[j], trace[j + 1], sp)
                ==> trace[j + 1].running_index() != t0.running_index(),
{
    let c = t0.running_index();
    let n = t0.entries().len();
    assert(stays_terminated(c, n, trace[0]));
    assert forall|j: int| 0 <= j < trace.len() implies (#[trigger] trace[j]).entries()[c].state
        == TaskStates::TERMINATED by {
        lemma_terminated_trace(c, n, trace, j);
    }
    assert forall|j: int, sp: u32|
        0 <= j < trace.len() - 1 && has_runnable(trace[j].entries())
            && #[trigger] TaskTable::switched(trace[j], trace[j + 1], sp) implies trace[j
        + 1].running_index() != c by {
        lemma_terminated_trace(c, n, trace, j);
        law_round_robin(trace[j].entries(), trace[j].running_index());
    }
}

/// Setting the state of the running task changes that task's state and
/// nothing else: its stack pointer and pid, every other entry, the length
/// of the table and the running and sleeping slots are kept. When no task
/// runs in a slot of the table, nothing changes.
pub proof fn law_state_set_touches_only_running(before: TaskTable, after: TaskTable, state: TaskStates)
    requires
        TaskTable::state_set(before, after, state),
    ensures
        after.entries().len() == before.entries().len(),
        after.running_index() == before.running_index(),
        after.sleeping_index() == before.sleeping_index(),
        forall|i: int|
            0 <= i < before.entries().len() && i != before.running_index() ==> #[trigger] after.entries()[i]
                == before.entries()[i],
        0 <= before.running_index() < before.entries().len() ==> {
            let r = before.running_index();
            &&& after.entries()[r].state == state
            &&& after.entries()[r].sp == before.entries()[r].sp
            &&& after.entries()[r].pid == before.entries()[r].pid
        },
        !(0 <= before.running_index() < before.entries().len()) ==> after.entries()
            == before.entries(),
{
}

/// Saving a stack pointer changes the running task's stack pointer and
/// nothing else: its state and pid, every other entry, and the running and
/// sleeping slots are kept.
pub proof fn law_sp_saved_touches_only_running(before: TaskTable, after: TaskTable, sp: u32)
    requires
        TaskTable::sp_saved(before, after, sp),
    ensures
        after.entries().len() == before.entries().len(),
        after.running_index() == before.running_index(),
        after.sleeping_index() == before.sleeping_index(),
        forall|i: int|
            0 <= i < before.entries().len() && i != before.running_index() ==> #[trigger] after.entries()[i]
                == before.entries()[i],
        0 <= before.running_index() < before.entries().len() ==> {
            let r = before.running_index();
            &&& after.entries()[r].sp == sp
            &&& after.entries()[r].state == before.entries()[r].state
            &&& after.entries()[r].pid == before.entries()[r].pid
        },
        !(0 <= before.running_index() < before.entries().len()) ==> after.entries()
            == before.entries(),
{
}

/// Waking the sleeping task changes its state to RUNNING and nothing else
/// in the table; it becomes the running task.
pub proof fn law_wake_touches_only_sleeper(before: TaskTable, after: TaskTable, sp: u32)
    requires
        TaskTable::woke_sleeping(before, after, sp),
    ensures
        after.entries().len() == before.entries().len(),
        after.running_index() == before.sleeping_index(),
        forall|i: int|
            0 <= i < before.entries().len() && i != before.sleeping_index() ==> #[trigger] after.entries()[i]
                == before.entries()[i],
        0 <= before.sleeping_index() < before.entries().len() ==> {
            let s = before.sleeping_index();
            &&& after.entries()[s].state == TaskStates::RUNNING
            &&& after.entries()[s].sp == before.entries()[s].sp
            &&& after.entries()[s].pid == before.entries()[s].pid
            &&& sp == before.entries()[s].sp
        },
{
}

} // verus!
