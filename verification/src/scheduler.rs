//! Round-robin preemptive scheduler.
//!
//! The scheduler owns a dense table of at most [`MAX_TASKS`] tasks. Each
//! task is assigned a fixed 16 KiB stack region, carved out of one virtual
//! stack area so that every task's saved stack pointer provably stays
//! inside its own region. A timer interrupt hands the scheduler the
//! exception frame of the interrupted task; the scheduler saves it into
//! the outgoing task's context, picks the next Ready task strictly
//! rotationally, and builds the frame the trampoline restores from.

use vstd::prelude::*;
use vstd::arithmetic::div_mod::{lemma_add_mod_noop, lemma_mod_bound, lemma_mod_self_0, lemma_small_mod};
use crate::exceptions::{
    context_after_capture, frame_of_context, frame_from_context, save_frame_to_context,
    ExceptionFrame, EXCEPTION_FRAME_SIZE,
};
use crate::task::{TaskContext, TaskId};

verus! {

/// Maximum number of tasks the table can hold.
pub const MAX_TASKS: usize = 8;

/// Size of each task's stack in bytes.
pub const TASK_STACK_SIZE: u64 = 16 * 1024;

/// Base of the virtual area the per-task stacks are carved from.
/// Task `i` owns `(STACK_REGION_BASE + i * TASK_STACK_SIZE, STACK_REGION_BASE + (i + 1) * TASK_STACK_SIZE]`;
/// its stack grows downward from the top of that region.
pub const STACK_REGION_BASE: u64 = 0x4040_0000;

/// Execution state of a task.
#[derive(Debug, Clone, Copy, PartialEq, Eq, Structural)]
pub enum TaskState {
    Ready,
    Running,
    Blocked,
}

/// Task control block: saved context, execution state, and dense id.
#[derive(Debug, Clone, Copy, PartialEq, Eq, Structural)]
pub struct Task {
    pub context: TaskContext,
    pub state: TaskState,
    pub id: usize,
}

impl Task {
    /// A blocked placeholder task with a cleared context.
    pub fn new() -> (r: Self)
        ensures
            r == (Task { context: TaskContext::spec_new(), state: TaskState::Blocked, id: 0 }),
    {
        Task { context: TaskContext::new(), state: TaskState::Blocked, id: 0 }
    }
}

/// Lowest address (exclusive) of task `i`'s stack region.
pub open spec fn spec_stack_base(i: int) -> int {
    STACK_REGION_BASE + i * TASK_STACK_SIZE
}

/// Top of task `i`'s stack: the initial stack pointer of the task.
pub open spec fn spec_stack_top(i: int) -> int {
    spec_stack_base(i) + TASK_STACK_SIZE
}

/// The saved stack pointer `sp` lies within task `i`'s own stack region.
pub open spec fn sp_in_stack(i: int, sp: u64) -> bool {
    spec_stack_base(i) < sp <= spec_stack_top(i)
}

/// At most one task of the table is Running.
pub open spec fn at_most_one_running(tasks: Seq<Task>) -> bool {
    forall|i: int, j: int|
        0 <= i < tasks.len() && 0 <= j < tasks.len()
            && (#[trigger] tasks[i]).state == TaskState::Running
            && (#[trigger] tasks[j]).state == TaskState::Running
            ==> i == j
}

/// The round-robin scheduler.
pub struct Scheduler {
    pub tasks: Vec<Task>,
    pub current_task: usize,
    /// Monotonic count of completed IRQ-driven switches.
    pub switch_count: u64,
}

impl Scheduler {
    /// Structural well-formedness: the table is dense, bounded, the current
    /// index valid, and every saved stack pointer inside its own region.
    pub open spec fn wf(self) -> bool {
        &&& self.tasks@.len() <= MAX_TASKS
        &&& (self.tasks@.len() == 0 ==> self.current_task == 0)
        &&& (self.tasks@.len() > 0 ==> (self.current_task as int) < self.tasks@.len())
        &&& forall|i: int| 0 <= i < self.tasks@.len()
                ==> (#[trigger] self.tasks@[i]).id == i && sp_in_stack(i, self.tasks@[i].context.sp)
    }

    /// Any Running task is the current one.
    pub open spec fn running_is_current(self) -> bool {
        forall|i: int| 0 <= i < self.tasks@.len()
            && (#[trigger] self.tasks@[i]).state == TaskState::Running
            ==> i == self.current_task as int
    }

    /// An empty scheduler.
    pub fn new() -> (r: Self)
        ensures
            r.wf(),
            r.running_is_current(),
            r.tasks@.len() == 0,
            r.current_task == 0,
            r.switch_count == 0,
    {
        Scheduler { tasks: Vec::new(), current_task: 0, switch_count: 0 }
    }

    /// Add a task whose entry point is `entry_point`, assigning the next
    /// dense id and a fresh stack region, and mark it Ready. Fails exactly
    /// when the table is full; ids are never reused.
    pub fn spawn(&mut self, entry_point: u64) -> (r: Option<usize>)
        requires
            old(self).wf(),
        ensures
            final(self).wf(),
            old(self).tasks@.len() >= MAX_TASKS ==> r is None && *final(self) == *old(self),
            old(self).tasks@.len() < MAX_TASKS ==> {
                let id = old(self).tasks@.len() as int;
                &&& r == Some(old(self).tasks.len())
                &&& final(self).tasks@ == old(self).tasks@.push(Task {
                        context: TaskContext::spec_init(entry_point, spec_stack_top(id) as u64),
                        state: TaskState::Ready,
                        id: id as usize,
                    })
                &&& final(self).current_task == old(self).current_task
                &&& final(self).switch_count == old(self).switch_count
            },
            old(self).running_is_current() ==> final(self).running_is_current(),
    {
        if self.tasks.len() >= MAX_TASKS {
            return None;
        }
        let task_id = self.tasks.len();
        let stack_top = STACK_REGION_BASE + (task_id as u64 + 1) * TASK_STACK_SIZE;
        let context = TaskContext::init(entry_point, stack_top);
        self.tasks.push(Task { context, state: TaskState::Ready, id: task_id });
        Some(task_id)
    }

    /// The current task.
    pub fn current(&self) -> (r: &Task)
        requires
            self.wf(),
            self.tasks@.len() > 0,
        ensures
            *r == self.tasks@[self.current_task as int],
    {
        &self.tasks[self.current_task]
    }

    /// Mutable access to the current task.
    pub fn current_mut(&mut self) -> (r: &mut Task)
        requires
            old(self).wf(),
            old(self).tasks@.len() > 0,
        ensures
            *r == old(self).tasks@[old(self).current_task as int],
            final(self).tasks@ == old(self).tasks@.update(old(self).current_task as int, *final(r)),
            final(self).current_task == old(self).current_task,
            final(self).switch_count == old(self).switch_count,
    {
        let idx = self.current_task;
        &mut self.tasks[idx]
    }

    /// Number of tasks in the table.
    pub fn num_tasks(&self) -> (r: usize)
        ensures
            r == self.tasks@.len(),
    {
        self.tasks.len()
    }

    /// Advance `current_task` to the next Ready task in strictly rotational
    /// order. If no task other than the current one is Ready, the current
    /// index is kept. Task states are not changed.
    pub fn schedule(&mut self)
        requires
            old(self).wf(),
        ensures
            final(self).wf(),
            final(self).tasks@ == old(self).tasks@,
            final(self).switch_count == old(self).switch_count,
            old(self).tasks@.len() == 0 ==> final(self).current_task == old(self).current_task,
            old(self).tasks@.len() > 0 ==> final(self).current_task as int
                == rr_search(old(self).tasks@, old(self).current_task as int, 1),
    {
        let n = self.tasks.len();
        if n == 0 {
            return;
        }
        let start = self.current_task;
        let mut k: usize = 1;
        let mut cur: usize = if start + 1 == n { 0 } else { start + 1 };
        proof {
            lemma_small_mod(start as nat, n as nat);
            lemma_wrap_is_mod(start as int, 1, n as int);
        }
        while k < n && self.tasks[cur].state != TaskState::Ready
            invariant
                self.wf(),
                n == self.tasks@.len(),
                0 < n,
                start == self.current_task,
                (start as int) < n,
                1 <= k <= n,
                cur < n,
                cur as int == (start + k) % (n as int),
                forall|j: int| 1 <= j < k
                    ==> (#[trigger] self.tasks@[(start + j) % (n as int)]).state != TaskState::Ready,
            decreases n - k,
        {
            k = k + 1;
            cur = if cur + 1 == n { 0 } else { cur + 1 };
            proof {
                lemma_wrap_is_mod(start as int, k as int, n as int);
            }
        }
        proof {
            lemma_rr_search_from(self.tasks@, start as int, 1, k as int);
            if k == n {
                lemma_add_mod_noop(start as int, n as int, n as int);
                lemma_mod_self_0(n as int);
                lemma_small_mod(start as nat, n as nat);
            }
        }
        self.current_task = cur;
    }

    /// The canonical IRQ-driven switch.
    ///
    /// Saves `frame` into the outgoing task's context (its own stack
    /// pointer is kept: the frame lives on the IRQ stack), marks the
    /// outgoing task Ready unless it is Blocked, advances round-robin,
    /// marks the incoming task Running, increments the switch counter, and
    /// returns the frame to restore from together with the address on the
    /// incoming task's stack where the trampoline must place it.
    pub fn switch_task(&mut self, frame: &ExceptionFrame) -> (r: (ExceptionFrame, u64))
        requires
            old(self).wf(),
            old(self).tasks@.len() > 0,
            old(self).running_is_current(),
            old(self).switch_count < u64::MAX,
        ensures
            final(self).wf(),
            final(self).running_is_current(),
            at_most_one_running(final(self).tasks@),
            ({
                let prev = old(self).current_task as int;
                let outgoing = old(self).tasks@[prev];
                let mid = old(self).tasks@.update(prev, Task {
                    context: context_after_capture(outgoing.context, *frame),
                    state: if outgoing.state == TaskState::Blocked { TaskState::Blocked } else { TaskState::Ready },
                    id: outgoing.id,
                });
                let nxt = rr_search(mid, prev, 1);
                &&& final(self).current_task as int == nxt
                &&& final(self).tasks@ == mid.update(nxt, Task { state: TaskState::Running, ..mid[nxt] })
                &&& final(self).switch_count == old(self).switch_count + 1
                &&& r.0 == frame_of_context(mid[nxt].context)
                &&& r.1 == mid[nxt].context.sp - EXCEPTION_FRAME_SIZE
            }),
    {
        let prev = self.current_task;
        let mut outgoing = self.tasks[prev];
        save_frame_to_context(frame, &mut outgoing.context);
        if outgoing.state != TaskState::Blocked {
            outgoing.state = TaskState::Ready;
        }
        self.tasks.set(prev, outgoing);

        self.schedule();
        proof {
            lemma_rr_search_bounds(self.tasks@, prev as int, 1);
        }
        let nxt = self.current_task;
        let mut incoming = self.tasks[nxt];
        incoming.state = TaskState::Running;
        self.tasks.set(nxt, incoming);
        self.switch_count = self.switch_count + 1;

        let restored = frame_from_context(&incoming.context);
        let frame_addr = incoming.context.sp - EXCEPTION_FRAME_SIZE;
        (restored, frame_addr)
    }

    /// The cooperative switch decision: mark the current task Ready
    /// unless it is Blocked, advance round-robin, and mark the selected
    /// task Running. Returns the outgoing and incoming indices whose
    /// contexts the trampoline must exchange, or `None` when there is at
    /// most one task or the rotation comes back to the current one.
    pub fn switch_to_next(&mut self) -> (r: Option<(usize, usize)>)
        requires
            old(self).wf(),
            old(self).running_is_current(),
        ensures
            final(self).wf(),
            final(self).running_is_current(),
            at_most_one_running(final(self).tasks@),
            final(self).switch_count == old(self).switch_count,
            old(self).tasks@.len() <= 1 ==> r is None && *final(self) == *old(self),
            old(self).tasks@.len() > 1 ==> {
                let prev = old(self).current_task as int;
                let outgoing = old(self).tasks@[prev];
                let mid = old(self).tasks@.update(prev, Task {
                    state: if outgoing.state == TaskState::Blocked { TaskState::Blocked } else { TaskState::Ready },
                    ..outgoing
                });
                let nxt = rr_search(mid, prev, 1);
                &&& final(self).current_task as int == nxt
                &&& final(self).tasks@ == mid.update(nxt, Task { state: TaskState::Running, ..mid[nxt] })
                &&& r == (if nxt == prev { None } else { Some((prev as usize, nxt as usize)) })
            },
    {
        if self.tasks.len() <= 1 {
            return None;
        }
        let prev = self.current_task;
        let mut outgoing = self.tasks[prev];
        if outgoing.state != TaskState::Blocked {
            outgoing.state = TaskState::Ready;
        }
        self.tasks.set(prev, outgoing);

        self.schedule();
        proof {
            lemma_rr_search_bounds(self.tasks@, prev as int, 1);
        }
        let nxt = self.current_task;
        let mut incoming = self.tasks[nxt];
        incoming.state = TaskState::Running;
        self.tasks.set(nxt, incoming);

        if prev == nxt {
            None
        } else {
            Some((prev, nxt))
        }
    }

    /// Mark the current task Blocked; it keeps the CPU until the next
    /// switch, but will be skipped by the scheduler until it is unblocked.
    pub fn block_current(&mut self)
        requires
            old(self).wf(),
            old(self).tasks@.len() > 0,
        ensures
            final(self).wf(),
            final(self).tasks@ == old(self).tasks@.update(
                old(self).current_task as int,
                (Task {
                    state: TaskState::Blocked,
                    ..old(self).tasks@[old(self).current_task as int]
                }),
            ),
            final(self).current_task == old(self).current_task,
            final(self).switch_count == old(self).switch_count,
            old(self).running_is_current() ==> final(self).running_is_current(),
    {
        let idx = self.current_task;
        let mut t = self.tasks[idx];
        t.state = TaskState::Blocked;
        self.tasks.set(idx, t);
    }

    /// Make a Blocked task Ready again. An id that is out of range or
    /// names a task that is not Blocked leaves the scheduler unchanged.
    pub fn unblock_task(&mut self, id: TaskId)
        requires
            old(self).wf(),
        ensures
            final(self).wf(),
            final(self).current_task == old(self).current_task,
            final(self).switch_count == old(self).switch_count,
            ({
                let i = id.0 as int;
                if 0 <= i < old(self).tasks@.len() && old(self).tasks@[i].state == TaskState::Blocked {
                    final(self).tasks@ == old(self).tasks@.update(i, Task {
                        state: TaskState::Ready,
                        ..old(self).tasks@[i]
                    })
                } else {
                    final(self).tasks@ == old(self).tasks@
                }
            }),
            old(self).running_is_current() ==> final(self).running_is_current(),
    {
        let i = id.0;
        if i < self.tasks.len() as u64 {
            let idx = i as usize;
            let mut t = self.tasks[idx];
            if t.state == TaskState::Blocked {
                t.state = TaskState::Ready;
                self.tasks.set(idx, t);
            }
        }
    }

    /// Boot-time launch of the first task: select task 0, mark it Running,
    /// and hand back the `(pc, sp, pstate)` triple the boot code loads
    /// before its exception return. Returns `None` on an empty table.
    pub fn begin_first_task(&mut self) -> (r: Option<(u64, u64, u64)>)
        requires
            old(self).wf(),
            forall|i: int| 0 <= i < old(self).tasks@.len()
                ==> (#[trigger] old(self).tasks@[i]).state != TaskState::Running,
        ensures
            final(self).wf(),
            final(self).running_is_current(),
            old(self).tasks@.len() == 0 ==> r is None && *final(self) == *old(self),
            old(self).tasks@.len() > 0 ==> {
                let t0 = old(self).tasks@[0];
                &&& r == Some((t0.context.pc, t0.context.sp, t0.context.pstate))
                &&& final(self).tasks@ == old(self).tasks@.update(0, Task { state: TaskState::Running, ..t0 })
                &&& final(self).current_task == 0
                &&& final(self).switch_count == old(self).switch_count
            },
    {
        if self.tasks.len() == 0 {
            return None;
        }
        self.current_task = 0;
        let mut t0 = self.tasks[0];
        t0.state = TaskState::Running;
        self.tasks.set(0, t0);
        Some((t0.context.pc, t0.context.sp, t0.context.pstate))
    }

    /// Reset the context-switch counter.
    pub fn reset_switch_counter(&mut self)
        ensures
            final(self).switch_count == 0,
            final(self).tasks@ == old(self).tasks@,
            final(self).current_task == old(self).current_task,
    {
        self.switch_count = 0;
    }

    /// Read the context-switch counter. On hardware this read is fenced
    /// with full system barriers by the caller so that it observes every
    /// completed switch.
    pub fn get_switch_count(&self) -> (r: u64)
        ensures
            r == self.switch_count,
    {
        self.switch_count
    }
}

/// Each adjacent pair of states is related as one completed
/// [`Scheduler::switch_task`] relates its pre- and post-state: the switch
/// counter grows by exactly one.
pub open spec fn switch_chain(states: Seq<Scheduler>) -> bool {
    forall|i: int| 0 <= i < states.len() - 1
        ==> (#[trigger] states[i + 1].switch_count) == states[i].switch_count + 1
}

/// Counter visibility: along any chain of completed switches that starts
/// from a reset counter, the counter read after the `k`-th switch is
/// exactly `k` — a reader observes every switch, none dropped and none
/// double-counted. [`Scheduler::reset_switch_counter`] establishes the
/// zero start, [`Scheduler::switch_task`] the chain relation, and
/// [`Scheduler::get_switch_count`] returns the counter unchanged.
pub proof fn lemma_switch_counter_exact(states: Seq<Scheduler>)
    requires
        states.len() > 0,
        states[0].switch_count == 0,
        switch_chain(states),
    ensures
        states.last().switch_count == states.len() - 1,
    decreases states.len(),
{
    if states.len() > 1 {
        let prefix = states.drop_last();
        assert(forall|i: int| 0 <= i < prefix.len() - 1
            ==> (#[trigger] prefix[i + 1].switch_count) == prefix[i].switch_count + 1);
        lemma_switch_counter_exact(prefix);
        assert(states.last().switch_count == states[states.len() - 2].switch_count + 1);
    }
}

/// The index the round-robin scan settles on, scanning from offset `k`
/// onward: the first index among `(start + k) % n, (start + k + 1) % n, ...`
/// whose task is Ready, stopping at the full cycle (offset `n`), where the
/// scan gives up and keeps `start`.
pub open spec fn rr_search(tasks: Seq<Task>, start: int, k: int) -> int
    decreases tasks.len() - k,
{
    let n = tasks.len() as int;
    let idx = (start + k) % n;
    if tasks[idx].state == TaskState::Ready {
        idx
    } else if k >= n {
        start
    } else {
        rr_search(tasks, start, k + 1)
    }
}

/// Incrementing a wrapped index and wrapping again at `n` is addition mod `n`.
proof fn lemma_wrap_is_mod(start: int, k: int, n: int)
    requires
        0 < n,
        0 <= start < n,
        1 <= k,
    ensures
        (if (start + k - 1) % n + 1 == n { 0int } else { (start + k - 1) % n + 1 }) == (start + k) % n,
        0 <= (start + k) % n < n,
        0 <= (start + k - 1) % n < n,
{
    let prev = (start + k - 1) % n;
    lemma_mod_bound(start + k - 1, n);
    lemma_mod_bound(start + k, n);
    lemma_add_mod_noop(start + k - 1, 1, n);
    lemma_small_mod(prev as nat, n as nat);
    if n == 1 {
        lemma_mod_self_0(1);
        assert(1int % n == 0);
        assert((prev + 1int % n) % n == (start + k) % n);
        assert(prev == 0);
    } else {
        lemma_small_mod(1nat, n as nat);
        assert((prev + 1) % n == (start + k) % n);
        if prev + 1 == n {
            lemma_mod_self_0(n);
        } else {
            lemma_small_mod((prev + 1) as nat, n as nat);
        }
    }
}

/// If no task at offsets `m..k` from `start` is Ready, the scan from `m`
/// equals the scan from `k`: it skips the non-Ready prefix.
proof fn lemma_rr_search_from(tasks: Seq<Task>, start: int, m: int, k: int)
    requires
        0 < tasks.len(),
        0 <= start < tasks.len(),
        1 <= m <= k <= tasks.len(),
        forall|j: int| m <= j < k
            ==> (#[trigger] tasks[(start + j) % (tasks.len() as int)]).state != TaskState::Ready,
    ensures
        rr_search(tasks, start, m) == rr_search(tasks, start, k),
    decreases k - m,
{
    if m < k {
        lemma_rr_search_from(tasks, start, m + 1, k);
    }
}

/// The round-robin scan always lands on a valid index.
pub proof fn lemma_rr_search_bounds(tasks: Seq<Task>, start: int, k: int)
    requires
        0 < tasks.len(),
        0 <= start < tasks.len(),
        1 <= k,
    ensures
        0 <= rr_search(tasks, start, k) < tasks.len(),
    decreases tasks.len() - k,
{
    let n = tasks.len() as int;
    lemma_mod_bound(start + k, n);
    if tasks[(start + k) % n].state == TaskState::Ready {
    } else if k >= n {
    } else {
        lemma_rr_search_bounds(tasks, start, k + 1);
    }
}

/// Every task of the table is Ready.
pub open spec fn all_ready(tasks: Seq<Task>) -> bool {
    forall|i: int| 0 <= i < tasks.len() ==> (#[trigger] tasks[i]).state == TaskState::Ready
}

/// The current index after `m` consecutive round-robin decisions starting
/// from `start`, with task states held fixed.
pub open spec fn rr_iter(tasks: Seq<Task>, start: int, m: nat) -> int
    decreases m,
{
    if m == 0 {
        start
    } else {
        rr_search(tasks, rr_iter(tasks, start, (m - 1) as nat), 1)
    }
}

/// With every task Ready, one round-robin decision advances the current
/// index by exactly one, modulo the table size.
pub proof fn lemma_rr_all_ready_step(tasks: Seq<Task>, c: int)
    requires
        0 < tasks.len(),
        0 <= c < tasks.len(),
        all_ready(tasks),
    ensures
        rr_search(tasks, c, 1) == (c + 1) % (tasks.len() as int),
{
    let n = tasks.len() as int;
    lemma_mod_bound(c + 1, n);
}

/// With every task Ready, `m` round-robin decisions advance the current
/// index by exactly `m`, modulo the table size.
pub proof fn lemma_rr_iter_all_ready(tasks: Seq<Task>, c: int, m: nat)
    requires
        0 < tasks.len(),
        0 <= c < tasks.len(),
        all_ready(tasks),
    ensures
        rr_iter(tasks, c, m) == (c + m) % (tasks.len() as int),
        0 <= rr_iter(tasks, c, m) < tasks.len(),
    decreases m,
{
    let n = tasks.len() as int;
    if m == 0 {
        lemma_small_mod(c as nat, n as nat);
    } else {
        lemma_rr_iter_all_ready(tasks, c, (m - 1) as nat);
        let prev = rr_iter(tasks, c, (m - 1) as nat);
        lemma_rr_all_ready_step(tasks, prev);
        assert(rr_iter(tasks, c, m) == (prev + 1) % n);
        lemma_add_mod_noop(c + m - 1, 1, n);
        if n == 1 {
            lemma_mod_self_0(1);
            lemma_mod_bound(prev + 1, n);
        } else {
            lemma_small_mod(1nat, n as nat);
            assert((prev + 1) % n == ((c + m - 1) % n + 1int % n) % n);
            assert((prev + 1) % n == (c + m) % n);
        }
        lemma_mod_bound(c + m, n);
    }
}

/// Fairness of the rotation: with every task Ready and states held fixed,
/// each task index is selected within any window of `n` consecutive
/// round-robin decisions, where `n` is the number of tasks. Together with
/// a 10 ms tick this is the guarantee that in any window of `n` ticks
/// every Ready task runs at least once.
pub proof fn lemma_round_robin_fairness(tasks: Seq<Task>, c: int, t: int)
    requires
        0 < tasks.len(),
        0 <= c < tasks.len(),
        0 <= t < tasks.len(),
        all_ready(tasks),
    ensures
        exists|m: nat| 1 <= m <= tasks.len() && rr_iter(tasks, c, m) == t,
{
    let n = tasks.len() as int;
    let m: nat = if t > c { (t - c) as nat } else { (t - c + n) as nat };
    lemma_rr_iter_all_ready(tasks, c, m);
    if t > c {
        lemma_small_mod(t as nat, n as nat);
        assert(rr_iter(tasks, c, m) == t);
    } else {
        assert(c + m == t + n);
        lemma_add_mod_noop(t, n, n);
        lemma_mod_self_0(n);
        lemma_small_mod(t as nat, n as nat);
        assert((t + n) % n == t);
        assert(rr_iter(tasks, c, m) == t);
    }
    assert(1 <= m <= tasks.len() && rr_iter(tasks, c, m) == t);
}

} // verus!
