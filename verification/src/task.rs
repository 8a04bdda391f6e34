//! Task identifiers, priorities, and the saved register state of a task.
//!
//! A task's saved context holds every general-purpose register (x0..x30),
//! the stack pointer, the program counter, and the processor state word.
//! Its layout is deliberately congruent with the exception frame pushed by
//! the IRQ vector, so a context switch is a field-for-field copy.

use vstd::prelude::*;

verus! {

/// Dense, never-reused identifier of a task.
#[derive(Debug, Clone, Copy, PartialEq, Eq, Structural)]
pub struct TaskId(pub u64);

impl TaskId {
    pub fn new(id: u64) -> (r: Self)
        ensures
            r.0 == id,
    {
        TaskId(id)
    }

    pub fn value(&self) -> (r: u64)
        ensures
            r == self.0,
    {
        self.0
    }
}

/// Task priority. The round-robin core ignores it; it is kept for
/// interface compatibility with schedulers that honour it.
#[derive(Debug, Clone, Copy, PartialEq, Eq, Structural, PartialOrd, Ord)]
pub enum Priority {
    Low,
    Normal,
    High,
    Realtime,
}

/// Processor-state word for EL1h with debug, SError, IRQ and FIQ unmasked:
/// only the mode bits 0b00101 are set.
pub const PSTATE_EL1H_IRQ_UNMASKED: u64 = 0b00101;

/// Saved register image of a task at its last preemption point.
///
/// All thirty-one general-purpose registers are kept, not only the
/// callee-saved ones, because preemption can hit at any instruction.
#[derive(Debug, Clone, Copy, PartialEq, Eq, Structural)]
pub struct TaskContext {
    pub x0: u64,
    pub x1: u64,
    pub x2: u64,
    pub x3: u64,
    pub x4: u64,
    pub x5: u64,
    pub x6: u64,
    pub x7: u64,
    pub x8: u64,
    pub x9: u64,
    pub x10: u64,
    pub x11: u64,
    pub x12: u64,
    pub x13: u64,
    pub x14: u64,
    pub x15: u64,
    pub x16: u64,
    pub x17: u64,
    pub x18: u64,
    pub x19: u64,
    pub x20: u64,
    pub x21: u64,
    pub x22: u64,
    pub x23: u64,
    pub x24: u64,
    pub x25: u64,
    pub x26: u64,
    pub x27: u64,
    pub x28: u64,
    /// Frame pointer.
    pub x29_fp: u64,
    /// Link register.
    pub x30_lr: u64,
    /// The task's own stack pointer.
    pub sp: u64,
    /// Program counter: where the task resumes.
    pub pc: u64,
    /// Processor state word restored on exception return.
    pub pstate: u64,
}

impl TaskContext {
    /// The all-zero context.
    pub open spec fn spec_new() -> TaskContext {
        TaskContext {
            x0: 0, x1: 0, x2: 0, x3: 0, x4: 0, x5: 0, x6: 0, x7: 0,
            x8: 0, x9: 0, x10: 0, x11: 0, x12: 0, x13: 0, x14: 0, x15: 0,
            x16: 0, x17: 0, x18: 0, x19: 0, x20: 0, x21: 0, x22: 0, x23: 0,
            x24: 0, x25: 0, x26: 0, x27: 0, x28: 0, x29_fp: 0, x30_lr: 0,
            sp: 0, pc: 0, pstate: 0,
        }
    }

    /// Create a context with every register cleared.
    pub fn new() -> (r: Self)
        ensures
            r == Self::spec_new(),
    {
        TaskContext {
            x0: 0, x1: 0, x2: 0, x3: 0, x4: 0, x5: 0, x6: 0, x7: 0,
            x8: 0, x9: 0, x10: 0, x11: 0, x12: 0, x13: 0, x14: 0, x15: 0,
            x16: 0, x17: 0, x18: 0, x19: 0, x20: 0, x21: 0, x22: 0, x23: 0,
            x24: 0, x25: 0, x26: 0, x27: 0, x28: 0, x29_fp: 0, x30_lr: 0,
            sp: 0, pc: 0, pstate: 0,
        }
    }

    /// The initial context of a freshly spawned task.
    pub open spec fn spec_init(entry_point: u64, stack_top: u64) -> TaskContext {
        TaskContext {
            pc: entry_point,
            sp: stack_top,
            pstate: PSTATE_EL1H_IRQ_UNMASKED,
            ..Self::spec_new()
        }
    }

    /// Build the context a new task starts from: the program counter at its
    /// entry point, the stack pointer at the top of its stack, the processor
    /// state set to EL1h with IRQs unmasked, and every other register zero.
    ///
    /// When the scheduler first dispatches this context, the exception
    /// return lands at `entry_point` in EL1 on the given stack with IRQs
    /// enabled.
    pub fn init(entry_point: u64, stack_top: u64) -> (r: Self)
        ensures
            r == Self::spec_init(entry_point, stack_top),
            r.pc == entry_point,
            r.sp == stack_top,
            r.pstate == PSTATE_EL1H_IRQ_UNMASKED,
    {
        let mut ctx = Self::new();
        ctx.pc = entry_point;
        ctx.sp = stack_top;
        ctx.pstate = PSTATE_EL1H_IRQ_UNMASKED;
        ctx
    }
}

} // verus!
