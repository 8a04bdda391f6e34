//! The exception frame pushed by the EL1 IRQ vector, and its relation to
//! the saved task context.
//!
//! The frame layout is field-for-field congruent with [`TaskContext`]:
//! x0..x30, then SP_EL0, ELR_EL1 (the interrupted program counter) and
//! SPSR_EL1 (the interrupted processor state). Keeping the two records
//! congruent makes a context switch a plain copy in each direction.

use vstd::prelude::*;
use crate::task::TaskContext;

verus! {

/// Size in bytes of the frame as laid out in memory: 34 fields of 8 bytes.
pub const EXCEPTION_FRAME_SIZE: u64 = 272;

/// Register image pushed on the IRQ stack by the exception vector.
#[derive(Debug, Clone, Copy, PartialEq, Eq, Structural)]
pub struct ExceptionFrame {
    pub x0: u64,
    pub x1: u64,
    pub x2: u64,
    pub x3: u64,
    pub x4: u64,
    pub x5: u64,
    pub x6: u64,
    pub x7: u64,
    pub x8: u64,
    pub x9: u64,
    pub x10: u64,
    pub x11: u64,
    pub x12: u64,
    pub x13: u64,
    pub x14: u64,
    pub x15: u64,
    pub x16: u64,
    pub x17: u64,
    pub x18: u64,
    pub x19: u64,
    pub x20: u64,
    pub x21: u64,
    pub x22: u64,
    pub x23: u64,
    pub x24: u64,
    pub x25: u64,
    pub x26: u64,
    pub x27: u64,
    pub x28: u64,
    pub x29: u64,
    pub x30_lr: u64,
    pub sp_el0: u64,
    /// Exception link register: the interrupted program counter.
    pub elr_el1: u64,
    /// Saved processor state of the interrupted task.
    pub spsr_el1: u64,
}

/// The frame that dispatching `ctx` places on the incoming task's stack:
/// every register from the context, the context's stack pointer in SP_EL0,
/// the program counter in ELR_EL1 and the processor state in SPSR_EL1.
pub open spec fn frame_of_context(ctx: TaskContext) -> ExceptionFrame {
    ExceptionFrame {
        x0: ctx.x0, x1: ctx.x1, x2: ctx.x2, x3: ctx.x3, x4: ctx.x4,
        x5: ctx.x5, x6: ctx.x6, x7: ctx.x7, x8: ctx.x8, x9: ctx.x9,
        x10: ctx.x10, x11: ctx.x11, x12: ctx.x12, x13: ctx.x13, x14: ctx.x14,
        x15: ctx.x15, x16: ctx.x16, x17: ctx.x17, x18: ctx.x18, x19: ctx.x19,
        x20: ctx.x20, x21: ctx.x21, x22: ctx.x22, x23: ctx.x23, x24: ctx.x24,
        x25: ctx.x25, x26: ctx.x26, x27: ctx.x27, x28: ctx.x28,
        x29: ctx.x29_fp, x30_lr: ctx.x30_lr,
        sp_el0: ctx.sp, elr_el1: ctx.pc, spsr_el1: ctx.pstate,
    }
}

/// The context of a task after its interrupted state `frame` is saved over
/// `ctx`: every register, the program counter and the processor state come
/// from the frame. The stack pointer is deliberately kept from `ctx`: the
/// frame lives on the shared IRQ stack, not on the task's own stack, and
/// the task's stack pointer is already recorded in its context.
pub open spec fn context_after_capture(ctx: TaskContext, frame: ExceptionFrame) -> TaskContext {
    TaskContext {
        x0: frame.x0, x1: frame.x1, x2: frame.x2, x3: frame.x3, x4: frame.x4,
        x5: frame.x5, x6: frame.x6, x7: frame.x7, x8: frame.x8, x9: frame.x9,
        x10: frame.x10, x11: frame.x11, x12: frame.x12, x13: frame.x13, x14: frame.x14,
        x15: frame.x15, x16: frame.x16, x17: frame.x17, x18: frame.x18, x19: frame.x19,
        x20: frame.x20, x21: frame.x21, x22: frame.x22, x23: frame.x23, x24: frame.x24,
        x25: frame.x25, x26: frame.x26, x27: frame.x27, x28: frame.x28,
        x29_fp: frame.x29, x30_lr: frame.x30_lr,
        sp: ctx.sp, pc: frame.elr_el1, pstate: frame.spsr_el1,
    }
}

/// Build the frame that restores `ctx` on the next exception return.
pub fn frame_from_context(ctx: &TaskContext) -> (frame: ExceptionFrame)
    ensures
        frame == frame_of_context(*ctx),
{
    ExceptionFrame {
        x0: ctx.x0, x1: ctx.x1, x2: ctx.x2, x3: ctx.x3, x4: ctx.x4,
        x5: ctx.x5, x6: ctx.x6, x7: ctx.x7, x8: ctx.x8, x9: ctx.x9,
        x10: ctx.x10, x11: ctx.x11, x12: ctx.x12, x13: ctx.x13, x14: ctx.x14,
        x15: ctx.x15, x16: ctx.x16, x17: ctx.x17, x18: ctx.x18, x19: ctx.x19,
        x20: ctx.x20, x21: ctx.x21, x22: ctx.x22, x23: ctx.x23, x24: ctx.x24,
        x25: ctx.x25, x26: ctx.x26, x27: ctx.x27, x28: ctx.x28,
        x29: ctx.x29_fp, x30_lr: ctx.x30_lr,
        sp_el0: ctx.sp, elr_el1: ctx.pc, spsr_el1: ctx.pstate,
    }
}

/// Save an exception frame over a task's context, keeping the context's
/// own stack pointer.
pub fn save_frame_to_context(frame: &ExceptionFrame, ctx: &mut TaskContext)
    ensures
        *final(ctx) == context_after_capture(*old(ctx), *frame),
{
    ctx.x0 = frame.x0;
    ctx.x1 = frame.x1;
    ctx.x2 = frame.x2;
    ctx.x3 = frame.x3;
    ctx.x4 = frame.x4;
    ctx.x5 = frame.x5;
    ctx.x6 = frame.x6;
    ctx.x7 = frame.x7;
    ctx.x8 = frame.x8;
    ctx.x9 = frame.x9;
    ctx.x10 = frame.x10;
    ctx.x11 = frame.x11;
    ctx.x12 = frame.x12;
    ctx.x13 = frame.x13;
    ctx.x14 = frame.x14;
    ctx.x15 = frame.x15;
    ctx.x16 = frame.x16;
    ctx.x17 = frame.x17;
    ctx.x18 = frame.x18;
    ctx.x19 = frame.x19;
    ctx.x20 = frame.x20;
    ctx.x21 = frame.x21;
    ctx.x22 = frame.x22;
    ctx.x23 = frame.x23;
    ctx.x24 = frame.x24;
    ctx.x25 = frame.x25;
    ctx.x26 = frame.x26;
    ctx.x27 = frame.x27;
    ctx.x28 = frame.x28;
    ctx.x29_fp = frame.x29;
    ctx.x30_lr = frame.x30_lr;
    ctx.pc = frame.elr_el1;
    ctx.pstate = frame.spsr_el1;
}

/// Round trip through a context switch: writing a context `c` into a frame
/// and saving that frame back over any context `d` reproduces `c` in every
/// observable architectural register; only the recorded stack pointer stays
/// the one of `d`. In particular, saving over `c` itself is the identity.
pub proof fn lemma_context_frame_round_trip(c: TaskContext, d: TaskContext)
    ensures
        context_after_capture(d, frame_of_context(c)) == (TaskContext { sp: d.sp, ..c }),
        context_after_capture(c, frame_of_context(c)) == c,
{
}

} // verus!
