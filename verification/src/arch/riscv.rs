use vstd::prelude::*;
use crate::addr::{virt_addr_as_usize, virt_addr_word};
use memory_addr::VirtAddr;

verus! {

/// Saved hardware state of a task.
///
/// The context holds the callee-saved registers, the stack pointer and the
/// thread pointer (for thread-local storage). On a context switch the current
/// task saves its context from the CPU to memory, and the next task restores
/// its context from memory to the CPU.
#[derive(Debug)]
pub struct TaskContext {
    /// Return address (x1).
    pub ra: usize,
    /// Stack pointer (x2).
    pub sp: usize,
    /// Callee-saved registers x8-x9.
    pub s0: usize,
    pub s1: usize,
    /// Callee-saved registers x18-x27.
    pub s2: usize,
    pub s3: usize,
    pub s4: usize,
    pub s5: usize,
    pub s6: usize,
    pub s7: usize,
    pub s8: usize,
    pub s9: usize,
    pub s10: usize,
    pub s11: usize,
    /// Thread pointer.
    pub tp: usize,
}

impl TaskContext {
    /// The context in which every register is zero.
    pub open spec fn zeroed() -> TaskContext {
        TaskContext {
            ra: 0,
            sp: 0,
            s0: 0,
            s1: 0,
            s2: 0,
            s3: 0,
            s4: 0,
            s5: 0,
            s6: 0,
            s7: 0,
            s8: 0,
            s9: 0,
            s10: 0,
            s11: 0,
            tp: 0,
        }
    }

    /// This context prepared to start at `entry` on the stack whose top is
    /// `kstack_top`, with thread-local storage at `tls_area`; every other
    /// register is kept.
    pub open spec fn with_entry(self, entry: usize, kstack_top: usize, tls_area: usize) -> TaskContext {
        TaskContext { ra: entry, sp: kstack_top, tp: tls_area, ..self }
    }

    /// This context with its stack pointer moved to `kstack_top`.
    pub open spec fn with_stack_top(self, kstack_top: usize) -> TaskContext {
        TaskContext { sp: kstack_top, ..self }
    }

    /// Creates a new context for a new task, with every register zero.
    pub fn new() -> (ctx: Self)
        ensures
            ctx == TaskContext::zeroed(),
            ctx.ra == 0,
            ctx.sp == 0,
            ctx.s0 == 0,
            ctx.s1 == 0,
            ctx.s2 == 0,
            ctx.s3 == 0,
            ctx.s4 == 0,
            ctx.s5 == 0,
            ctx.s6 == 0,
            ctx.s7 == 0,
            ctx.s8 == 0,
            ctx.s9 == 0,
            ctx.s10 == 0,
            ctx.s11 == 0,
            ctx.tp == 0,
    {
        TaskContext {
            ra: 0,
            sp: 0,
            s0: 0,
            s1: 0,
            s2: 0,
            s3: 0,
            s4: 0,
            s5: 0,
            s6: 0,
            s7: 0,
            s8: 0,
            s9: 0,
            s10: 0,
            s11: 0,
            tp: 0,
        }
    }

    /// Initializes the context for a new task, with the given entry point,
    /// kernel stack and thread-local storage area.
    pub fn init(&mut self, entry: usize, kstack_top: VirtAddr, tls_area: VirtAddr)
        ensures
            *final(self) == old(self).with_entry(
                entry,
                virt_addr_word(kstack_top),
                virt_addr_word(tls_area),
            ),
            final(self).ra == entry,
            final(self).sp == virt_addr_word(kstack_top),
            final(self).tp == virt_addr_word(tls_area),
            final(self).s0 == old(self).s0,
            final(self).s1 == old(self).s1,
            final(self).s2 == old(self).s2,
            final(self).s3 == old(self).s3,
            final(self).s4 == old(self).s4,
            final(self).s5 == old(self).s5,
            final(self).s6 == old(self).s6,
            final(self).s7 == old(self).s7,
            final(self).s8 == old(self).s8,
            final(self).s9 == old(self).s9,
            final(self).s10 == old(self).s10,
            final(self).s11 == old(self).s11,
    {
        self.sp = virt_addr_as_usize(kstack_top);
        self.ra = entry;
        self.tp = virt_addr_as_usize(tls_area);
    }
}

impl Default for TaskContext {
    fn default() -> (ctx: Self)
        ensures
            ctx == TaskContext::zeroed(),
            ctx.ra == 0,
            ctx.sp == 0,
            ctx.s0 == 0,
            ctx.s1 == 0,
            ctx.s2 == 0,
            ctx.s3 == 0,
            ctx.s4 == 0,
            ctx.s5 == 0,
            ctx.s6 == 0,
            ctx.s7 == 0,
            ctx.s8 == 0,
            ctx.s9 == 0,
            ctx.s10 == 0,
            ctx.s11 == 0,
            ctx.tp == 0,
    {
        TaskContext::new()
    }
}

/// General registers of RISC-V.
#[derive(Debug, Clone, Copy)]
pub struct GeneralRegisters {
    pub ra: usize,
    pub sp: usize,
    pub gp: usize,
    pub tp: usize,
    pub t0: usize,
    pub t1: usize,
    pub t2: usize,
    pub s0: usize,
    pub s1: usize,
    pub a0: usize,
    pub a1: usize,
    pub a2: usize,
    pub a3: usize,
    pub a4: usize,
    pub a5: usize,
    pub a6: usize,
    pub a7: usize,
    pub s2: usize,
    pub s3: usize,
    pub s4: usize,
    pub s5: usize,
    pub s6: usize,
    pub s7: usize,
    pub s8: usize,
    pub s9: usize,
    pub s10: usize,
    pub s11: usize,
    pub t3: usize,
    pub t4: usize,
    pub t5: usize,
    pub t6: usize,
}

impl GeneralRegisters {
    /// The register file in which every register is zero.
    pub open spec fn zeroed() -> GeneralRegisters {
        GeneralRegisters {
            ra: 0,
            sp: 0,
            gp: 0,
            tp: 0,
            t0: 0,
            t1: 0,
            t2: 0,
            s0: 0,
            s1: 0,
            a0: 0,
            a1: 0,
            a2: 0,
            a3: 0,
            a4: 0,
            a5: 0,
            a6: 0,
            a7: 0,
            s2: 0,
            s3: 0,
            s4: 0,
            s5: 0,
            s6: 0,
            s7: 0,
            s8: 0,
            s9: 0,
            s10: 0,
            s11: 0,
            t3: 0,
            t4: 0,
            t5: 0,
            t6: 0,
        }
    }
}

impl Default for GeneralRegisters {
    fn default() -> (regs: Self)
        ensures
            regs == GeneralRegisters::zeroed(),
            regs.ra == 0,
            regs.sp == 0,
            regs.gp == 0,
            regs.tp == 0,
            regs.t0 == 0,
            regs.t1 == 0,
            regs.t2 == 0,
            regs.s0 == 0,
            regs.s1 == 0,
            regs.a0 == 0,
            regs.a1 == 0,
            regs.a2 == 0,
            regs.a3 == 0,
            regs.a4 == 0,
            regs.a5 == 0,
            regs.a6 == 0,
            regs.a7 == 0,
            regs.s2 == 0,
            regs.s3 == 0,
            regs.s4 == 0,
            regs.s5 == 0,
            regs.s6 == 0,
            regs.s7 == 0,
            regs.s8 == 0,
            regs.s9 == 0,
            regs.s10 == 0,
            regs.s11 == 0,
            regs.t3 == 0,
            regs.t4 == 0,
            regs.t5 == 0,
            regs.t6 == 0,
    {
        GeneralRegisters {
            ra: 0,
            sp: 0,
            gp: 0,
            tp: 0,
            t0: 0,
            t1: 0,
            t2: 0,
            s0: 0,
            s1: 0,
            a0: 0,
            a1: 0,
            a2: 0,
            a3: 0,
            a4: 0,
            a5: 0,
            a6: 0,
            a7: 0,
            s2: 0,
            s3: 0,
            s4: 0,
            s5: 0,
            s6: 0,
            s7: 0,
            s8: 0,
            s9: 0,
            s10: 0,
            s11: 0,
            t3: 0,
            t4: 0,
            t5: 0,
            t6: 0,
        }
    }
}

/// Saved registers when a trap (interrupt or exception) occurs.
#[derive(Debug, Clone, Copy)]
pub struct TrapFrame {
    /// All general registers.
    pub regs: GeneralRegisters,
    /// Supervisor Exception Program Counter.
    pub sepc: usize,
    /// Supervisor Status Register.
    pub sstatus: usize,
    /// Floating-point registers.
    pub fs: [usize; 2],
}

impl TrapFrame {
    /// Whether every register of this frame is zero.
    pub open spec fn is_zeroed(self) -> bool {
        &&& self.regs == GeneralRegisters::zeroed()
        &&& self.sepc == 0
        &&& self.sstatus == 0
        &&& self.fs@ == seq![0usize, 0usize]
    }
}

impl Default for TrapFrame {
    fn default() -> (frame: Self)
        ensures
            frame.is_zeroed(),
            frame.regs.ra == 0,
            frame.regs.sp == 0,
            frame.regs.gp == 0,
            frame.regs.tp == 0,
            frame.regs.t0 == 0,
            frame.regs.t1 == 0,
            frame.regs.t2 == 0,
            frame.regs.s0 == 0,
            frame.regs.s1 == 0,
            frame.regs.a0 == 0,
            frame.regs.a1 == 0,
            frame.regs.a2 == 0,
            frame.regs.a3 == 0,
            frame.regs.a4 == 0,
            frame.regs.a5 == 0,
            frame.regs.a6 == 0,
            frame.regs.a7 == 0,
            frame.regs.s2 == 0,
            frame.regs.s3 == 0,
            frame.regs.s4 == 0,
            frame.regs.s5 == 0,
            frame.regs.s6 == 0,
            frame.regs.s7 == 0,
            frame.regs.s8 == 0,
            frame.regs.s9 == 0,
            frame.regs.s10 == 0,
            frame.regs.s11 == 0,
            frame.regs.t3 == 0,
            frame.regs.t4 == 0,
            frame.regs.t5 == 0,
            frame.regs.t6 == 0,
            frame.sepc == 0,
            frame.sstatus == 0,
            frame.fs[0] == 0,
            frame.fs[1] == 0,
    {
        let frame = TrapFrame {
            regs: GeneralRegisters::default(),
            sepc: 0,
            sstatus: 0,
            fs: [0, 0],
        };
        assert(frame.fs@ =~= seq![0usize, 0usize]);
        frame
    }
}

/// Preparing a context for a new task puts the entry point in the return
/// address, the stack top in the stack pointer and the thread-local storage
/// area in the thread pointer, for every word, and keeps every callee-saved
/// register.
pub proof fn lemma_with_entry_sets_entry_registers(
    ctx: TaskContext,
    entry: usize,
    kstack_top: usize,
    tls_area: usize,
)
    ensures
        ctx.with_entry(entry, kstack_top, tls_area).ra == entry,
        ctx.with_entry(entry, kstack_top, tls_area).sp == kstack_top,
        ctx.with_entry(entry, kstack_top, tls_area).tp == tls_area,
        ctx.with_entry(entry, kstack_top, tls_area).s0 == ctx.s0,
        ctx.with_entry(entry, kstack_top, tls_area).s1 == ctx.s1,
        ctx.with_entry(entry, kstack_top, tls_area).s2 == ctx.s2,
        ctx.with_entry(entry, kstack_top, tls_area).s3 == ctx.s3,
        ctx.with_entry(entry, kstack_top, tls_area).s4 == ctx.s4,
        ctx.with_entry(entry, kstack_top, tls_area).s5 == ctx.s5,
        ctx.with_entry(entry, kstack_top, tls_area).s6 == ctx.s6,
        ctx.with_entry(entry, kstack_top, tls_area).s7 == ctx.s7,
        ctx.with_entry(entry, kstack_top, tls_area).s8 == ctx.s8,
        ctx.with_entry(entry, kstack_top, tls_area).s9 == ctx.s9,
        ctx.with_entry(entry, kstack_top, tls_area).s10 == ctx.s10,
        ctx.with_entry(entry, kstack_top, tls_area).s11 == ctx.s11,
{
}

/// Moving the stack top sets the stack pointer to exactly the new top, for
/// every word, and keeps the return address, the thread pointer and every
/// callee-saved register.
pub proof fn lemma_with_stack_top_sets_only_sp(ctx: TaskContext, kstack_top: usize)
    ensures
        ctx.with_stack_top(kstack_top).sp == kstack_top,
        ctx.with_stack_top(kstack_top).ra == ctx.ra,
        ctx.with_stack_top(kstack_top).tp == ctx.tp,
        ctx.with_stack_top(kstack_top).s0 == ctx.s0,
        ctx.with_stack_top(kstack_top).s1 == ctx.s1,
        ctx.with_stack_top(kstack_top).s2 == ctx.s2,
        ctx.with_stack_top(kstack_top).s3 == ctx.s3,
        ctx.with_stack_top(kstack_top).s4 == ctx.s4,
        ctx.with_stack_top(kstack_top).s5 == ctx.s5,
        ctx.with_stack_top(kstack_top).s6 == ctx.s6,
        ctx.with_stack_top(kstack_top).s7 == ctx.s7,
        ctx.with_stack_top(kstack_top).s8 == ctx.s8,
        ctx.with_stack_top(kstack_top).s9 == ctx.s9,
        ctx.with_stack_top(kstack_top).s10 == ctx.s10,
        ctx.with_stack_top(kstack_top).s11 == ctx.s11,
{
}

/// In a zeroed task context every register holds 0.
pub proof fn lemma_task_context_zeroed()
    ensures
        TaskContext::zeroed().ra == 0,
        TaskContext::zeroed().sp == 0,
        TaskContext::zeroed().s0 == 0,
        TaskContext::zeroed().s1 == 0,
        TaskContext::zeroed().s2 == 0,
        TaskContext::zeroed().s3 == 0,
        TaskContext::zeroed().s4 == 0,
        TaskContext::zeroed().s5 == 0,
        TaskContext::zeroed().s6 == 0,
        TaskContext::zeroed().s7 == 0,
        TaskContext::zeroed().s8 == 0,
        TaskContext::zeroed().s9 == 0,
        TaskContext::zeroed().s10 == 0,
        TaskContext::zeroed().s11 == 0,
        TaskContext::zeroed().tp == 0,
{
}

/// In a zeroed register file every one of the general registers holds 0.
pub proof fn lemma_general_registers_zeroed()
    ensures
        GeneralRegisters::zeroed().ra == 0,
        GeneralRegisters::zeroed().sp == 0,
        GeneralRegisters::zeroed().gp == 0,
        GeneralRegisters::zeroed().tp == 0,
        GeneralRegisters::zeroed().t0 == 0,
        GeneralRegisters::zeroed().t1 == 0,
        GeneralRegisters::zeroed().t2 == 0,
        GeneralRegisters::zeroed().s0 == 0,
        GeneralRegisters::zeroed().s1 == 0,
        GeneralRegisters::zeroed().a0 == 0,
        GeneralRegisters::zeroed().a1 == 0,
        GeneralRegisters::zeroed().a2 == 0,
        GeneralRegisters::zeroed().a3 == 0,
        GeneralRegisters::zeroed().a4 == 0,
        GeneralRegisters::zeroed().a5 == 0,
        GeneralRegisters::zeroed().a6 == 0,
        GeneralRegisters::zeroed().a7 == 0,
        GeneralRegisters::zeroed().s2 == 0,
        GeneralRegisters::zeroed().s3 == 0,
        GeneralRegisters::zeroed().s4 == 0,
        GeneralRegisters::zeroed().s5 == 0,
        GeneralRegisters::zeroed().s6 == 0,
        GeneralRegisters::zeroed().s7 == 0,
        GeneralRegisters::zeroed().s8 == 0,
        GeneralRegisters::zeroed().s9 == 0,
        GeneralRegisters::zeroed().s10 == 0,
        GeneralRegisters::zeroed().s11 == 0,
        GeneralRegisters::zeroed().t3 == 0,
        GeneralRegisters::zeroed().t4 == 0,
        GeneralRegisters::zeroed().t5 == 0,
        GeneralRegisters::zeroed().t6 == 0,
{
}

} // verus!
