use vstd::prelude::*;
use core::future::Future;
use core::mem::MaybeUninit;
use memory_addr::VirtAddr;
use crate::addr::{virt_addr_as_usize, virt_addr_word};
use crate::arch::TaskContext;
use crate::task_future::{pin_future, TaskFuture};

verus! {

/// The kind of a task context, as the scheduler sees it.
#[derive(PartialEq, Eq, Clone, Copy, Debug, Structural)]
#[allow(non_camel_case_types)]
pub enum ContextType {
    /// The default coroutine context.
    COROUTINE,
    /// The kernel thread context.
    THREAD,
    /// Unknown context.
    UNKNOWN,
}

/// The task context combined future and traditional context.
pub struct Context {
    /// The task's thread context.
    pub thread_ctx: TaskContext,
    /// The task's future context.
    pub fut: MaybeUninit<TaskFuture>,
    /// The context type.
    pub ctx_type: ContextType,
}

impl Context {
    /// Creates a new default context for a new task: zeroed registers, no
    /// future yet, and the coroutine kind.
    pub fn new() -> (ctx: Self)
        ensures
            ctx.thread_ctx == TaskContext::zeroed(),
            ctx.thread_ctx.ra == 0,
            ctx.thread_ctx.sp == 0,
            ctx.thread_ctx.s0 == 0,
            ctx.thread_ctx.s1 == 0,
            ctx.thread_ctx.s2 == 0,
            ctx.thread_ctx.s3 == 0,
            ctx.thread_ctx.s4 == 0,
            ctx.thread_ctx.s5 == 0,
            ctx.thread_ctx.s6 == 0,
            ctx.thread_ctx.s7 == 0,
            ctx.thread_ctx.s8 == 0,
            ctx.thread_ctx.s9 == 0,
            ctx.thread_ctx.s10 == 0,
            ctx.thread_ctx.s11 == 0,
            ctx.thread_ctx.tp == 0,
            ctx.fut.mem_contents() is Uninit,
            ctx.ctx_type == ContextType::COROUTINE,
    {
        Context {
            thread_ctx: TaskContext::new(),
            fut: MaybeUninit::uninit(),
            ctx_type: ContextType::COROUTINE,
        }
    }

    /// Initializes the context for a new task, with the given entry point,
    /// kernel stack and thread-local storage area.
    pub fn init(&mut self, entry: usize, kstack_top: VirtAddr, tls_area: VirtAddr)
        ensures
            final(self).thread_ctx == old(self).thread_ctx.with_entry(
                entry,
                virt_addr_word(kstack_top),
                virt_addr_word(tls_area),
            ),
            final(self).thread_ctx.ra == entry,
            final(self).thread_ctx.sp == virt_addr_word(kstack_top),
            final(self).thread_ctx.tp == virt_addr_word(tls_area),
            final(self).thread_ctx.s0 == old(self).thread_ctx.s0,
            final(self).thread_ctx.s1 == old(self).thread_ctx.s1,
            final(self).thread_ctx.s2 == old(self).thread_ctx.s2,
            final(self).thread_ctx.s3 == old(self).thread_ctx.s3,
            final(self).thread_ctx.s4 == old(self).thread_ctx.s4,
            final(self).thread_ctx.s5 == old(self).thread_ctx.s5,
            final(self).thread_ctx.s6 == old(self).thread_ctx.s6,
            final(self).thread_ctx.s7 == old(self).thread_ctx.s7,
            final(self).thread_ctx.s8 == old(self).thread_ctx.s8,
            final(self).thread_ctx.s9 == old(self).thread_ctx.s9,
            final(self).thread_ctx.s10 == old(self).thread_ctx.s10,
            final(self).thread_ctx.s11 == old(self).thread_ctx.s11,
            final(self).fut == old(self).fut,
            final(self).ctx_type == old(self).ctx_type,
    {
        self.thread_ctx.sp = virt_addr_as_usize(kstack_top);
        self.thread_ctx.ra = entry;
        self.thread_ctx.tp = virt_addr_as_usize(tls_area);
    }

    /// Initializes the context for a new task, with the given future: calls
    /// `future` once and stores what it returns, pinned on the heap.
    pub fn init_future<F, T>(&mut self, future: F) where
        F: FnOnce() -> T,
        T: Future<Output = i32> + 'static + Send,

        requires
            call_requires(future, ()),
        ensures
            final(self).fut.mem_contents() is Init,
            final(self).thread_ctx == old(self).thread_ctx,
            final(self).ctx_type == old(self).ctx_type,
    {
        let task = future();
        self.fut = MaybeUninit::new(pin_future(task));
    }

    /// Sets the context type.
    pub fn set_ctx_type(&mut self, ctx_type: ContextType)
        ensures
            final(self).ctx_type == ctx_type,
            final(self).thread_ctx == old(self).thread_ctx,
            final(self).fut == old(self).fut,
    {
        self.ctx_type = ctx_type;
    }

    /// Sets the top of the task's kernel stack.
    pub fn set_kstack_top(&mut self, kstack_top: VirtAddr)
        ensures
            final(self).thread_ctx == old(self).thread_ctx.with_stack_top(
                virt_addr_word(kstack_top),
            ),
            final(self).thread_ctx.sp == virt_addr_word(kstack_top),
            final(self).thread_ctx.ra == old(self).thread_ctx.ra,
            final(self).thread_ctx.tp == old(self).thread_ctx.tp,
            final(self).thread_ctx.s0 == old(self).thread_ctx.s0,
            final(self).thread_ctx.s1 == old(self).thread_ctx.s1,
            final(self).thread_ctx.s2 == old(self).thread_ctx.s2,
            final(self).thread_ctx.s3 == old(self).thread_ctx.s3,
            final(self).thread_ctx.s4 == old(self).thread_ctx.s4,
            final(self).thread_ctx.s5 == old(self).thread_ctx.s5,
            final(self).thread_ctx.s6 == old(self).thread_ctx.s6,
            final(self).thread_ctx.s7 == old(self).thread_ctx.s7,
            final(self).thread_ctx.s8 == old(self).thread_ctx.s8,
            final(self).thread_ctx.s9 == old(self).thread_ctx.s9,
            final(self).thread_ctx.s10 == old(self).thread_ctx.s10,
            final(self).thread_ctx.s11 == old(self).thread_ctx.s11,
            final(self).fut == old(self).fut,
            final(self).ctx_type == old(self).ctx_type,
    {
        self.thread_ctx.sp = virt_addr_as_usize(kstack_top);
    }
}

/// Moving the stack top of an initialized context is the same as having
/// initialized it with the new stack top.
pub proof fn lemma_stack_top_after_init(
    thread_ctx: TaskContext,
    entry: usize,
    kstack_top: usize,
    tls_area: usize,
    new_kstack_top: usize,
)
    ensures
        thread_ctx.with_entry(entry, kstack_top, tls_area).with_stack_top(new_kstack_top)
            == thread_ctx.with_entry(entry, new_kstack_top, tls_area),
{
}

/// Initializing a context twice with the same arguments is the same as
/// initializing it once.
pub proof fn lemma_init_idempotent(
    thread_ctx: TaskContext,
    entry: usize,
    kstack_top: usize,
    tls_area: usize,
)
    ensures
        thread_ctx.with_entry(entry, kstack_top, tls_area).with_entry(entry, kstack_top, tls_area)
            == thread_ctx.with_entry(entry, kstack_top, tls_area),
{
}

/// What a switch from one context to the next does.
#[derive(PartialEq, Eq, Clone, Copy, Debug, Structural)]
pub enum SwitchAction {
    /// Both sides are coroutines: run the given closure in place.
    RunClosure,
    /// A coroutine hands over to a thread: restore the next thread's context.
    RestoreNext,
    /// A thread hands over: save its registers and load the next context's.
    SwitchThreads,
}

/// The pairs of kinds between which a switch is supported: any switch away
/// from a thread, and a switch from a coroutine to a coroutine or a thread.
pub open spec fn switch_supported(prev: ContextType, next: ContextType) -> bool {
    ||| prev == ContextType::THREAD
    ||| (prev == ContextType::COROUTINE && next != ContextType::UNKNOWN)
}

/// Whether a switch from a context of kind `prev` to one of kind `next` is
/// supported.
pub fn is_switch_supported(prev: ContextType, next: ContextType) -> (supported: bool)
    ensures
        supported == switch_supported(prev, next),
{
    match (prev, next) {
        (ContextType::COROUTINE, ContextType::COROUTINE) => true,
        (ContextType::COROUTINE, ContextType::THREAD) => true,
        (ContextType::THREAD, _) => true,
        (_, _) => false,
    }
}

/// Decides how to switch from `prev_ctx` to `next_ctx`, by their kinds.
pub fn switch_action(prev_ctx: &Context, next_ctx: &Context) -> (action: SwitchAction)
    requires
        switch_supported(prev_ctx.ctx_type, next_ctx.ctx_type),
    ensures
        action == SwitchAction::RunClosure <==> (prev_ctx.ctx_type == ContextType::COROUTINE
            && next_ctx.ctx_type == ContextType::COROUTINE),
        action == SwitchAction::RestoreNext <==> (prev_ctx.ctx_type == ContextType::COROUTINE
            && next_ctx.ctx_type == ContextType::THREAD),
        action == SwitchAction::SwitchThreads <==> prev_ctx.ctx_type == ContextType::THREAD,
{
    match prev_ctx.ctx_type {
        ContextType::THREAD => SwitchAction::SwitchThreads,
        _ => match next_ctx.ctx_type {
            ContextType::COROUTINE => SwitchAction::RunClosure,
            _ => SwitchAction::RestoreNext,
        },
    }
}

} // verus!
