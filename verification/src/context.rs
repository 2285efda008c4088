use vstd::prelude::*;
use core::future::Future;
use core::mem::MaybeUninit;
use memory_addr::VirtAddr;
use vstd::std_specs::convert::FromSpecImpl;
use crate::task_future::{pin_future, TaskFuture};

verus! {

/// The kind of a task context, as the scheduler sees it.
#[derive(PartialEq, Eq, Clone, Copy, Structural)]
#[allow(non_camel_case_types)]
pub enum ContextType {
    /// The default coroutine context.
    COROUTINE,
    /// The kernel thread context.
    THREAD,
    /// The supervisor interrupt context.
    STRAP,
    /// The user interrupt context.
    UTRAP,
    /// Unknown context.
    UNKNOWN,
}

/// The kind that a machine word encodes: 0 to 3 name the known kinds, any
/// other word is unknown.
pub open spec fn context_type_of_word(value: usize) -> ContextType {
    if value == 0 {
        ContextType::COROUTINE
    } else if value == 1 {
        ContextType::THREAD
    } else if value == 2 {
        ContextType::STRAP
    } else if value == 3 {
        ContextType::UTRAP
    } else {
        ContextType::UNKNOWN
    }
}

/// The code of a kind: 0 to 3 for the known kinds, -1 for an unknown one.
pub open spec fn context_type_code(ctx_type: ContextType) -> isize {
    match ctx_type {
        ContextType::COROUTINE => 0isize,
        ContextType::THREAD => 1,
        ContextType::STRAP => 2,
        ContextType::UTRAP => 3,
        ContextType::UNKNOWN => -1isize,
    }
}

impl From<usize> for ContextType {
    fn from(value: usize) -> (ctx_type: Self)
        ensures
            ctx_type == ContextType::COROUTINE <==> value == 0,
            ctx_type == ContextType::THREAD <==> value == 1,
            ctx_type == ContextType::STRAP <==> value == 2,
            ctx_type == ContextType::UTRAP <==> value == 3,
            ctx_type == ContextType::UNKNOWN <==> value > 3,
    {
        match value {
            0 => ContextType::COROUTINE,
            1 => ContextType::THREAD,
            2 => ContextType::STRAP,
            3 => ContextType::UTRAP,
            _ => ContextType::UNKNOWN,
        }
    }
}

impl FromSpecImpl<usize> for ContextType {
    open spec fn obeys_from_spec() -> bool {
        true
    }

    open spec fn from_spec(value: usize) -> ContextType {
        context_type_of_word(value)
    }
}

impl From<ContextType> for isize {
    fn from(ctx_type: ContextType) -> (code: Self)
        ensures
            code == 0 <==> ctx_type == ContextType::COROUTINE,
            code == 1 <==> ctx_type == ContextType::THREAD,
            code == 2 <==> ctx_type == ContextType::STRAP,
            code == 3 <==> ctx_type == ContextType::UTRAP,
            code == -1 <==> ctx_type == ContextType::UNKNOWN,
    {
        match ctx_type {
            ContextType::COROUTINE => 0,
            ContextType::THREAD => 1,
            ContextType::STRAP => 2,
            ContextType::UTRAP => 3,
            ContextType::UNKNOWN => -1,
        }
    }
}

impl FromSpecImpl<ContextType> for isize {
    open spec fn obeys_from_spec() -> bool {
        true
    }

    open spec fn from_spec(ctx_type: ContextType) -> isize {
        context_type_code(ctx_type)
    }
}

/// Reading a word as a kind and then taking the kind's code gives the word
/// back for the known words 0 to 3, and -1 for every other word.
pub proof fn lemma_word_kind_code(value: usize)
    ensures
        context_type_code(context_type_of_word(value)) == (if value < 4 {
            value as isize
        } else {
            -1isize
        }),
{
}

/// Taking a kind's code, reinterpreting it as a machine word and reading that
/// word as a kind gives the kind back, for every kind (the code -1 of an
/// unknown kind becomes a word above 3, which reads as unknown).
pub proof fn lemma_kind_code_round_trip(ctx_type: ContextType)
    ensures
        context_type_of_word(context_type_code(ctx_type) as usize) == ctx_type,
{
    let code: isize = context_type_code(ctx_type);
    assert(code == -1isize ==> code as usize > 3usize) by (bit_vector);
    assert(0 <= code ==> code as usize == code);
}

/// The task context combined future and traditional context.
pub struct Context {
    /// The address of the task's trap frame, where its registers are saved;
    /// 0 while no frame is set.
    pub trap_frame: usize,
    /// The task's future context.
    pub fut: MaybeUninit<TaskFuture>,
    /// The context type.
    pub ctx_type: ContextType,
}

impl Context {
    /// This context with its kind replaced by `ctx_type`.
    pub open spec fn with_ctx_type(self, ctx_type: ContextType) -> Context {
        Context { ctx_type, ..self }
    }

    /// This context with its trap frame address replaced by `trap_frame`.
    pub open spec fn with_trap_frame(self, trap_frame: usize) -> Context {
        Context { trap_frame, ..self }
    }

    /// Creates a new default context for a new task: no trap frame, no future
    /// yet, and the coroutine kind.
    pub fn new() -> (ctx: Self)
        ensures
            ctx.trap_frame == 0,
            ctx.fut.mem_contents() is Uninit,
            ctx.ctx_type == ContextType::COROUTINE,
    {
        Context { trap_frame: 0, fut: MaybeUninit::uninit(), ctx_type: ContextType::COROUTINE }
    }

    /// Initializes the context for a new task, with the given entry point and
    /// kernel stack. A context of this kind keeps its registers in its trap
    /// frame, so nothing in the context itself changes.
    pub fn init(&mut self, _entry: usize, _kstack_top: VirtAddr, _tls_area: VirtAddr)
        ensures
            *final(self) == *old(self),
    {
    }

    /// Initializes the context for a new task, with the given future: calls
    /// `future` once and stores what it returns, pinned on the heap.
    pub fn init_future<F, T>(&mut self, future: F) where
        F: FnOnce() -> T,
        T: Future<Output = i32> + 'static + Send,

        requires
            call_requires(future, ()),
        ensures
            final(self).fut.mem_contents() is Init,
            final(self).trap_frame == old(self).trap_frame,
            final(self).ctx_type == old(self).ctx_type,
    {
        let task = future();
        self.fut = MaybeUninit::new(pin_future(task));
    }

    /// Sets the context type.
    pub fn set_ctx_type(&mut self, ctx_type: ContextType)
        ensures
            *final(self) == old(self).with_ctx_type(ctx_type),
            final(self).ctx_type == ctx_type,
            final(self).trap_frame == old(self).trap_frame,
            final(self).fut == old(self).fut,
    {
        self.ctx_type = ctx_type;
    }

    /// Sets the address of the trap frame.
    pub fn set_trap_frame(&mut self, trap_frame: usize)
        ensures
            *final(self) == old(self).with_trap_frame(trap_frame),
            final(self).trap_frame == trap_frame,
            final(self).ctx_type == old(self).ctx_type,
            final(self).fut == old(self).fut,
    {
        self.trap_frame = trap_frame;
    }
}

/// Setting the kind stores exactly the kind asked for, whichever it is, and
/// keeps the trap frame and the future.
pub proof fn lemma_with_ctx_type_stores_kind(ctx: Context, ctx_type: ContextType)
    ensures
        ctx.with_ctx_type(ctx_type).ctx_type == ctx_type,
        ctx.with_ctx_type(ctx_type).trap_frame == ctx.trap_frame,
        ctx.with_ctx_type(ctx_type).fut == ctx.fut,
{
}

/// Setting the trap frame stores exactly the address asked for, for every
/// word, and keeps the kind and the future.
pub proof fn lemma_with_trap_frame_stores_address(ctx: Context, trap_frame: usize)
    ensures
        ctx.with_trap_frame(trap_frame).trap_frame == trap_frame,
        ctx.with_trap_frame(trap_frame).ctx_type == ctx.ctx_type,
        ctx.with_trap_frame(trap_frame).fut == ctx.fut,
{
}

/// Setting the kind twice leaves the second kind, and setting the trap frame
/// twice leaves the second frame: the last write wins.
pub proof fn lemma_last_write_wins(
    ctx: Context,
    first_type: ContextType,
    second_type: ContextType,
    first_frame: usize,
    second_frame: usize,
)
    ensures
        ctx.with_ctx_type(first_type).with_ctx_type(second_type) == ctx.with_ctx_type(second_type),
        ctx.with_trap_frame(first_frame).with_trap_frame(second_frame) == ctx.with_trap_frame(
            second_frame,
        ),
{
}

/// Setting the kind and setting the trap frame touch different fields, so
/// their order does not matter.
pub proof fn lemma_setters_commute(ctx: Context, ctx_type: ContextType, trap_frame: usize)
    ensures
        ctx.with_ctx_type(ctx_type).with_trap_frame(trap_frame) == ctx.with_trap_frame(
            trap_frame,
        ).with_ctx_type(ctx_type),
{
}

} // verus!
