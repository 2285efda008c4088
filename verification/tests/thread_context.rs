use task_context::arch::{GeneralRegisters, TaskContext, TrapFrame};
use task_context::ctx::{is_switch_supported, switch_action, Context, ContextType, SwitchAction};
use memory_addr::VirtAddr;

fn all_zero(ctx: &TaskContext) -> bool {
    [
        ctx.ra, ctx.sp, ctx.s0, ctx.s1, ctx.s2, ctx.s3, ctx.s4, ctx.s5, ctx.s6, ctx.s7, ctx.s8,
        ctx.s9, ctx.s10, ctx.s11, ctx.tp,
    ]
    .iter()
    .all(|r| *r == 0)
}

#[test]
fn new_task_context_is_zeroed() {
    assert!(all_zero(&TaskContext::new()));
    assert!(all_zero(&TaskContext::default()));
}

#[test]
fn task_context_init_sets_entry_stack_and_tls() {
    let mut ctx = TaskContext::new();
    ctx.s3 = 33;
    ctx.init(0x8020_0000, VirtAddr::from_usize(0xffff_0000_1000), VirtAddr::from_usize(0x7000));
    assert_eq!(ctx.ra, 0x8020_0000);
    assert_eq!(ctx.sp, 0xffff_0000_1000);
    assert_eq!(ctx.tp, 0x7000);
    assert_eq!(ctx.s3, 33);
    assert_eq!(ctx.s0, 0);
    assert_eq!(ctx.s11, 0);
}

#[test]
fn general_registers_default_is_zeroed() {
    let regs = GeneralRegisters::default();
    assert_eq!(regs.ra, 0);
    assert_eq!(regs.sp, 0);
    assert_eq!(regs.a0, 0);
    assert_eq!(regs.t6, 0);
}

#[test]
fn trap_frame_default_is_zeroed() {
    let frame = TrapFrame::default();
    assert_eq!(frame.regs.gp, 0);
    assert_eq!(frame.regs.s11, 0);
    assert_eq!(frame.sepc, 0);
    assert_eq!(frame.sstatus, 0);
    assert_eq!(frame.fs, [0, 0]);
}

#[test]
fn new_thread_context_is_a_coroutine_with_zero_registers() {
    let ctx = Context::new();
    assert!(all_zero(&ctx.thread_ctx));
    assert_eq!(ctx.ctx_type, ContextType::COROUTINE);
}

#[test]
fn context_init_sets_the_thread_registers() {
    let mut ctx = Context::new();
    ctx.set_ctx_type(ContextType::THREAD);
    ctx.init(0x1234, VirtAddr::from_usize(0x9000), VirtAddr::from_usize(0xa000));
    assert_eq!(ctx.thread_ctx.ra, 0x1234);
    assert_eq!(ctx.thread_ctx.sp, 0x9000);
    assert_eq!(ctx.thread_ctx.tp, 0xa000);
    assert_eq!(ctx.thread_ctx.s0, 0);
    assert_eq!(ctx.ctx_type, ContextType::THREAD);
}

#[test]
fn context_init_matches_task_context_init() {
    let mut ctx = Context::new();
    ctx.init(0x42, VirtAddr::from_usize(0x100), VirtAddr::from_usize(0x200));
    let mut task = TaskContext::new();
    task.init(0x42, VirtAddr::from_usize(0x100), VirtAddr::from_usize(0x200));
    assert_eq!(ctx.thread_ctx.ra, task.ra);
    assert_eq!(ctx.thread_ctx.sp, task.sp);
    assert_eq!(ctx.thread_ctx.tp, task.tp);
}

#[test]
fn set_kstack_top_moves_only_the_stack_pointer() {
    let mut ctx = Context::new();
    ctx.init(0x42, VirtAddr::from_usize(0x100), VirtAddr::from_usize(0x200));
    ctx.set_kstack_top(VirtAddr::from_usize(0x8000));
    assert_eq!(ctx.thread_ctx.sp, 0x8000);
    assert_eq!(ctx.thread_ctx.ra, 0x42);
    assert_eq!(ctx.thread_ctx.tp, 0x200);
}

#[test]
fn stack_top_after_init_equals_init_with_that_stack_top() {
    let mut a = Context::new();
    a.init(7, VirtAddr::from_usize(0x100), VirtAddr::from_usize(0x300));
    a.set_kstack_top(VirtAddr::from_usize(0x900));
    let mut b = Context::new();
    b.init(7, VirtAddr::from_usize(0x900), VirtAddr::from_usize(0x300));
    assert_eq!(a.thread_ctx.sp, b.thread_ctx.sp);
    assert_eq!(a.thread_ctx.ra, b.thread_ctx.ra);
    assert_eq!(a.thread_ctx.tp, b.thread_ctx.tp);
}

#[test]
fn init_twice_is_init_once() {
    let mut a = Context::new();
    a.init(5, VirtAddr::from_usize(0x10), VirtAddr::from_usize(0x20));
    a.init(5, VirtAddr::from_usize(0x10), VirtAddr::from_usize(0x20));
    assert_eq!((a.thread_ctx.ra, a.thread_ctx.sp, a.thread_ctx.tp), (5, 0x10, 0x20));
}

#[test]
fn set_ctx_type_keeps_registers() {
    let mut ctx = Context::new();
    ctx.set_kstack_top(VirtAddr::from_usize(0x4000));
    ctx.set_ctx_type(ContextType::UNKNOWN);
    assert_eq!(ctx.ctx_type, ContextType::UNKNOWN);
    assert_eq!(ctx.thread_ctx.sp, 0x4000);
}

#[test]
fn thread_init_future_calls_the_closure_once() {
    let calls = std::cell::Cell::new(0u32);
    let mut ctx = Context::new();
    ctx.set_kstack_top(VirtAddr::from_usize(0x4000));
    ctx.init_future(|| {
        calls.set(calls.get() + 1);
        std::future::ready(1i32)
    });
    assert_eq!(calls.get(), 1);
    assert_eq!(ctx.thread_ctx.sp, 0x4000);
    assert_eq!(ctx.ctx_type, ContextType::COROUTINE);
}

fn with_kind(kind: ContextType) -> Context {
    let mut ctx = Context::new();
    ctx.set_ctx_type(kind);
    ctx
}

#[test]
fn coroutine_to_coroutine_runs_the_closure() {
    let action = switch_action(&with_kind(ContextType::COROUTINE), &with_kind(ContextType::COROUTINE));
    assert_eq!(action, SwitchAction::RunClosure);
}

#[test]
fn coroutine_to_thread_restores_the_next_thread() {
    let action = switch_action(&with_kind(ContextType::COROUTINE), &with_kind(ContextType::THREAD));
    assert_eq!(action, SwitchAction::RestoreNext);
}

#[test]
fn thread_to_anything_switches_threads() {
    for next in [ContextType::COROUTINE, ContextType::THREAD, ContextType::UNKNOWN] {
        let action = switch_action(&with_kind(ContextType::THREAD), &with_kind(next));
        assert_eq!(action, SwitchAction::SwitchThreads);
    }
}

#[test]
fn supported_switches() {
    let (coroutine, thread, unknown) =
        (ContextType::COROUTINE, ContextType::THREAD, ContextType::UNKNOWN);
    assert!(is_switch_supported(coroutine, coroutine));
    assert!(is_switch_supported(coroutine, thread));
    assert!(is_switch_supported(thread, coroutine));
    assert!(is_switch_supported(thread, thread));
    assert!(is_switch_supported(thread, unknown));
    assert!(!is_switch_supported(coroutine, unknown));
    assert!(!is_switch_supported(unknown, coroutine));
    assert!(!is_switch_supported(unknown, thread));
    assert!(!is_switch_supported(unknown, unknown));
}
