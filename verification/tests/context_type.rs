use task_context::context::{Context, ContextType};
use memory_addr::VirtAddr;

#[test]
fn word_zero_to_three_name_the_known_kinds() {
    assert!(ContextType::from(0usize) == ContextType::COROUTINE);
    assert!(ContextType::from(1usize) == ContextType::THREAD);
    assert!(ContextType::from(2usize) == ContextType::STRAP);
    assert!(ContextType::from(3usize) == ContextType::UTRAP);
}

#[test]
fn other_words_are_unknown() {
    assert!(ContextType::from(4usize) == ContextType::UNKNOWN);
    assert!(ContextType::from(17usize) == ContextType::UNKNOWN);
    assert!(ContextType::from(usize::MAX) == ContextType::UNKNOWN);
}

#[test]
fn kind_codes() {
    assert_eq!(isize::from(ContextType::COROUTINE), 0);
    assert_eq!(isize::from(ContextType::THREAD), 1);
    assert_eq!(isize::from(ContextType::STRAP), 2);
    assert_eq!(isize::from(ContextType::UTRAP), 3);
    assert_eq!(isize::from(ContextType::UNKNOWN), -1);
    let code: isize = ContextType::UTRAP.into();
    assert_eq!(code, 3);
}

#[test]
fn word_then_code_gives_the_word_or_minus_one() {
    for value in 0usize..4 {
        assert_eq!(isize::from(ContextType::from(value)), value as isize);
    }
    for value in [4usize, 5, 100, usize::MAX] {
        assert_eq!(isize::from(ContextType::from(value)), -1);
    }
}

#[test]
fn code_round_trip_through_a_word() {
    let kinds = [
        ContextType::COROUTINE,
        ContextType::THREAD,
        ContextType::STRAP,
        ContextType::UTRAP,
        ContextType::UNKNOWN,
    ];
    for kind in kinds {
        assert!(ContextType::from(isize::from(kind) as usize) == kind);
    }
}

#[test]
fn new_context_is_a_coroutine_without_trap_frame() {
    let ctx = Context::new();
    assert_eq!(ctx.trap_frame, 0);
    assert!(ctx.ctx_type == ContextType::COROUTINE);
}

#[test]
fn set_ctx_type_changes_only_the_kind() {
    let mut ctx = Context::new();
    ctx.set_trap_frame(0x8020_0000);
    ctx.set_ctx_type(ContextType::STRAP);
    assert!(ctx.ctx_type == ContextType::STRAP);
    assert_eq!(ctx.trap_frame, 0x8020_0000);
}

#[test]
fn set_trap_frame_changes_only_the_frame() {
    let mut ctx = Context::new();
    ctx.set_ctx_type(ContextType::UTRAP);
    ctx.set_trap_frame(0x1000);
    assert_eq!(ctx.trap_frame, 0x1000);
    assert!(ctx.ctx_type == ContextType::UTRAP);
}

#[test]
fn last_write_wins_for_setters() {
    let mut ctx = Context::new();
    ctx.set_ctx_type(ContextType::THREAD);
    ctx.set_ctx_type(ContextType::UTRAP);
    ctx.set_trap_frame(0x10);
    ctx.set_trap_frame(0x20);
    assert!(ctx.ctx_type == ContextType::UTRAP);
    assert_eq!(ctx.trap_frame, 0x20);
}

#[test]
fn setters_commute() {
    let mut a = Context::new();
    a.set_ctx_type(ContextType::STRAP);
    a.set_trap_frame(0x40);
    let mut b = Context::new();
    b.set_trap_frame(0x40);
    b.set_ctx_type(ContextType::STRAP);
    assert!(a.ctx_type == b.ctx_type);
    assert_eq!(a.trap_frame, b.trap_frame);
}

#[test]
fn init_leaves_a_trap_context_unchanged() {
    let mut ctx = Context::new();
    ctx.set_ctx_type(ContextType::THREAD);
    ctx.set_trap_frame(0x3000);
    ctx.init(0x8000_0000, VirtAddr::from_usize(0x9000), VirtAddr::from_usize(0xa000));
    assert!(ctx.ctx_type == ContextType::THREAD);
    assert_eq!(ctx.trap_frame, 0x3000);
}

#[test]
fn init_future_calls_the_closure_once_and_keeps_the_rest() {
    let calls = std::cell::Cell::new(0u32);
    let mut ctx = Context::new();
    ctx.set_ctx_type(ContextType::UTRAP);
    ctx.set_trap_frame(0x5000);
    ctx.init_future(|| {
        calls.set(calls.get() + 1);
        std::future::ready(7i32)
    });
    assert_eq!(calls.get(), 1);
    assert!(ctx.ctx_type == ContextType::UTRAP);
    assert_eq!(ctx.trap_frame, 0x5000);
}
