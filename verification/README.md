# task_context

Task contexts for a kernel that runs both coroutines and threads on RISC-V.

- `src/arch/riscv.rs`: the saved register state of a task (`TaskContext`),
  the general registers and the trap frame, with their zeroed defaults.
- `src/context.rs`: the trap-based context: its kind (`ContextType`, with the
  conversions between kinds and machine words), its trap frame address and
  its future.
- `src/ctx.rs`: the thread-based context and the decision of how to switch
  from one context to the next.
- `src/addr.rs`, `src/task_future.rs`: the boundary to `memory_addr` and to
  the heap-pinned future.
- `app/`: the RISC-V assembly routines and the switch that runs them.

Every function in `src/` is verified with Verus against its contract.
