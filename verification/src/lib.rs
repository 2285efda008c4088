//! Task contexts of a kernel that runs both coroutines and threads: the saved
//! register state of a task, the trap frame layout, the context kinds and the
//! decision of how to move from one context to the next.

pub mod addr;
pub mod arch;
pub mod context;
pub mod ctx;
pub mod task_future;
