//! Architecture-specific register state.

pub mod riscv;

pub use riscv::{GeneralRegisters, TaskContext, TrapFrame};
