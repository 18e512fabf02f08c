//! A sequential instruction-level simulator for the Y86-64 instruction set:
//! fifteen signed 64-bit registers, a flat byte-addressed memory, three
//! condition flags and a terminal status.

pub mod isa;
pub mod laws;
pub mod loader;
pub mod machine;
pub mod memory;
pub mod text;

pub use isa::{AluOp, Condition, CycleState, Flags, OpCode, SimError, Stage, Status, StepMode};
pub use machine::Machine;
