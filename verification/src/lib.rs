//! An emulator core for the LC-3, a 16-bit teaching computer: a memory of 2^16
//! words, eight general-purpose registers, a program counter, a condition
//! register, and a `step` that fetches, decodes and executes one instruction.

pub mod console;
pub mod instr;
pub mod machine;
pub mod theorems;
pub mod utils;

pub use crate::instr::{decode, Instr, Opcode, Operand, TrapVector};
pub use crate::machine::{Machine, COND, MEM_SIZE, NEG, PC, POS, REG_SIZE, START, ZRO};
pub use crate::utils::sign_extend;
