//! An interpreter core for the CHIP-8 virtual machine.
//!
//! The machine is a plain state value advanced by calls: one call executes one
//! instruction, another advances the two timers. Every transition is stated
//! over a mathematical model of the machine ([`machine::MachineState`]) and
//! proved against it.

pub mod chip8;
pub mod display;
pub mod driver;
pub mod fault;
pub mod field;
pub mod keypad;
pub mod laws;
pub mod machine;
pub mod opcode;
mod random;
pub mod semantics;
pub mod snapshot;
pub mod sprite;
