//! The conditions under which the machine cannot take a step.

use vstd::prelude::*;
use crate::field::Field;

verus! {

/// Why an instruction cannot be executed. A fault is fatal to the running
/// program: the machine is left as it was and is not expected to go on.
#[derive(Clone, Copy, Debug, PartialEq, Eq, Structural)]
pub enum Fault {
    /// The program counter points past the last whole instruction word, or
    /// cannot be moved as the instruction asks.
    ProgramCounter,
    /// The word matches no instruction pattern.
    UnknownOpcode { word: u16 },
    /// A call with the stack full, or a stack pointer beyond the stack.
    StackOverflow,
    /// A return with the stack empty.
    StackUnderflow,
    /// A key instruction names a key above 15.
    KeyIndex,
    /// A read or write at `I` would leave memory, or a write would land in
    /// the font.
    MemoryAccess,
}

/// Why a program was not loaded.
#[derive(Clone, Copy, Debug, PartialEq, Eq, Structural)]
pub enum LoadError {
    /// The program has more bytes than fit between address 512 and the end
    /// of memory.
    TooLarge { len: usize },
}

/// Why a saved record was not turned into a machine. Nothing is restored
/// in part: a record is taken whole or not at all.
#[derive(Clone, Copy, Debug, PartialEq, Eq, Structural)]
pub enum RestoreError {
    /// The record names a field that a machine does not have.
    UnknownField,
    /// The record gives a field twice.
    DuplicateField { field: Field },
    /// The record ends without a field.
    MissingField { field: Field },
    /// The value given for a field is of another kind than the field.
    WrongKind { field: Field },
    /// The list given for a field has not the length of the field.
    WrongLength { field: Field },
}

} // verus!
