//! What each instruction does to the machine, as functions on
//! [`MachineState`], and when it cannot be executed.

use vstd::prelude::*;
use crate::fault::Fault;
use crate::machine::MachineState;
use crate::opcode::Instruction;
use crate::sprite::{collides, drawn, sprite_rows};

verus! {

/// Key `k` is held and no key below it is.
pub open spec fn is_lowest_pressed(keys: Seq<bool>, k: int) -> bool {
    &&& 0 <= k < 16
    &&& keys[k]
    &&& forall|j: int| 0 <= j < k ==> !keys[j]
}

/// Some key is held.
pub open spec fn any_pressed(keys: Seq<bool>) -> bool {
    exists|k: int| 0 <= k < 16 && keys[k]
}

/// The lowest key that is held, if any is.
pub open spec fn lowest_pressed(keys: Seq<bool>) -> int {
    choose|k: int| is_lowest_pressed(keys, k)
}

impl MachineState {
    /// The state with register `x` set to `value`.
    pub open spec fn with_register(self, x: u8, value: u8) -> MachineState {
        MachineState { v: self.v.update(x as int, value), ..self }
    }

    /// The state with `VF` set to `value`.
    pub open spec fn with_flag(self, value: u8) -> MachineState {
        self.with_register(15, value)
    }

    /// The state with the program counter past the next instruction if
    /// `taken`, and unchanged if not.
    pub open spec fn skip_if(self, taken: bool) -> MachineState {
        if taken {
            MachineState { pc: (self.pc + 2) as u16, ..self }
        } else {
            self
        }
    }

    /// The value of register `x`.
    pub open spec fn reg(self, x: u8) -> u8 {
        self.v[x as int]
    }
}

/// A skip that is taken needs room to move the program counter on.
pub open spec fn skip_fault(m: MachineState, taken: bool) -> Option<Fault> {
    if taken && m.pc > 0xFFFD {
        Some(Fault::ProgramCounter)
    } else {
        None
    }
}

/// A read of `count` bytes at `I` needs them to lie in memory.
pub open spec fn memory_fault(m: MachineState, count: int) -> Option<Fault> {
    if count > 0 && m.i + count > 4096 {
        Some(Fault::MemoryAccess)
    } else {
        None
    }
}

/// A store of `count` bytes at `I` needs them to lie in memory and above the
/// font: the first 80 bytes are never written by a program.
pub open spec fn store_fault(m: MachineState, count: int) -> Option<Fault> {
    if m.i < 80 || m.i + count > 4096 {
        Some(Fault::MemoryAccess)
    } else {
        None
    }
}

/// Why `ins` cannot be executed in state `m`, or `None` where it can.
pub open spec fn execute_fault(m: MachineState, ins: Instruction) -> Option<Fault> {
    match ins {
        Instruction::Return => if m.sp == 0 {
            Some(Fault::StackUnderflow)
        } else if m.sp > 16 {
            Some(Fault::StackOverflow)
        } else {
            None
        },
        Instruction::Call { addr } => if m.sp >= 16 {
            Some(Fault::StackOverflow)
        } else {
            None
        },
        Instruction::SkipIfEqualByte { x, kk } => skip_fault(m, m.reg(x) == kk),
        Instruction::SkipIfNotEqualByte { x, kk } => skip_fault(m, m.reg(x) != kk),
        Instruction::SkipIfEqual { x, y } => skip_fault(m, m.reg(x) == m.reg(y)),
        Instruction::SkipIfNotEqual { x, y } => skip_fault(m, m.reg(x) != m.reg(y)),
        Instruction::Draw { x, y, n } => memory_fault(m, n as int),
        Instruction::SkipIfKey { x } => if m.reg(x) >= 16 {
            Some(Fault::KeyIndex)
        } else {
            skip_fault(m, m.keys[m.reg(x) as int])
        },
        Instruction::SkipIfNotKey { x } => if m.reg(x) >= 16 {
            Some(Fault::KeyIndex)
        } else {
            skip_fault(m, !m.keys[m.reg(x) as int])
        },
        Instruction::WaitKey { x } => if !any_pressed(m.keys) && m.pc < 2 {
            Some(Fault::ProgramCounter)
        } else {
            None
        },
        Instruction::StoreDecimal { x } => store_fault(m, 3),
        Instruction::StoreRegisters { x } => store_fault(m, x + 1),
        Instruction::LoadRegisters { x } => memory_fault(m, x + 1),
        _ => None,
    }
}

/// The state after `ins` was executed in state `m`. `random` is the number
/// drawn for [`Instruction::Random`]; no other instruction reads it.
pub open spec fn execute(m: MachineState, ins: Instruction, random: u8) -> MachineState {
    match ins {
        Instruction::Nop => m,
        Instruction::ClearScreen => MachineState {
            screen: Seq::new(2048, |p: int| false),
            ..m
        },
        Instruction::Return => MachineState {
            pc: m.stack[m.sp - 1],
            sp: (m.sp - 1) as u8,
            ..m
        },
        Instruction::Jump { addr } => MachineState { pc: addr, ..m },
        Instruction::Call { addr } => MachineState {
            stack: m.stack.update(m.sp as int, m.pc),
            sp: (m.sp + 1) as u8,
            pc: addr,
            ..m
        },
        Instruction::SkipIfEqualByte { x, kk } => m.skip_if(m.reg(x) == kk),
        Instruction::SkipIfNotEqualByte { x, kk } => m.skip_if(m.reg(x) != kk),
        Instruction::SkipIfEqual { x, y } => m.skip_if(m.reg(x) == m.reg(y)),
        Instruction::LoadByte { x, kk } => m.with_register(x, kk),
        Instruction::AddByte { x, kk } => m.with_register(x, ((m.reg(x) + kk) % 256) as u8),
        Instruction::Move { x, y } => m.with_register(x, m.reg(y)),
        Instruction::Or { x, y } => m.with_register(x, m.reg(x) | m.reg(y)),
        Instruction::And { x, y } => m.with_register(x, m.reg(x) & m.reg(y)),
        Instruction::Xor { x, y } => m.with_register(x, m.reg(x) ^ m.reg(y)),
        Instruction::AddCarry { x, y } => {
            let sum = m.reg(x) + m.reg(y);
            m.with_register(x, (sum % 256) as u8).with_flag(
                if sum > 255 {
                    1
                } else {
                    0
                },
            )
        },
        Instruction::SubBorrow { x, y } => {
            let difference = m.reg(x) - m.reg(y);
            m.with_register(x, (difference % 256) as u8).with_flag(
                if difference < 0 {
                    0
                } else {
                    1
                },
            )
        },
        Instruction::ShiftRight { x } => m.with_register(x, m.reg(x) / 2).with_flag(m.reg(x) % 2),
        Instruction::SubFrom { x, y } => {
            let difference = m.reg(y) - m.reg(x);
            m.with_register(x, (difference % 256) as u8).with_flag(
                if difference < 0 {
                    0
                } else {
                    1
                },
            )
        },
        Instruction::ShiftLeft { x } => m.with_register(x, ((m.reg(x) * 2) % 256) as u8).with_flag(
            m.reg(x) / 128,
        ),
        Instruction::SkipIfNotEqual { x, y } => m.skip_if(m.reg(x) != m.reg(y)),
        Instruction::LoadIndex { addr } => MachineState { i: addr, ..m },
        Instruction::JumpOffset { addr } => MachineState { pc: (m.reg(0) + addr) as u16, ..m },
        Instruction::Random { x, kk } => m.with_register(x, random & kk),
        Instruction::Draw { x, y, n } => {
            let sprite = sprite_rows(m.memory, m.i as int, n as int);
            MachineState { screen: drawn(m.screen, sprite, m.reg(x), m.reg(y)), ..m }.with_flag(
                if collides(m.screen, sprite, m.reg(x), m.reg(y)) {
                    1
                } else {
                    0
                },
            )
        },
        Instruction::SkipIfKey { x } => m.skip_if(m.keys[m.reg(x) as int]),
        Instruction::SkipIfNotKey { x } => m.skip_if(!m.keys[m.reg(x) as int]),
        Instruction::ReadDelay { x } => m.with_register(x, m.delay_timer),
        Instruction::WaitKey { x } => if any_pressed(m.keys) {
            m.with_register(x, lowest_pressed(m.keys) as u8)
        } else {
            MachineState { pc: (m.pc - 2) as u16, ..m }
        },
        Instruction::SetDelay { x } => MachineState { delay_timer: m.reg(x), ..m },
        Instruction::SetSound { x } => MachineState { sound_timer: m.reg(x), ..m },
        Instruction::AddIndex { x } => {
            let sum = m.i + m.reg(x);
            let moved = MachineState { i: (sum % 65536) as u16, ..m };
            if sum > 65535 {
                moved.with_flag(1)
            } else {
                moved
            }
        },
        Instruction::FontAddress { x } => MachineState { i: (5 * m.reg(x)) as u16, ..m },
        Instruction::StoreDecimal { x } => MachineState {
            memory: m.memory.update(m.i as int, m.reg(x) / 100).update(
                m.i + 1,
                (m.reg(x) / 10) % 10,
            ).update(m.i + 2, m.reg(x) % 10),
            ..m
        },
        Instruction::StoreRegisters { x } => MachineState {
            memory: Seq::new(
                4096,
                |a: int|
                    if m.i <= a <= m.i + x {
                        m.v[a - m.i]
                    } else {
                        m.memory[a]
                    },
            ),
            ..m
        },
        Instruction::LoadRegisters { x } => MachineState {
            v: Seq::new(
                16,
                |k: int|
                    if k <= x {
                        m.memory[m.i + k]
                    } else {
                        m.v[k]
                    },
            ),
            ..m
        },
    }
}

/// The instruction word at the program counter: two bytes, the high one first.
pub open spec fn fetch_word(m: MachineState) -> u16 {
    (m.memory[m.pc as int] * 256 + m.memory[m.pc + 1]) as u16
}

/// The state after a fetch: the program counter is past the word.
pub open spec fn fetched(m: MachineState) -> MachineState {
    MachineState { pc: (m.pc + 2) as u16, ..m }
}

/// Why `word` cannot be decoded and executed in state `m`, or `None`.
pub open spec fn decode_fault(m: MachineState, word: u16) -> Option<Fault> {
    match Instruction::of_word(word) {
        Some(ins) => execute_fault(m, ins),
        None => Some(Fault::UnknownOpcode { word }),
    }
}

/// The state after `word` was decoded and executed in state `m`.
pub open spec fn decoded(m: MachineState, word: u16, random: u8) -> MachineState {
    match Instruction::of_word(word) {
        Some(ins) => execute(m, ins, random),
        None => m,
    }
}

/// The largest number that may be drawn for `word`: its low byte for a
/// random instruction, and 0 for every other word.
pub open spec fn random_limit(word: u16) -> u8 {
    match Instruction::of_word(word) {
        Some(Instruction::Random { x, kk }) => kk,
        _ => 0,
    }
}

/// Why the machine cannot take its next step, or `None` where it can.
pub open spec fn tick_fault(m: MachineState) -> Option<Fault> {
    if m.pc > 4094 {
        Some(Fault::ProgramCounter)
    } else {
        decode_fault(fetched(m), fetch_word(m))
    }
}

/// The state after one step: fetch, decode and execute.
pub open spec fn ticked(m: MachineState, random: u8) -> MachineState {
    decoded(fetched(m), fetch_word(m), random)
}

/// The timers after one timer tick: each is one lower, and stays at 0.
pub open spec fn timers_ticked(m: MachineState) -> MachineState {
    MachineState {
        delay_timer: if m.delay_timer > 0 {
            (m.delay_timer - 1) as u8
        } else {
            0
        },
        sound_timer: if m.sound_timer > 0 {
            (m.sound_timer - 1) as u8
        } else {
            0
        },
        ..m
    }
}

/// The state after the key `key` was pressed or released. A key that is
/// absent or above 15 changes nothing.
pub open spec fn key_set(m: MachineState, key: Option<u8>, is_down: bool) -> MachineState {
    match key {
        Some(k) if k < 16 => MachineState { keys: m.keys.update(k as int, is_down), ..m },
        _ => m,
    }
}

/// The state after `program` was copied to address 512.
pub open spec fn loaded(m: MachineState, program: Seq<u8>) -> MachineState {
    MachineState {
        memory: Seq::new(
            4096,
            |a: int|
                if 512 <= a < 512 + program.len() {
                    program[a - 512]
                } else {
                    m.memory[a]
                },
        ),
        ..m
    }
}

} // verus!
