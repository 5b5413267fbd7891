//! The mathematical model of the machine: its state and its initial contents.

use vstd::prelude::*;

verus! {

/// Bytes of addressable memory.
pub const MEMORY_SIZE: usize = 4096;

/// Depth of the call stack.
pub const STACK_SIZE: usize = 16;

/// Number of general-purpose registers `V0..VF`.
pub const NUMBER_OF_REGISTERS: usize = 16;

/// Bytes taken by the built-in font: sixteen glyphs of five rows each.
pub const FONT_SIZE: usize = 80;

/// Columns of the framebuffer.
pub const SCREEN_WIDTH: usize = 64;

/// Rows of the framebuffer.
pub const SCREEN_HEIGHT: usize = 32;

/// Cells of the framebuffer, row after row.
pub const SCREEN_CELLS: usize = 2048;

/// Address at which programs are loaded and at which execution starts.
pub const MEMORY_START_ADDRESS: u16 = 512;

/// Number of keys on the keypad.
pub const NUMBER_OF_KEYS: usize = 16;

/// Timer ticks per second that a fresh machine asks its driver for.
pub const DEFAULT_FPS: u32 = 60;

/// The built-in font: glyph `d` occupies bytes `5 * d .. 5 * d + 5`, one byte
/// per row, the glyph drawn in the high four bits.
pub const FONTS: [u8; 80] = [
    0xF0, 0x90, 0x90, 0x90, 0xF0,
    0x20, 0x60, 0x20, 0x20, 0x70,
    0xF0, 0x10, 0xF0, 0x80, 0xF0,
    0xF0, 0x10, 0xF0, 0x10, 0xF0,
    0x90, 0x90, 0xF0, 0x10, 0x10,
    0xF0, 0x80, 0xF0, 0x10, 0xF0,
    0xF0, 0x80, 0xF0, 0x90, 0xF0,
    0xF0, 0x10, 0x20, 0x40, 0x40,
    0xF0, 0x90, 0xF0, 0x90, 0xF0,
    0xF0, 0x90, 0xF0, 0x10, 0xF0,
    0xF0, 0x90, 0xF0, 0x90, 0x90,
    0xE0, 0x90, 0xE0, 0x90, 0xE0,
    0xF0, 0x80, 0x80, 0x80, 0xF0,
    0xE0, 0xF0, 0xF0, 0xF0, 0xE0,
    0xF0, 0x80, 0xF0, 0x80, 0xF0,
    0xF0, 0x80, 0xF0, 0x80, 0x80,
];

/// The whole architectural state of the machine, as mathematics.
#[verifier::ext_equal]
pub struct MachineState {
    /// 4096 bytes; the font sits at 0..80, where no instruction writes, and
    /// programs from 512 upward.
    pub memory: Seq<u8>,
    /// The index register `I`.
    pub i: u16,
    /// Sixteen return addresses.
    pub stack: Seq<u16>,
    /// Address of the next instruction.
    pub pc: u16,
    /// Number of return addresses held on the stack.
    pub sp: u8,
    pub delay_timer: u8,
    pub sound_timer: u8,
    /// One latch per key, `true` while the key is held.
    pub keys: Seq<bool>,
    /// The registers `V0..VF`.
    pub v: Seq<u8>,
    /// 64 x 32 cells, row after row; `true` is lit.
    pub screen: Seq<bool>,
    /// Timer ticks per second; it travels with the state and no instruction reads it.
    pub fps: u32,
}

impl MachineState {
    /// Every array has its fixed length.
    pub open spec fn wf(self) -> bool {
        &&& self.memory.len() == MEMORY_SIZE
        &&& self.stack.len() == STACK_SIZE
        &&& self.keys.len() == NUMBER_OF_KEYS
        &&& self.v.len() == NUMBER_OF_REGISTERS
        &&& self.screen.len() == SCREEN_CELLS
    }

    /// The state of a machine that has just been switched on.
    pub open spec fn initial() -> MachineState {
        MachineState {
            memory: Seq::new(
                MEMORY_SIZE as nat,
                |a: int|
                    if a < FONT_SIZE {
                        FONTS@[a]
                    } else {
                        0u8
                    },
            ),
            i: 0,
            stack: Seq::new(STACK_SIZE as nat, |k: int| 0u16),
            pc: MEMORY_START_ADDRESS,
            sp: 0,
            delay_timer: 0,
            sound_timer: 0,
            keys: Seq::new(NUMBER_OF_KEYS as nat, |k: int| false),
            v: Seq::new(NUMBER_OF_REGISTERS as nat, |k: int| 0u8),
            screen: Seq::new(SCREEN_CELLS as nat, |p: int| false),
            fps: DEFAULT_FPS,
        }
    }

    /// The font occupies the first 80 bytes of memory.
    pub open spec fn font_loaded(self) -> bool {
        forall|a: int| 0 <= a < FONT_SIZE ==> self.memory[a] == FONTS@[a]
    }
}

} // verus!
