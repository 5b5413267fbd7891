//! Laws of the machine: what holds of every state and every instruction.

use vstd::prelude::*;
use crate::chip8::Chip8;
use crate::fault::RestoreError;
use crate::machine::MachineState;
use crate::opcode::Instruction;
use crate::semantics::{
    any_pressed, execute, execute_fault, fetch_word, is_lowest_pressed, key_set, loaded,
    lowest_pressed, tick_fault, ticked, timers_ticked,
};
use crate::snapshot::{PartialState, Snapshot};
use crate::sprite::{drawn, sprite_covers, sprite_rows};

verus! {

/// Whether an instruction writes to memory.
pub open spec fn writes_memory(ins: Instruction) -> bool {
    ins is StoreDecimal || ins is StoreRegisters
}

/// Below a held key there is a lowest held key.
proof fn lemma_some_lowest(keys: Seq<bool>, k: int)
    requires
        0 <= k < 16,
        keys[k],
    ensures
        exists|j: int| is_lowest_pressed(keys, j),
    decreases k,
{
    if exists|j: int| 0 <= j < k && keys[j] {
        let j = choose|j: int| 0 <= j < k && keys[j];
        lemma_some_lowest(keys, j);
    } else {
        assert(is_lowest_pressed(keys, k));
    }
}

/// While some key is held, the lowest held key is a held key with no held
/// key below it, and there is one such key only.
pub proof fn lemma_lowest_pressed(keys: Seq<bool>)
    requires
        any_pressed(keys),
    ensures
        is_lowest_pressed(keys, lowest_pressed(keys)),
        forall|k: int| is_lowest_pressed(keys, k) ==> k == lowest_pressed(keys),
{
    let k = choose|k: int| 0 <= k < 16 && keys[k];
    lemma_some_lowest(keys, k);
    let low = lowest_pressed(keys);
    assert forall|j: int| is_lowest_pressed(keys, j) implies j == low by {
        if j < low {
            assert(!keys[j]);
        } else if low < j {
            assert(!keys[low]);
        }
    }
}

/// Add with carry: `VF` becomes 1 exactly when the sum of the two registers
/// exceeds 255, and 0 otherwise; `Vx` becomes the sum modulo 256, unless `Vx`
/// is `VF` itself, which then holds the carry.
pub proof fn lemma_add_carry(m: MachineState, x: u8, y: u8)
    requires
        m.wf(),
        x < 16,
        y < 16,
    ensures
        ({
            let after = execute(m, Instruction::AddCarry { x, y }, 0);
            &&& after.reg(15) == 1 <==> m.reg(x) + m.reg(y) > 255
            &&& after.reg(15) == 0 <==> m.reg(x) + m.reg(y) <= 255
            &&& x != 15 ==> after.reg(x) == (m.reg(x) + m.reg(y)) % 256
        }),
{
}

/// Subtract: `VF` becomes 0 exactly when `Vx < Vy`, a borrow, and 1
/// otherwise; `Vx` becomes the difference modulo 256, unless `Vx` is `VF`
/// itself, which then holds the flag.
pub proof fn lemma_sub_borrow(m: MachineState, x: u8, y: u8)
    requires
        m.wf(),
        x < 16,
        y < 16,
    ensures
        ({
            let after = execute(m, Instruction::SubBorrow { x, y }, 0);
            &&& after.reg(15) == 0 <==> m.reg(x) < m.reg(y)
            &&& after.reg(15) == 1 <==> m.reg(x) >= m.reg(y)
            &&& x != 15 ==> after.reg(x) == (m.reg(x) - m.reg(y)) % 256
        }),
{
}

/// Drawing a sprite twice at one place leaves the framebuffer as it was.
pub proof fn lemma_drawn_twice(screen: Seq<bool>, sprite: Seq<u8>, vx: u8, vy: u8)
    requires
        screen.len() == 2048,
    ensures
        drawn(drawn(screen, sprite, vx, vy), sprite, vx, vy) == screen,
{
    assert(drawn(drawn(screen, sprite, vx, vy), sprite, vx, vy) =~= screen);
}

/// Two draws of one sprite in a row, with the coordinate registers the same
/// for both, return the framebuffer to what it was, and the second draw sets
/// `VF` to 1 exactly when a cell that the sprite covers was lit after the
/// first, and to 0 otherwise. The coordinates are the same for both unless a
/// coordinate register is `VF` and the first draw changed it.
pub proof fn lemma_draw_twice(m: MachineState, x: u8, y: u8, n: u8)
    requires
        m.wf(),
        x < 16,
        y < 16,
        n < 16,
        execute(m, Instruction::Draw { x, y, n }, 0).reg(x) == m.reg(x),
        execute(m, Instruction::Draw { x, y, n }, 0).reg(y) == m.reg(y),
    ensures
        ({
            let first = execute(m, Instruction::Draw { x, y, n }, 0);
            let second = execute(first, Instruction::Draw { x, y, n }, 0);
            let sprite = sprite_rows(m.memory, m.i as int, n as int);
            &&& second.screen == m.screen
            &&& second.reg(15) == 1 <==> exists|p: int|
                0 <= p < 2048 && first.screen[p] && #[trigger] sprite_covers(
                    sprite,
                    m.reg(x),
                    m.reg(y),
                    p,
                )
            &&& second.reg(15) == 1 || second.reg(15) == 0
        }),
{
    let first = execute(m, Instruction::Draw { x, y, n }, 0);
    let sprite = sprite_rows(m.memory, m.i as int, n as int);
    assert(sprite_rows(first.memory, first.i as int, n as int) == sprite);
    lemma_drawn_twice(m.screen, sprite, m.reg(x), m.reg(y));
}

/// A call followed by a return continues at the instruction after the call,
/// with the stack as deep as before.
pub proof fn lemma_call_return(m: MachineState, addr: u16, random: u8)
    requires
        m.wf(),
        m.sp < 16,
    ensures
        ({
            let called = execute(m, Instruction::Call { addr }, random);
            let returned = execute(called, Instruction::Return, random);
            &&& execute_fault(m, Instruction::Call { addr }) is None
            &&& execute_fault(called, Instruction::Return) is None
            &&& called.pc == addr
            &&& returned.pc == m.pc
            &&& returned.sp == m.sp
        }),
{
}

/// A step that calls a subroutine whose first instruction is a return,
/// followed by the step that returns, leaves the program counter two past
/// where it was: at the instruction after the call.
pub proof fn lemma_call_return_steps(m: MachineState, addr: u16, random: u8)
    requires
        m.wf(),
        m.pc <= 4094,
        m.sp < 16,
        addr <= 4094,
        Instruction::of_word(fetch_word(m)) == Some(Instruction::Call { addr }),
        m.memory[addr as int] == 0x00,
        m.memory[addr + 1] == 0xEE,
    ensures
        tick_fault(m) is None,
        tick_fault(ticked(m, random)) is None,
        ticked(ticked(m, random), random).pc == m.pc + 2,
        ticked(ticked(m, random), random).sp == m.sp,
{
    let called = ticked(m, random);
    assert(called.memory == m.memory);
    assert(fetch_word(called) == 0x00EE);
}

/// The key-wait step. With no key held the step changes nothing, so the same
/// instruction is fetched again. With a key held the program counter moves
/// past the instruction and `Vx` holds the lowest held key.
pub proof fn lemma_key_wait(m: MachineState, x: u8, random: u8)
    requires
        m.wf(),
        m.pc <= 4094,
        Instruction::of_word(fetch_word(m)) == Some(Instruction::WaitKey { x }),
    ensures
        tick_fault(m) is None,
        !any_pressed(m.keys) ==> ticked(m, random) == m,
        any_pressed(m.keys) ==> {
            &&& ticked(m, random).pc == m.pc + 2
            &&& is_lowest_pressed(m.keys, ticked(m, random).reg(x) as int)
            &&& ticked(m, random) == (MachineState { pc: (m.pc + 2) as u16, ..m }).with_register(
                x,
                lowest_pressed(m.keys) as u8,
            )
        },
{
    if any_pressed(m.keys) {
        lemma_lowest_pressed(m.keys);
    }
}

/// A timer tick lowers each timer by one and stops at 0: no timer wraps
/// round, and none rises.
pub proof fn lemma_timers(m: MachineState)
    ensures
        timers_ticked(m).delay_timer == if m.delay_timer == 0 {
            0
        } else {
            m.delay_timer - 1
        },
        timers_ticked(m).sound_timer == if m.sound_timer == 0 {
            0
        } else {
            m.sound_timer - 1
        },
        timers_ticked(m).delay_timer <= m.delay_timer,
        timers_ticked(m).sound_timer <= m.sound_timer,
        m.delay_timer <= 1 ==> timers_ticked(timers_ticked(m)).delay_timer == 0,
        m.sound_timer <= 1 ==> timers_ticked(timers_ticked(m)).sound_timer == 0,
{
}

/// What no instruction touches: the key latches and the tick rate stay as
/// they are, the arrays keep their lengths, the timers change only when set
/// from a register, and the framebuffer changes only under a clear or a draw.
pub proof fn lemma_execute_frame(m: MachineState, ins: Instruction, random: u8)
    requires
        m.wf(),
        ins.wf(),
        execute_fault(m, ins) is None,
    ensures
        execute(m, ins, random).wf(),
        execute(m, ins, random).keys == m.keys,
        execute(m, ins, random).fps == m.fps,
        !(ins is SetDelay) ==> execute(m, ins, random).delay_timer == m.delay_timer,
        !(ins is SetSound) ==> execute(m, ins, random).sound_timer == m.sound_timer,
        !(ins is ClearScreen || ins is Draw) ==> execute(m, ins, random).screen == m.screen,
        !writes_memory(ins) ==> execute(m, ins, random).memory == m.memory,
{
}

/// What no step touches: as for a single instruction, with the instruction
/// being the one at the program counter.
pub proof fn lemma_tick_frame(m: MachineState, ins: Instruction, random: u8)
    requires
        m.wf(),
        tick_fault(m) is None,
        Instruction::of_word(fetch_word(m)) == Some(ins),
    ensures
        ticked(m, random).wf(),
        ticked(m, random).keys == m.keys,
        ticked(m, random).fps == m.fps,
        !(ins is SetDelay) ==> ticked(m, random).delay_timer == m.delay_timer,
        !(ins is SetSound) ==> ticked(m, random).sound_timer == m.sound_timer,
        !(ins is ClearScreen || ins is Draw) ==> ticked(m, random).screen == m.screen,
        !writes_memory(ins) ==> ticked(m, random).memory == m.memory,
        m.font_loaded() ==> ticked(m, random).font_loaded(),
{
    crate::opcode::lemma_of_word_wf(fetch_word(m));
    lemma_execute_frame(crate::semantics::fetched(m), ins, random);
    if m.font_loaded() {
        lemma_font_preserved(crate::semantics::fetched(m), ins, random);
    }
}

/// The font stays in place under every instruction: a store writes at `I`
/// and upward only, and one whose `I` lies inside the font is a fault.
pub proof fn lemma_font_preserved(m: MachineState, ins: Instruction, random: u8)
    requires
        m.wf(),
        m.font_loaded(),
        ins.wf(),
        execute_fault(m, ins) is None,
    ensures
        execute(m, ins, random).font_loaded(),
{
}

/// Loading a program, a timer tick and a key event leave the font in place.
pub proof fn lemma_font_kept_outside_execution(
    m: MachineState,
    program: Seq<u8>,
    key: Option<u8>,
    is_down: bool,
)
    requires
        m.wf(),
        m.font_loaded(),
    ensures
        loaded(m, program).font_loaded(),
        timers_ticked(m).font_loaded(),
        key_set(m, key, is_down).font_loaded(),
        MachineState::initial().font_loaded(),
        MachineState::initial().wf(),
{
}

/// Loading changes memory from address 512 on and nothing else.
pub proof fn lemma_loaded_frame(m: MachineState, program: Seq<u8>)
    requires
        m.wf(),
        program.len() <= 3584,
    ensures
        loaded(m, program).wf(),
        loaded(m, program) == (MachineState { memory: loaded(m, program).memory, ..m }),
        forall|a: int| 0 <= a < 512 ==> loaded(m, program).memory[a] == m.memory[a],
        forall|a: int|
            512 + program.len() <= a < 4096 ==> loaded(m, program).memory[a] == m.memory[a],
        forall|k: int| 0 <= k < program.len() ==> loaded(m, program).memory[512 + k] == program[k],
{
}

/// A record taken of a machine restores to that machine, read back whole
/// or gathered field by field.
pub proof fn lemma_snapshot_restores(chip8: Chip8, record: Snapshot, partial: PartialState)
    requires
        record@ == chip8@,
        partial.first_missing() is None,
        partial.gathered()@ == record@,
    ensures
        record.restored() == Ok::<MachineState, RestoreError>(chip8@),
        partial.finished() == Ok::<MachineState, RestoreError>(chip8@),
{
    chip8.lemma_wf();
}

} // verus!
