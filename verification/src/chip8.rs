//! The interpreter: the machine's state and the operations that advance it.

use vstd::prelude::*;
use crate::fault::{Fault, LoadError, RestoreError};
use crate::field::Field;
use crate::laws::lemma_font_preserved;
use crate::machine::{MachineState, DEFAULT_FPS, FONTS, MEMORY_START_ADDRESS};
use crate::opcode::Instruction;
use crate::random::random_up_to;
use crate::semantics::{
    any_pressed, decode_fault, decoded, execute, execute_fault, fetch_word, fetched,
    is_lowest_pressed, key_set, loaded, lowest_pressed, memory_fault, random_limit, skip_fault,
    store_fault, tick_fault, ticked, timers_ticked,
};
use crate::snapshot::{length_fault, Snapshot};
use crate::sprite::{collides, draw_sprite, drawn, sprite_rows};

verus! {

/// A CHIP-8 machine. Its view is the [`MachineState`] it stands for.
#[derive(Copy, Clone, Debug)]
pub struct Chip8 {
    memory: [u8; 4096],
    i: u16,
    stack: [u16; 16],
    pc: u16,
    sp: u8,
    delay_timer: u8,
    sound_timer: u8,
    keys: [bool; 16],
    v: [u8; 16],
    screen: [bool; 2048],
    fps: u32,
}

impl View for Chip8 {
    type V = MachineState;

    closed spec fn view(&self) -> MachineState {
        MachineState {
            memory: self.memory@,
            i: self.i,
            stack: self.stack@,
            pc: self.pc,
            sp: self.sp,
            delay_timer: self.delay_timer,
            sound_timer: self.sound_timer,
            keys: self.keys@,
            v: self.v@,
            screen: self.screen@,
            fps: self.fps,
        }
    }
}

/// Copies `V0..=V[last]` to memory from `start` on.
fn store_registers(memory: &mut [u8; 4096], v: &[u8; 16], start: u16, last: u8)
    requires
        last < 16,
        start + last < 4096,
    ensures
        final(memory)@ == Seq::new(
            4096,
            |a: int|
                if start <= a <= start + last {
                    v@[a - start]
                } else {
                    old(memory)@[a]
                },
        ),
{
    let ghost before = memory@;
    let mut k: u8 = 0;
    while k <= last
        invariant
            k <= last + 1,
            last < 16,
            start + last < 4096,
            forall|a: int|
                0 <= a < 4096 ==> memory@[a] == if start <= a < start + k {
                    v@[a - start]
                } else {
                    before[a]
                },
        decreases last + 1 - k,
    {
        memory[start as usize + k as usize] = v[k as usize];
        k = k + 1;
    }
    assert(memory@ =~= Seq::new(
        4096,
        |a: int|
            if start <= a <= start + last {
                v@[a - start]
            } else {
                before[a]
            },
    ));
}

/// Copies memory from `start` on to `V0..=V[last]`.
fn load_registers(v: &mut [u8; 16], memory: &[u8; 4096], start: u16, last: u8)
    requires
        last < 16,
        start + last < 4096,
    ensures
        final(v)@ == Seq::new(
            16,
            |k: int|
                if k <= last {
                    memory@[start + k]
                } else {
                    old(v)@[k]
                },
        ),
{
    let ghost before = v@;
    let mut k: u8 = 0;
    while k <= last
        invariant
            k <= last + 1,
            last < 16,
            start + last < 4096,
            forall|j: int|
                0 <= j < 16 ==> v@[j] == if j < k {
                    memory@[start + j]
                } else {
                    before[j]
                },
        decreases last + 1 - k,
    {
        v[k as usize] = memory[start as usize + k as usize];
        k = k + 1;
    }
    assert(v@ =~= Seq::new(
        16,
        |j: int|
            if j <= last {
                memory@[start + j]
            } else {
                before[j]
            },
    ));
}

/// The array that holds the items of `items`, which has `N` of them.
fn array_of<T: Copy, const N: usize>(items: &Vec<T>, fill: T) -> (array: [T; N])
    requires
        items@.len() == N,
    ensures
        array@ == items@,
{
    let mut array = [fill;N];
    let mut k: usize = 0;
    while k < N
        invariant
            k <= N,
            items@.len() == N,
            forall|j: int| 0 <= j < k ==> array@[j] == items@[j],
        decreases N - k,
    {
        array[k] = items[k];
        k = k + 1;
    }
    assert(array@ =~= items@);
    array
}

/// The lowest key that is held, if any is.
fn find_pressed(keys: &[bool; 16]) -> (r: Option<u8>)
    ensures
        match r {
            Some(k) => any_pressed(keys@) && lowest_pressed(keys@) == k,
            None => !any_pressed(keys@),
        },
{
    let mut k: u8 = 0;
    while k < 16
        invariant
            k <= 16,
            forall|j: int| 0 <= j < k ==> !keys@[j],
        decreases 16 - k,
    {
        if keys[k as usize] {
            proof {
                assert(is_lowest_pressed(keys@, k as int));
                let c = lowest_pressed(keys@);
                assert(is_lowest_pressed(keys@, c));
                if c < k {
                    assert(!keys@[c]);
                }
            }
            return Some(k);
        }
        k = k + 1;
    }
    None
}

/// Whether a skip, taken or not, can move a program counter at `pc`.
fn skip_check(pc: u16, taken: bool) -> (r: Option<Fault>)
    ensures
        forall|m: MachineState| m.pc == pc ==> r == #[trigger] skip_fault(m, taken),
{
    if taken && pc > 0xFFFD {
        Some(Fault::ProgramCounter)
    } else {
        None
    }
}

/// Whether `count` bytes from address `i` on lie in memory.
fn memory_check(i: u16, count: u16) -> (r: Option<Fault>)
    ensures
        forall|m: MachineState| m.i == i ==> r == #[trigger] memory_fault(m, count as int),
{
    if count > 0 && (i > 4096 || count > 4096 - i) {
        Some(Fault::MemoryAccess)
    } else {
        None
    }
}

/// Whether `count` bytes from address `i` on lie in memory and above the font.
fn store_check(i: u16, count: u16) -> (r: Option<Fault>)
    ensures
        forall|m: MachineState| m.i == i ==> r == #[trigger] store_fault(m, count as int),
{
    if i < 80 || i > 4096 || count > 4096 - i {
        Some(Fault::MemoryAccess)
    } else {
        None
    }
}

impl Chip8 {
    /// The arrays of a machine have their fixed lengths.
    pub proof fn lemma_wf(&self)
        ensures
            self@.wf(),
    {
    }

    /// A machine that has just been switched on: the font in memory,
    /// everything else zero, and the program counter at 512.
    pub fn new() -> (chip8: Chip8)
        ensures
            chip8@ == MachineState::initial(),
    {
        let mut memory = [0u8; 4096];
        let fonts = FONTS;
        let mut a: usize = 0;
        while a < 80
            invariant
                a <= 80,
                fonts@ == FONTS@,
                forall|b: int|
                    0 <= b < 4096 ==> memory@[b] == if b < a {
                        FONTS@[b]
                    } else {
                        0u8
                    },
            decreases 80 - a,
        {
            memory[a] = fonts[a];
            a = a + 1;
        }
        let chip8 = Chip8 {
            memory,
            i: 0,
            stack: [0u16; 16],
            pc: MEMORY_START_ADDRESS,
            sp: 0,
            delay_timer: 0,
            sound_timer: 0,
            keys: [false; 16],
            v: [0u8; 16],
            screen: [false; 2048],
            fps: DEFAULT_FPS,
        };
        assert(chip8@ =~= MachineState::initial());
        chip8
    }

    /// The machine as a record of plain values, to be saved.
    pub fn snapshot(&self) -> (record: Snapshot)
        ensures
            record@ == self@,
    {
        Snapshot {
            memory: vstd::slice::slice_to_vec(self.memory.as_slice()),
            stack: vstd::slice::slice_to_vec(self.stack.as_slice()),
            v: vstd::slice::slice_to_vec(self.v.as_slice()),
            keys: vstd::slice::slice_to_vec(self.keys.as_slice()),
            screen: vstd::slice::slice_to_vec(self.screen.as_slice()),
            i: self.i,
            pc: self.pc,
            sp: self.sp,
            fps: self.fps,
            sound_timer: self.sound_timer,
            delay_timer: self.delay_timer,
        }
    }

    /// The machine that a saved record describes. A record with a list of
    /// a wrong length describes none.
    pub fn restore(record: Snapshot) -> (r: Result<Chip8, RestoreError>)
        ensures
            match r {
                Ok(chip8) => record.restored() == Ok::<MachineState, RestoreError>(chip8@),
                Err(error) => record.restored() == Err::<MachineState, RestoreError>(error),
            },
    {
        Chip8::from_deserialized_data(
            record.memory,
            record.i,
            record.stack,
            record.pc,
            record.sp,
            record.delay_timer,
            record.sound_timer,
            record.keys,
            record.v,
            record.screen,
            record.fps,
        )
    }

    /// The machine with the given contents. The lists must have the lengths
    /// of their arrays: 4096 bytes of memory, 16 stack entries, 16
    /// registers, 16 keys and 2048 cells.
    pub fn from_deserialized_data(
        memory: Vec<u8>,
        i: u16,
        stack: Vec<u16>,
        pc: u16,
        sp: u8,
        delay_timer: u8,
        sound_timer: u8,
        keys: Vec<bool>,
        v: Vec<u8>,
        screen: Vec<bool>,
        fps: u32,
    ) -> (r: Result<Chip8, RestoreError>)
        ensures
            match r {
                Ok(chip8) => length_fault(memory@, stack@, v@, screen@, keys@) is None && chip8@
                    == (MachineState {
                    memory: memory@,
                    i,
                    stack: stack@,
                    pc,
                    sp,
                    delay_timer,
                    sound_timer,
                    keys: keys@,
                    v: v@,
                    screen: screen@,
                    fps,
                }),
                Err(error) => length_fault(memory@, stack@, v@, screen@, keys@) matches Some(field)
                    && error == (RestoreError::WrongLength { field }),
            },
    {
        if memory.len() != 4096 {
            return Err(RestoreError::WrongLength { field: Field::Memory });
        }
        if stack.len() != 16 {
            return Err(RestoreError::WrongLength { field: Field::Stack });
        }
        if v.len() != 16 {
            return Err(RestoreError::WrongLength { field: Field::V });
        }
        if screen.len() != 2048 {
            return Err(RestoreError::WrongLength { field: Field::Screen });
        }
        if keys.len() != 16 {
            return Err(RestoreError::WrongLength { field: Field::Keys });
        }
        let memory_buf: [u8; 4096] = array_of(&memory, 0);
        let stack_buf: [u16; 16] = array_of(&stack, 0);
        let v_buf: [u8; 16] = array_of(&v, 0);
        let screen_buf: [bool; 2048] = array_of(&screen, false);
        let keys_buf: [bool; 16] = array_of(&keys, false);
        Ok(
            Chip8 {
                memory: memory_buf,
                stack: stack_buf,
                v: v_buf,
                keys: keys_buf,
                screen: screen_buf,
                pc,
                sp,
                delay_timer,
                sound_timer,
                i,
                fps,
            },
        )
    }

    /// Copies a program into memory from address 512 on. A program of more
    /// than 3584 bytes does not fit: it is refused and nothing changes.
    pub fn load_file(&mut self, data: &[u8]) -> (r: Result<(), LoadError>)
        ensures
            data@.len() <= 3584 ==> r is Ok && final(self)@ == loaded(old(self)@, data@),
            data@.len() > 3584 ==> r == Err::<(), LoadError>(
                LoadError::TooLarge { len: data@.len() as usize },
            ) && final(self)@ == old(self)@,
    {
        let len = data.len();
        if len > 3584 {
            return Err(LoadError::TooLarge { len });
        }
        let ghost before = self@;
        let mut k: usize = 0;
        while k < len
            invariant
                k <= len <= 3584,
                len == data@.len(),
                self@ == (MachineState { memory: self@.memory, ..before }),
                forall|a: int|
                    0 <= a < 4096 ==> self@.memory[a] == if 512 <= a < 512 + k {
                        data@[a - 512]
                    } else {
                        before.memory[a]
                    },
            decreases len - k,
        {
            self.memory[512 + k] = data[k];
            k = k + 1;
        }
        assert(self@ =~= loaded(before, data@));
        Ok(())
    }

    /// One step: fetches the instruction word at the program counter,
    /// decodes it and executes it. A random instruction draws its number
    /// here, so for such a word the new state is known up to that number.
    pub fn tick(&mut self)
        requires
            tick_fault(old(self)@) is None,
        ensures
            exists|random: u8|
                random <= random_limit(fetch_word(old(self)@)) && final(self)@ == #[trigger] ticked(
                    old(self)@,
                    random,
                ),
            random_limit(fetch_word(old(self)@)) == 0 ==> final(self)@ == ticked(old(self)@, 0),
            old(self)@.font_loaded() ==> final(self)@.font_loaded(),
    {
        let opcode = self.fetch();
        let ghost at_fetch = self@;
        self.decode(opcode);
        proof {
            let random = choose|random: u8|
                random <= random_limit(opcode) && self@ == #[trigger] decoded(
                    at_fetch,
                    opcode,
                    random,
                );
            assert(self@ == ticked(old(self)@, random));
        }
    }

    /// One step, or the reason why none can be taken; then nothing changes.
    pub fn try_tick(&mut self) -> (r: Result<(), Fault>)
        ensures
            match r {
                Ok(_) => tick_fault(old(self)@) is None && exists|random: u8|
                    random <= random_limit(fetch_word(old(self)@)) && final(self)@
                        == #[trigger] ticked(old(self)@, random),
                Err(fault) => tick_fault(old(self)@) == Some(fault) && final(self)@ == old(self)@,
            },
            old(self)@.font_loaded() ==> final(self)@.font_loaded(),
    {
        if self.pc > 4094 {
            return Err(Fault::ProgramCounter);
        }
        let opcode = self.word_at_pc();
        let ins = match Instruction::parse(opcode) {
            Some(ins) => ins,
            None => {
                return Err(Fault::UnknownOpcode { word: opcode });
            },
        };
        if let Some(fault) = self.fault_at(ins, self.pc + 2) {
            return Err(fault);
        }
        self.pc += 2;
        let random = match ins {
            Instruction::Random { x, kk } => random_up_to(kk),
            _ => 0,
        };
        self.execute(ins, random);
        assert(self@ == ticked(old(self)@, random));
        Ok(())
    }

    /// Why the next step cannot be taken, or `None` where it can.
    pub fn pending_fault(&self) -> (r: Option<Fault>)
        ensures
            r == tick_fault(self@),
    {
        if self.pc > 4094 {
            return Some(Fault::ProgramCounter);
        }
        let opcode = self.word_at_pc();
        match Instruction::parse(opcode) {
            Some(ins) => self.fault_at(ins, self.pc + 2),
            None => Some(Fault::UnknownOpcode { word: opcode }),
        }
    }

    /// Why `opcode` cannot be decoded and executed now, or `None` where it can.
    pub fn decode_check(&self, opcode: u16) -> (r: Option<Fault>)
        ensures
            r == decode_fault(self@, opcode),
    {
        match Instruction::parse(opcode) {
            Some(ins) => self.execute_check(ins),
            None => Some(Fault::UnknownOpcode { word: opcode }),
        }
    }

    /// Why `ins` cannot be executed now, or `None` where it can.
    pub fn execute_check(&self, ins: Instruction) -> (r: Option<Fault>)
        requires
            ins.wf(),
        ensures
            r == execute_fault(self@, ins),
    {
        self.fault_at(ins, self.pc)
    }

    /// Why `ins` could not be executed were the program counter at `pc`.
    fn fault_at(&self, ins: Instruction, pc: u16) -> (r: Option<Fault>)
        requires
            ins.wf(),
        ensures
            r == execute_fault(MachineState { pc, ..self@ }, ins),
    {
        match ins {
            Instruction::Return => if self.sp == 0 {
                Some(Fault::StackUnderflow)
            } else if self.sp > 16 {
                Some(Fault::StackOverflow)
            } else {
                None
            },
            Instruction::Call { addr } => if self.sp >= 16 {
                Some(Fault::StackOverflow)
            } else {
                None
            },
            Instruction::SkipIfEqualByte { x, kk } => skip_check(pc, self.v[x as usize] == kk),
            Instruction::SkipIfNotEqualByte { x, kk } => skip_check(pc, self.v[x as usize] != kk),
            Instruction::SkipIfEqual { x, y } => skip_check(
                pc,
                self.v[x as usize] == self.v[y as usize],
            ),
            Instruction::SkipIfNotEqual { x, y } => skip_check(
                pc,
                self.v[x as usize] != self.v[y as usize],
            ),
            Instruction::Draw { x, y, n } => memory_check(self.i, n as u16),
            Instruction::SkipIfKey { x } => {
                let key = self.v[x as usize];
                if key >= 16 {
                    Some(Fault::KeyIndex)
                } else {
                    skip_check(pc, self.keys[key as usize])
                }
            },
            Instruction::SkipIfNotKey { x } => {
                let key = self.v[x as usize];
                if key >= 16 {
                    Some(Fault::KeyIndex)
                } else {
                    skip_check(pc, !self.keys[key as usize])
                }
            },
            Instruction::WaitKey { x } => if pc < 2 && find_pressed(&self.keys).is_none() {
                Some(Fault::ProgramCounter)
            } else {
                None
            },
            Instruction::StoreDecimal { x } => store_check(self.i, 3),
            Instruction::StoreRegisters { x } => store_check(self.i, x as u16 + 1),
            Instruction::LoadRegisters { x } => memory_check(self.i, x as u16 + 1),
            _ => None,
        }
    }

    /// The instruction word at the program counter, high byte first.
    fn word_at_pc(&self) -> (opcode: u16)
        requires
            self@.pc <= 4094,
        ensures
            opcode == fetch_word(self@),
    {
        let higher_byte = self.memory[self.pc as usize] as u16;
        let lower_byte = self.memory[self.pc as usize + 1] as u16;
        assert(((higher_byte << 8) | lower_byte) == higher_byte * 256 + lower_byte) by (bit_vector)
            requires
                higher_byte < 256,
                lower_byte < 256,
        ;
        (higher_byte << 8) | lower_byte
    }

    /// The framebuffer: 64 x 32 cells, row after row.
    pub fn get_display(&self) -> (screen: [bool; 2048])
        ensures
            screen@ == self@.screen,
    {
        self.screen
    }

    /// Timer ticks per second that the driver is asked for.
    pub fn get_fps(&self) -> (fps: u32)
        ensures
            fps == self@.fps,
    {
        self.fps
    }

    /// One timer tick: each timer that is not 0 goes down by one. Returns
    /// whether the sound timer is still above 0 afterwards, which is when a
    /// tone should sound.
    pub fn tick_timers(&mut self) -> (sound: bool)
        ensures
            final(self)@ == timers_ticked(old(self)@),
            sound == (final(self)@.sound_timer > 0),
    {
        if self.delay_timer > 0 {
            self.delay_timer -= 1;
        }
        if self.sound_timer > 0 {
            self.sound_timer -= 1;
            if self.sound_timer > 0 {
                return true;
            }
        }
        false
    }

    /// Latches key `key` as held or released. A key that is absent or above
    /// 15 changes nothing.
    pub fn key_down(&mut self, key: Option<u8>, is_down: bool)
        ensures
            final(self)@ == key_set(old(self)@, key, is_down),
    {
        if let Some(key_index) = key {
            if key_index < 16 {
                self.keys[key_index as usize] = is_down;
            }
        }
    }

    /// Puts a return address on the call stack.
    pub fn push(&mut self, instruction: u16)
        requires
            old(self)@.sp < 16,
        ensures
            final(self)@ == (MachineState {
                stack: old(self)@.stack.update(old(self)@.sp as int, instruction),
                sp: (old(self)@.sp + 1) as u8,
                ..old(self)@
            }),
    {
        self.stack[self.sp as usize] = instruction;
        self.sp += 1;
    }

    /// Takes the last return address off the call stack.
    pub fn pop(&mut self) -> (address: u16)
        requires
            1 <= old(self)@.sp <= 16,
        ensures
            address == old(self)@.stack[old(self)@.sp - 1],
            final(self)@ == (MachineState { sp: (old(self)@.sp - 1) as u8, ..old(self)@ }),
    {
        self.sp -= 1;
        self.stack[self.sp as usize]
    }

    /// Reads the instruction word at the program counter, high byte first,
    /// and moves the program counter past it.
    pub fn fetch(&mut self) -> (opcode: u16)
        requires
            old(self)@.pc <= 4094,
        ensures
            opcode == fetch_word(old(self)@),
            final(self)@ == fetched(old(self)@),
    {
        let opcode = self.word_at_pc();
        self.pc += 2;
        opcode
    }

    /// Decodes `opcode` and executes it. A random instruction draws its
    /// number here, so for such a word the new state is known up to that
    /// number.
    pub fn decode(&mut self, opcode: u16)
        requires
            decode_fault(old(self)@, opcode) is None,
        ensures
            exists|random: u8|
                random <= random_limit(opcode) && final(self)@ == #[trigger] decoded(
                    old(self)@,
                    opcode,
                    random,
                ),
            random_limit(opcode) == 0 ==> final(self)@ == decoded(old(self)@, opcode, 0),
            old(self)@.font_loaded() ==> final(self)@.font_loaded(),
    {
        match Instruction::parse(opcode) {
            Some(Instruction::Random { x, kk }) => {
                let random = random_up_to(kk);
                self.execute(Instruction::Random { x, kk }, random);
                assert(self@ == decoded(old(self)@, opcode, random));
            },
            Some(ins) => {
                self.execute(ins, 0);
                assert(self@ == decoded(old(self)@, opcode, 0));
            },
            None => {},
        }
    }

    /// Decodes `opcode` and executes it, with `random` as the number drawn
    /// should the instruction ask for one.
    pub fn decode_with(&mut self, opcode: u16, random: u8)
        requires
            decode_fault(old(self)@, opcode) is None,
        ensures
            final(self)@ == decoded(old(self)@, opcode, random),
            old(self)@.font_loaded() ==> final(self)@.font_loaded(),
    {
        match Instruction::parse(opcode) {
            Some(ins) => self.execute(ins, random),
            None => {},
        }
    }

    /// The value of register `x`.
    fn reg(&self, x: u8) -> (value: u8)
        requires
            x < 16,
        ensures
            value == self@.reg(x),
    {
        self.v[x as usize]
    }

    /// Sets register `x`.
    fn set_reg(&mut self, x: u8, value: u8)
        requires
            x < 16,
        ensures
            final(self)@ == old(self)@.with_register(x, value),
    {
        self.v[x as usize] = value;
        assert(self@ =~= old(self)@.with_register(x, value));
    }

    /// Moves the program counter past the next instruction if `taken`.
    fn skip_if(&mut self, taken: bool)
        requires
            skip_fault(old(self)@, taken) is None,
        ensures
            final(self)@ == old(self)@.skip_if(taken),
    {
        if taken {
            self.pc += 2;
        }
    }

    /// Writes the three decimal digits of `value` to memory at `I`.
    fn store_decimal(&mut self, value: u8)
        requires
            old(self)@.i + 3 <= 4096,
        ensures
            final(self)@ == (MachineState {
                memory: old(self)@.memory.update(old(self)@.i as int, value / 100).update(
                    old(self)@.i + 1,
                    (value / 10) % 10,
                ).update(old(self)@.i + 2, value % 10),
                ..old(self)@
            }),
    {
        let hundreds = value / 100;
        let tens = (value / 10) % 10;
        let ones = value % 10;
        self.memory[self.i as usize] = hundreds;
        self.memory[self.i as usize + 1] = tens;
        self.memory[self.i as usize + 2] = ones;
        assert(self@ =~= (MachineState {
            memory: old(self)@.memory.update(old(self)@.i as int, value / 100).update(
                old(self)@.i + 1,
                (value / 10) % 10,
            ).update(old(self)@.i + 2, value % 10),
            ..old(self)@
        }));
    }

    /// Draws the `n`-row sprite at `I` at column `vx`, row `vy`, and sets
    /// `VF` to 1 if a lit cell went off, else to 0.
    fn draw(&mut self, vx: u8, vy: u8, n: u8)
        requires
            n < 16,
            memory_fault(old(self)@, n as int) is None,
        ensures
            final(self)@ == (MachineState {
                screen: drawn(
                    old(self)@.screen,
                    sprite_rows(old(self)@.memory, old(self)@.i as int, n as int),
                    vx,
                    vy,
                ),
                ..old(self)@
            }).with_flag(
                if collides(
                    old(self)@.screen,
                    sprite_rows(old(self)@.memory, old(self)@.i as int, n as int),
                    vx,
                    vy,
                ) {
                    1
                } else {
                    0
                },
            ),
    {
        let flipped = draw_sprite(&mut self.screen, &self.memory, self.i, n, vx, vy);
        if flipped {
            self.v[0xF] = 1;
        } else {
            self.v[0xF] = 0;
        }
        assert(self@ =~= (MachineState {
            screen: drawn(
                old(self)@.screen,
                sprite_rows(old(self)@.memory, old(self)@.i as int, n as int),
                vx,
                vy,
            ),
            ..old(self)@
        }).with_flag(
            if flipped {
                1
            } else {
                0
            },
        ));
    }

    /// `Vx = Vx + Vy` modulo 256, with the carry in `VF`.
    fn add_carry(&mut self, x: u8, y: u8)
        requires
            x < 16,
            y < 16,
        ensures
            final(self)@ == execute(old(self)@, Instruction::AddCarry { x, y }, 0),
    {
        let vx = self.reg(x);
        let vy = self.reg(y);
        let overflow = vx as u16 + vy as u16 > 255;
        self.set_reg(x, vx.wrapping_add(vy));
        self.set_reg(
            0xF,
            if overflow {
                1
            } else {
                0
            },
        );
    }

    /// `Vx = minuend - subtrahend` modulo 256, with `VF` 0 on a borrow and
    /// 1 otherwise.
    fn subtract(&mut self, x: u8, minuend: u8, subtrahend: u8)
        requires
            x < 16,
        ensures
            final(self)@ == old(self)@.with_register(
                x,
                ((minuend - subtrahend) % 256) as u8,
            ).with_flag(
                if minuend - subtrahend < 0 {
                    0
                } else {
                    1
                },
            ),
    {
        let borrow = minuend < subtrahend;
        self.set_reg(x, minuend.wrapping_sub(subtrahend));
        self.set_reg(
            0xF,
            if borrow {
                0
            } else {
                1
            },
        );
    }

    /// `Vx = Vx >> 1`, with the bit that left in `VF`.
    fn shift_right(&mut self, x: u8)
        requires
            x < 16,
        ensures
            final(self)@ == execute(old(self)@, Instruction::ShiftRight { x }, 0),
    {
        let vx = self.reg(x);
        let shifted_bit = vx & 1;
        assert(vx & 1 == vx % 2 && vx >> 1 == vx / 2) by (bit_vector);
        self.set_reg(x, vx >> 1);
        self.set_reg(0xF, shifted_bit);
    }

    /// `Vx = Vx << 1` in eight bits, with the bit that left in `VF`.
    fn shift_left(&mut self, x: u8)
        requires
            x < 16,
        ensures
            final(self)@ == execute(old(self)@, Instruction::ShiftLeft { x }, 0),
    {
        let vx = self.reg(x);
        let shifted_bit = (vx >> 7) & 0x1;
        assert((vx >> 7) & 0x1 == vx / 128 && vx << 1 == ((vx * 2) % 256) as u8) by (bit_vector);
        self.set_reg(x, vx << 1);
        self.set_reg(0xF, shifted_bit);
    }

    /// `I = I + Vx` modulo 65536; `VF = 1` if the sum left 16 bits.
    fn add_index(&mut self, x: u8)
        requires
            x < 16,
        ensures
            final(self)@ == execute(old(self)@, Instruction::AddIndex { x }, 0),
    {
        let vx = self.reg(x) as u16;
        let overflow = self.i > 0xFFFF - vx;
        self.i = self.i.wrapping_add(vx);
        if overflow {
            self.set_reg(0xF, 1);
        }
    }

    /// Puts the lowest held key in `Vx`, or, with no key held, moves the
    /// program counter back onto this instruction.
    fn wait_key(&mut self, x: u8)
        requires
            x < 16,
            execute_fault(old(self)@, Instruction::WaitKey { x }) is None,
        ensures
            final(self)@ == execute(old(self)@, Instruction::WaitKey { x }, 0),
    {
        match find_pressed(&self.keys) {
            Some(key) => {
                self.set_reg(x, key);
            },
            None => {
                self.pc -= 2;
            },
        }
    }

    /// Executes one instruction, with `random` as the number drawn should
    /// the instruction ask for one.
    pub fn execute(&mut self, ins: Instruction, random: u8)
        requires
            ins.wf(),
            execute_fault(old(self)@, ins) is None,
        ensures
            final(self)@ == execute(old(self)@, ins, random),
            old(self)@.font_loaded() ==> final(self)@.font_loaded(),
    {
        proof {
            self.lemma_wf();
            if self@.font_loaded() {
                lemma_font_preserved(self@, ins, random);
            }
        }
        match ins {
            Instruction::Nop => {},
            Instruction::ClearScreen => {
                self.screen = [false; 2048];
                assert(self@ =~= execute(old(self)@, ins, random));
            },
            Instruction::Return => {
                let address = self.pop();
                self.pc = address;
            },
            Instruction::Jump { addr } => {
                self.pc = addr;
            },
            Instruction::Call { addr } => {
                self.push(self.pc);
                self.pc = addr;
            },
            Instruction::SkipIfEqualByte { x, kk } => {
                self.skip_if(self.reg(x) == kk);
            },
            Instruction::SkipIfNotEqualByte { x, kk } => {
                self.skip_if(self.reg(x) != kk);
            },
            Instruction::SkipIfEqual { x, y } => {
                self.skip_if(self.reg(x) == self.reg(y));
            },
            Instruction::LoadByte { x, kk } => {
                self.set_reg(x, kk);
            },
            Instruction::AddByte { x, kk } => {
                self.set_reg(x, self.reg(x).wrapping_add(kk));
            },
            Instruction::Move { x, y } => {
                self.set_reg(x, self.reg(y));
            },
            Instruction::Or { x, y } => {
                self.set_reg(x, self.reg(x) | self.reg(y));
            },
            Instruction::And { x, y } => {
                self.set_reg(x, self.reg(x) & self.reg(y));
            },
            Instruction::Xor { x, y } => {
                self.set_reg(x, self.reg(x) ^ self.reg(y));
            },
            Instruction::AddCarry { x, y } => {
                self.add_carry(x, y);
            },
            Instruction::SubBorrow { x, y } => {
                self.subtract(x, self.reg(x), self.reg(y));
            },
            Instruction::ShiftRight { x } => {
                self.shift_right(x);
            },
            Instruction::SubFrom { x, y } => {
                self.subtract(x, self.reg(y), self.reg(x));
            },
            Instruction::ShiftLeft { x } => {
                self.shift_left(x);
            },
            Instruction::SkipIfNotEqual { x, y } => {
                self.skip_if(self.reg(x) != self.reg(y));
            },
            Instruction::LoadIndex { addr } => {
                self.i = addr;
            },
            Instruction::JumpOffset { addr } => {
                self.pc = (self.reg(0) as u16) + addr;
            },
            Instruction::Random { x, kk } => {
                self.set_reg(x, random & kk);
            },
            Instruction::Draw { x, y, n } => {
                let vx = self.reg(x);
                let vy = self.reg(y);
                self.draw(vx, vy, n);
            },
            Instruction::SkipIfKey { x } => {
                let key_index = self.reg(x);
                let is_pressed = self.keys[key_index as usize];
                self.skip_if(is_pressed);
            },
            Instruction::SkipIfNotKey { x } => {
                let key_index = self.reg(x);
                let is_pressed = self.keys[key_index as usize];
                self.skip_if(!is_pressed);
            },
            Instruction::ReadDelay { x } => {
                self.set_reg(x, self.delay_timer);
            },
            Instruction::WaitKey { x } => {
                self.wait_key(x);
            },
            Instruction::SetDelay { x } => {
                self.delay_timer = self.reg(x);
            },
            Instruction::SetSound { x } => {
                self.sound_timer = self.reg(x);
            },
            Instruction::AddIndex { x } => {
                self.add_index(x);
            },
            Instruction::FontAddress { x } => {
                self.i = (self.reg(x) as u16) * 5;
            },
            Instruction::StoreDecimal { x } => {
                self.store_decimal(self.reg(x));
            },
            Instruction::StoreRegisters { x } => {
                store_registers(&mut self.memory, &self.v, self.i, x);
                assert(self@ =~= execute(old(self)@, ins, random));
            },
            Instruction::LoadRegisters { x } => {
                load_registers(&mut self.v, &self.memory, self.i, x);
                assert(self@ =~= execute(old(self)@, ins, random));
            },
        }
    }
}

} // verus!
