//! Saved machines: the record that a machine is written to and read from,
//! and the gathering of such a record field by field.

use vstd::prelude::*;
use vstd::string::*;
use crate::chip8::Chip8;
use crate::fault::RestoreError;
use crate::field::{field_named, Field, FieldKind};
use crate::machine::MachineState;

verus! {

/// The whole state of a machine as plain values, one per named field.
#[derive(Clone, Debug, PartialEq, Eq)]
pub struct Snapshot {
    pub memory: Vec<u8>,
    pub stack: Vec<u16>,
    pub v: Vec<u8>,
    pub keys: Vec<bool>,
    pub screen: Vec<bool>,
    pub i: u16,
    pub pc: u16,
    pub sp: u8,
    pub fps: u32,
    pub sound_timer: u8,
    pub delay_timer: u8,
}

impl View for Snapshot {
    type V = MachineState;

    open spec fn view(&self) -> MachineState {
        MachineState {
            memory: self.memory@,
            i: self.i,
            stack: self.stack@,
            pc: self.pc,
            sp: self.sp,
            delay_timer: self.delay_timer,
            sound_timer: self.sound_timer,
            keys: self.keys@,
            v: self.v@,
            screen: self.screen@,
            fps: self.fps,
        }
    }
}

/// The first list whose length is not that of its field, if there is one.
pub open spec fn length_fault(
    memory: Seq<u8>,
    stack: Seq<u16>,
    v: Seq<u8>,
    screen: Seq<bool>,
    keys: Seq<bool>,
) -> Option<Field> {
    if memory.len() != 4096 {
        Some(Field::Memory)
    } else if stack.len() != 16 {
        Some(Field::Stack)
    } else if v.len() != 16 {
        Some(Field::V)
    } else if screen.len() != 2048 {
        Some(Field::Screen)
    } else if keys.len() != 16 {
        Some(Field::Keys)
    } else {
        None
    }
}

/// What a value of a saved record holds, as mathematics.
pub enum FieldContent {
    Bytes(Seq<u8>),
    Words(Seq<u16>),
    Flags(Seq<bool>),
    Byte(u8),
    Word(u16),
    Long(u32),
}

impl Snapshot {
    /// What the record holds for `field`.
    pub open spec fn content_of(self, field: Field) -> FieldContent {
        match field {
            Field::Memory => FieldContent::Bytes(self.memory@),
            Field::Stack => FieldContent::Words(self.stack@),
            Field::V => FieldContent::Bytes(self.v@),
            Field::Keys => FieldContent::Flags(self.keys@),
            Field::Screen => FieldContent::Flags(self.screen@),
            Field::I => FieldContent::Word(self.i),
            Field::Pc => FieldContent::Word(self.pc),
            Field::Sp => FieldContent::Byte(self.sp),
            Field::Fps => FieldContent::Long(self.fps),
            Field::SoundTimer => FieldContent::Byte(self.sound_timer),
            Field::DelayTimer => FieldContent::Byte(self.delay_timer),
        }
    }

    /// The value that the record holds for `field`, to be written under the
    /// field's name.
    pub fn value(&self, field: Field) -> (value: FieldValue)
        ensures
            value@ == self.content_of(field),
            value.kind_of() == field.kind_of(),
    {
        match field {
            Field::Memory => FieldValue::Bytes(self.memory.clone()),
            Field::Stack => FieldValue::Words(self.stack.clone()),
            Field::V => FieldValue::Bytes(self.v.clone()),
            Field::Keys => FieldValue::Flags(self.keys.clone()),
            Field::Screen => FieldValue::Flags(self.screen.clone()),
            Field::I => FieldValue::Word(self.i),
            Field::Pc => FieldValue::Word(self.pc),
            Field::Sp => FieldValue::Byte(self.sp),
            Field::Fps => FieldValue::Long(self.fps),
            Field::SoundTimer => FieldValue::Byte(self.sound_timer),
            Field::DelayTimer => FieldValue::Byte(self.delay_timer),
        }
    }

    /// What restoring the record gives: the machine it describes, or the
    /// first list of a wrong length.
    pub open spec fn restored(self) -> Result<MachineState, RestoreError> {
        match length_fault(self.memory@, self.stack@, self.v@, self.screen@, self.keys@) {
            Some(field) => Err(RestoreError::WrongLength { field }),
            None => Ok(self@),
        }
    }
}

/// One value of a saved record.
#[derive(Clone, Debug, PartialEq, Eq)]
pub enum FieldValue {
    Bytes(Vec<u8>),
    Words(Vec<u16>),
    Flags(Vec<bool>),
    Byte(u8),
    Word(u16),
    Long(u32),
}

impl View for FieldValue {
    type V = FieldContent;

    open spec fn view(&self) -> FieldContent {
        match self {
            FieldValue::Bytes(bytes) => FieldContent::Bytes(bytes@),
            FieldValue::Words(words) => FieldContent::Words(words@),
            FieldValue::Flags(flags) => FieldContent::Flags(flags@),
            FieldValue::Byte(byte) => FieldContent::Byte(*byte),
            FieldValue::Word(word) => FieldContent::Word(*word),
            FieldValue::Long(long) => FieldContent::Long(*long),
        }
    }
}

impl FieldValue {
    /// The kind of the value.
    pub open spec fn kind_of(self) -> FieldKind {
        match self {
            FieldValue::Bytes(_) => FieldKind::Bytes,
            FieldValue::Words(_) => FieldKind::Words,
            FieldValue::Flags(_) => FieldKind::Flags,
            FieldValue::Byte(_) => FieldKind::Byte,
            FieldValue::Word(_) => FieldKind::Word,
            FieldValue::Long(_) => FieldKind::Long,
        }
    }
}

/// A saved record while it is being read: each field is there or not yet.
#[derive(Clone, Debug, PartialEq, Eq)]
pub struct PartialState {
    pub memory: Option<Vec<u8>>,
    pub stack: Option<Vec<u16>>,
    pub v: Option<Vec<u8>>,
    pub keys: Option<Vec<bool>>,
    pub screen: Option<Vec<bool>>,
    pub i: Option<u16>,
    pub pc: Option<u16>,
    pub sp: Option<u8>,
    pub fps: Option<u32>,
    pub sound_timer: Option<u8>,
    pub delay_timer: Option<u8>,
}

impl PartialState {
    /// Whether the field has been read.
    pub open spec fn has(self, field: Field) -> bool {
        match field {
            Field::Memory => self.memory is Some,
            Field::Stack => self.stack is Some,
            Field::V => self.v is Some,
            Field::Keys => self.keys is Some,
            Field::Screen => self.screen is Some,
            Field::I => self.i is Some,
            Field::Pc => self.pc is Some,
            Field::Sp => self.sp is Some,
            Field::Fps => self.fps is Some,
            Field::SoundTimer => self.sound_timer is Some,
            Field::DelayTimer => self.delay_timer is Some,
        }
    }

    /// The first field, in the order of the record, that has not been read.
    pub open spec fn first_missing(self) -> Option<Field> {
        if self.memory is None {
            Some(Field::Memory)
        } else if self.stack is None {
            Some(Field::Stack)
        } else if self.v is None {
            Some(Field::V)
        } else if self.keys is None {
            Some(Field::Keys)
        } else if self.screen is None {
            Some(Field::Screen)
        } else if self.i is None {
            Some(Field::I)
        } else if self.pc is None {
            Some(Field::Pc)
        } else if self.sp is None {
            Some(Field::Sp)
        } else if self.fps is None {
            Some(Field::Fps)
        } else if self.sound_timer is None {
            Some(Field::SoundTimer)
        } else if self.delay_timer is None {
            Some(Field::DelayTimer)
        } else {
            None
        }
    }

    /// The record with `value` read for `field`. The value is of the
    /// field's kind.
    pub open spec fn with(self, field: Field, value: FieldValue) -> PartialState {
        match (field, value) {
            (Field::Memory, FieldValue::Bytes(bytes)) => PartialState {
                memory: Some(bytes),
                ..self
            },
            (Field::Stack, FieldValue::Words(words)) => PartialState {
                stack: Some(words),
                ..self
            },
            (Field::V, FieldValue::Bytes(bytes)) => PartialState { v: Some(bytes), ..self },
            (Field::Keys, FieldValue::Flags(flags)) => PartialState { keys: Some(flags), ..self },
            (Field::Screen, FieldValue::Flags(flags)) => PartialState {
                screen: Some(flags),
                ..self
            },
            (Field::I, FieldValue::Word(word)) => PartialState { i: Some(word), ..self },
            (Field::Pc, FieldValue::Word(word)) => PartialState { pc: Some(word), ..self },
            (Field::Sp, FieldValue::Byte(byte)) => PartialState { sp: Some(byte), ..self },
            (Field::Fps, FieldValue::Long(long)) => PartialState { fps: Some(long), ..self },
            (Field::SoundTimer, FieldValue::Byte(byte)) => PartialState {
                sound_timer: Some(byte),
                ..self
            },
            (Field::DelayTimer, FieldValue::Byte(byte)) => PartialState {
                delay_timer: Some(byte),
                ..self
            },
            _ => self,
        }
    }

    /// The record that all the fields make up, once none is missing.
    pub open spec fn gathered(self) -> Snapshot {
        Snapshot {
            memory: self.memory->0,
            stack: self.stack->0,
            v: self.v->0,
            keys: self.keys->0,
            screen: self.screen->0,
            i: self.i->0,
            pc: self.pc->0,
            sp: self.sp->0,
            fps: self.fps->0,
            sound_timer: self.sound_timer->0,
            delay_timer: self.delay_timer->0,
        }
    }

    /// What a field name met in a record leads to: the field to read next,
    /// or the refusal of a name that is unknown or has come before.
    pub open spec fn accepted(self, name: Seq<u8>) -> Result<Field, RestoreError> {
        match field_named(name) {
            None => Err(RestoreError::UnknownField),
            Some(field) => if self.has(field) {
                Err(RestoreError::DuplicateField { field })
            } else {
                Ok(field)
            },
        }
    }

    /// What the record gives once its last field has been read: the first
    /// missing field, or else the first list of a wrong length, or else the
    /// machine.
    pub open spec fn finished(self) -> Result<MachineState, RestoreError> {
        match self.first_missing() {
            Some(field) => Err(RestoreError::MissingField { field }),
            None => self.gathered().restored(),
        }
    }

    /// A record of which nothing has been read.
    pub fn new() -> (partial: PartialState)
        ensures
            forall|field: Field| !partial.has(field),
            partial.first_missing() == Some(Field::Memory),
    {
        PartialState {
            memory: None,
            stack: None,
            v: None,
            keys: None,
            screen: None,
            i: None,
            pc: None,
            sp: None,
            fps: None,
            sound_timer: None,
            delay_timer: None,
        }
    }

    /// Whether the field has been read.
    pub fn contains(&self, field: Field) -> (present: bool)
        ensures
            present == self.has(field),
    {
        match field {
            Field::Memory => self.memory.is_some(),
            Field::Stack => self.stack.is_some(),
            Field::V => self.v.is_some(),
            Field::Keys => self.keys.is_some(),
            Field::Screen => self.screen.is_some(),
            Field::I => self.i.is_some(),
            Field::Pc => self.pc.is_some(),
            Field::Sp => self.sp.is_some(),
            Field::Fps => self.fps.is_some(),
            Field::SoundTimer => self.sound_timer.is_some(),
            Field::DelayTimer => self.delay_timer.is_some(),
        }
    }

    /// Takes the next field name of a record: gives the field whose value
    /// is to be read, or refuses a name that no field has or that has come
    /// before.
    pub fn accept_name(&self, name: &str) -> (r: Result<Field, RestoreError>)
        ensures
            r == self.accepted(name.spec_bytes()),
    {
        match Field::from_name(name) {
            None => Err(RestoreError::UnknownField),
            Some(field) => if self.contains(field) {
                Err(RestoreError::DuplicateField { field })
            } else {
                Ok(field)
            },
        }
    }

    /// Puts the value read for a field into the record. A field that is
    /// there already, or a value of another kind, is refused and the record
    /// stays as it was.
    pub fn set(&mut self, field: Field, value: FieldValue) -> (r: Result<(), RestoreError>)
        ensures
            old(self).has(field) ==> r == Err::<(), RestoreError>(
                RestoreError::DuplicateField { field },
            ) && *final(self) == *old(self),
            !old(self).has(field) && value.kind_of() != field.kind_of() ==> r == Err::<
                (),
                RestoreError,
            >(RestoreError::WrongKind { field }) && *final(self) == *old(self),
            !old(self).has(field) && value.kind_of() == field.kind_of() ==> r is Ok && *final(self)
                == old(self).with(field, value) && final(self).has(field) && (forall|other: Field|
                other != field ==> final(self).has(other) == old(self).has(other)),
    {
        if self.contains(field) {
            return Err(RestoreError::DuplicateField { field });
        }
        match (field, value) {
            (Field::Memory, FieldValue::Bytes(bytes)) => {
                self.memory = Some(bytes);
            },
            (Field::Stack, FieldValue::Words(words)) => {
                self.stack = Some(words);
            },
            (Field::V, FieldValue::Bytes(bytes)) => {
                self.v = Some(bytes);
            },
            (Field::Keys, FieldValue::Flags(flags)) => {
                self.keys = Some(flags);
            },
            (Field::Screen, FieldValue::Flags(flags)) => {
                self.screen = Some(flags);
            },
            (Field::I, FieldValue::Word(word)) => {
                self.i = Some(word);
            },
            (Field::Pc, FieldValue::Word(word)) => {
                self.pc = Some(word);
            },
            (Field::Sp, FieldValue::Byte(byte)) => {
                self.sp = Some(byte);
            },
            (Field::Fps, FieldValue::Long(long)) => {
                self.fps = Some(long);
            },
            (Field::SoundTimer, FieldValue::Byte(byte)) => {
                self.sound_timer = Some(byte);
            },
            (Field::DelayTimer, FieldValue::Byte(byte)) => {
                self.delay_timer = Some(byte);
            },
            _ => {
                return Err(RestoreError::WrongKind { field });
            },
        }
        Ok(())
    }

    /// Ends the reading of a record and makes the machine. A record with a
    /// field missing, or with a list of a wrong length, gives no machine.
    pub fn finish(self) -> (r: Result<Chip8, RestoreError>)
        ensures
            match r {
                Ok(chip8) => self.finished() == Ok::<MachineState, RestoreError>(chip8@),
                Err(error) => self.finished() == Err::<MachineState, RestoreError>(error),
            },
    {
        let memory = match self.memory {
            Some(memory) => memory,
            None => {
                return Err(RestoreError::MissingField { field: Field::Memory });
            },
        };
        let stack = match self.stack {
            Some(stack) => stack,
            None => {
                return Err(RestoreError::MissingField { field: Field::Stack });
            },
        };
        let v = match self.v {
            Some(v) => v,
            None => {
                return Err(RestoreError::MissingField { field: Field::V });
            },
        };
        let keys = match self.keys {
            Some(keys) => keys,
            None => {
                return Err(RestoreError::MissingField { field: Field::Keys });
            },
        };
        let screen = match self.screen {
            Some(screen) => screen,
            None => {
                return Err(RestoreError::MissingField { field: Field::Screen });
            },
        };
        let i = match self.i {
            Some(i) => i,
            None => {
                return Err(RestoreError::MissingField { field: Field::I });
            },
        };
        let pc = match self.pc {
            Some(pc) => pc,
            None => {
                return Err(RestoreError::MissingField { field: Field::Pc });
            },
        };
        let sp = match self.sp {
            Some(sp) => sp,
            None => {
                return Err(RestoreError::MissingField { field: Field::Sp });
            },
        };
        let fps = match self.fps {
            Some(fps) => fps,
            None => {
                return Err(RestoreError::MissingField { field: Field::Fps });
            },
        };
        let sound_timer = match self.sound_timer {
            Some(sound_timer) => sound_timer,
            None => {
                return Err(RestoreError::MissingField { field: Field::SoundTimer });
            },
        };
        let delay_timer = match self.delay_timer {
            Some(delay_timer) => delay_timer,
            None => {
                return Err(RestoreError::MissingField { field: Field::DelayTimer });
            },
        };
        Chip8::from_deserialized_data(
            memory,
            i,
            stack,
            pc,
            sp,
            delay_timer,
            sound_timer,
            keys,
            v,
            screen,
            fps,
        )
    }
}

} // verus!
