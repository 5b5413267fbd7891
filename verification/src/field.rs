//! The named fields of a saved machine.

use vstd::prelude::*;
use vstd::string::*;

verus! {

/// A field of the saved record, in the order in which the record is written.
#[derive(Clone, Copy, Debug, PartialEq, Eq, Structural)]
pub enum Field {
    Memory,
    Stack,
    V,
    Keys,
    Screen,
    I,
    Pc,
    Sp,
    Fps,
    SoundTimer,
    DelayTimer,
}

/// What kind of value a field holds.
#[derive(Clone, Copy, Debug, PartialEq, Eq, Structural)]
pub enum FieldKind {
    /// A list of 8-bit numbers.
    Bytes,
    /// A list of 16-bit numbers.
    Words,
    /// A list of booleans.
    Flags,
    /// One 8-bit number.
    Byte,
    /// One 16-bit number.
    Word,
    /// One 32-bit number.
    Long,
}

/// The field names that a reader of saved records expects, as it lists them
/// when it meets a name it does not know.
pub const FIELDS: [&'static str; 11] = [
    "memory",
    "stack",
    "v",
    "screen",
    "keys",
    "i",
    "pc",
    "sp",
    "sound_timer",
    "delay_timer",
    "fps",
];

/// The fields in the order in which a record is written.
pub const RECORD_ORDER: [Field; 11] = [
    Field::Memory,
    Field::Stack,
    Field::V,
    Field::Keys,
    Field::Screen,
    Field::I,
    Field::Pc,
    Field::Sp,
    Field::Fps,
    Field::SoundTimer,
    Field::DelayTimer,
];

/// The name of a field, as the bytes of its text.
pub open spec fn name_bytes(field: Field) -> Seq<u8> {
    match field {
        Field::Memory => seq!['m' as u8, 'e' as u8, 'm' as u8, 'o' as u8, 'r' as u8, 'y' as u8],
        Field::Stack => seq!['s' as u8, 't' as u8, 'a' as u8, 'c' as u8, 'k' as u8],
        Field::V => seq!['v' as u8],
        Field::Keys => seq!['k' as u8, 'e' as u8, 'y' as u8, 's' as u8],
        Field::Screen => seq!['s' as u8, 'c' as u8, 'r' as u8, 'e' as u8, 'e' as u8, 'n' as u8],
        Field::I => seq!['i' as u8],
        Field::Pc => seq!['p' as u8, 'c' as u8],
        Field::Sp => seq!['s' as u8, 'p' as u8],
        Field::Fps => seq!['f' as u8, 'p' as u8, 's' as u8],
        Field::SoundTimer => seq![
            's' as u8,
            'o' as u8,
            'u' as u8,
            'n' as u8,
            'd' as u8,
            '_' as u8,
            't' as u8,
            'i' as u8,
            'm' as u8,
            'e' as u8,
            'r' as u8,
        ],
        Field::DelayTimer => seq![
            'd' as u8,
            'e' as u8,
            'l' as u8,
            'a' as u8,
            'y' as u8,
            '_' as u8,
            't' as u8,
            'i' as u8,
            'm' as u8,
            'e' as u8,
            'r' as u8,
        ],
    }
}

/// The field that a name stands for, or `None` for a name of no field.
pub open spec fn field_named(name: Seq<u8>) -> Option<Field> {
    if name == name_bytes(Field::Memory) {
        Some(Field::Memory)
    } else if name == name_bytes(Field::Stack) {
        Some(Field::Stack)
    } else if name == name_bytes(Field::V) {
        Some(Field::V)
    } else if name == name_bytes(Field::Keys) {
        Some(Field::Keys)
    } else if name == name_bytes(Field::Screen) {
        Some(Field::Screen)
    } else if name == name_bytes(Field::I) {
        Some(Field::I)
    } else if name == name_bytes(Field::Pc) {
        Some(Field::Pc)
    } else if name == name_bytes(Field::Sp) {
        Some(Field::Sp)
    } else if name == name_bytes(Field::Fps) {
        Some(Field::Fps)
    } else if name == name_bytes(Field::SoundTimer) {
        Some(Field::SoundTimer)
    } else if name == name_bytes(Field::DelayTimer) {
        Some(Field::DelayTimer)
    } else {
        None
    }
}

/// No two fields share a name: the name of a field stands for that field.
pub proof fn lemma_names_distinct(field: Field)
    ensures
        field_named(name_bytes(field)) == Some(field),
{
    let name = name_bytes(field);
    assert(name_bytes(Field::Memory)[0] == 'm' as u8);
    assert(name_bytes(Field::Stack)[1] == 't' as u8);
    assert(name_bytes(Field::V)[0] == 'v' as u8);
    assert(name_bytes(Field::Keys)[0] == 'k' as u8);
    assert(name_bytes(Field::Screen)[1] == 'c' as u8);
    assert(name_bytes(Field::I)[0] == 'i' as u8);
    assert(name_bytes(Field::Pc)[0] == 'p' as u8);
    assert(name_bytes(Field::Sp)[1] == 'p' as u8);
    assert(name_bytes(Field::Fps)[0] == 'f' as u8);
    assert(name_bytes(Field::SoundTimer)[1] == 'o' as u8);
    assert(name_bytes(Field::DelayTimer)[0] == 'd' as u8);
    assert(name_bytes(Field::Memory).len() == 6);
    assert(name_bytes(Field::Stack).len() == 5);
    assert(name_bytes(Field::V).len() == 1);
    assert(name_bytes(Field::Keys).len() == 4);
    assert(name_bytes(Field::Screen).len() == 6);
    assert(name_bytes(Field::I).len() == 1);
    assert(name_bytes(Field::Pc).len() == 2);
    assert(name_bytes(Field::Sp).len() == 2);
    assert(name_bytes(Field::Fps).len() == 3);
    assert(name_bytes(Field::SoundTimer).len() == 11);
    assert(name_bytes(Field::DelayTimer).len() == 11);
}

/// Whether two runs of bytes are the same.
fn same_bytes(a: &[u8], b: &[u8]) -> (r: bool)
    ensures
        r == (a@ == b@),
{
    if a.len() != b.len() {
        return false;
    }
    let mut k: usize = 0;
    while k < a.len()
        invariant
            k <= a.len(),
            a.len() == b.len(),
            forall|j: int| 0 <= j < k ==> a@[j] == b@[j],
        decreases a.len() - k,
    {
        if a[k] != b[k] {
            return false;
        }
        k = k + 1;
    }
    assert(a@ =~= b@);
    true
}

impl Field {
    /// The kind of value that the field holds.
    pub open spec fn kind_of(self) -> FieldKind {
        match self {
            Field::Memory | Field::V => FieldKind::Bytes,
            Field::Stack => FieldKind::Words,
            Field::Keys | Field::Screen => FieldKind::Flags,
            Field::Sp | Field::SoundTimer | Field::DelayTimer => FieldKind::Byte,
            Field::I | Field::Pc => FieldKind::Word,
            Field::Fps => FieldKind::Long,
        }
    }

    /// The kind of value that the field holds.
    pub fn kind(self) -> (kind: FieldKind)
        ensures
            kind == self.kind_of(),
    {
        match self {
            Field::Memory | Field::V => FieldKind::Bytes,
            Field::Stack => FieldKind::Words,
            Field::Keys | Field::Screen => FieldKind::Flags,
            Field::Sp | Field::SoundTimer | Field::DelayTimer => FieldKind::Byte,
            Field::I | Field::Pc => FieldKind::Word,
            Field::Fps => FieldKind::Long,
        }
    }

    /// The name under which the field is saved.
    pub fn name(self) -> (name: &'static str)
        ensures
            name.spec_bytes() == name_bytes(self),
    {
        let name = match self {
            Field::Memory => "memory",
            Field::Stack => "stack",
            Field::V => "v",
            Field::Keys => "keys",
            Field::Screen => "screen",
            Field::I => "i",
            Field::Pc => "pc",
            Field::Sp => "sp",
            Field::Fps => "fps",
            Field::SoundTimer => "sound_timer",
            Field::DelayTimer => "delay_timer",
        };
        proof {
            reveal_strlit("memory");
            reveal_strlit("stack");
            reveal_strlit("v");
            reveal_strlit("keys");
            reveal_strlit("screen");
            reveal_strlit("i");
            reveal_strlit("pc");
            reveal_strlit("sp");
            reveal_strlit("fps");
            reveal_strlit("sound_timer");
            reveal_strlit("delay_timer");
            assert(is_ascii(name));
            assert(name.spec_bytes() =~= name_bytes(self));
        }
        name
    }

    /// The field saved under `name`, or `None` where no field has that name.
    pub fn from_name(name: &str) -> (field: Option<Field>)
        ensures
            field == field_named(name.spec_bytes()),
    {
        let bytes = name.as_bytes();
        if same_bytes(bytes, Field::Memory.name().as_bytes()) {
            Some(Field::Memory)
        } else if same_bytes(bytes, Field::Stack.name().as_bytes()) {
            Some(Field::Stack)
        } else if same_bytes(bytes, Field::V.name().as_bytes()) {
            Some(Field::V)
        } else if same_bytes(bytes, Field::Keys.name().as_bytes()) {
            Some(Field::Keys)
        } else if same_bytes(bytes, Field::Screen.name().as_bytes()) {
            Some(Field::Screen)
        } else if same_bytes(bytes, Field::I.name().as_bytes()) {
            Some(Field::I)
        } else if same_bytes(bytes, Field::Pc.name().as_bytes()) {
            Some(Field::Pc)
        } else if same_bytes(bytes, Field::Sp.name().as_bytes()) {
            Some(Field::Sp)
        } else if same_bytes(bytes, Field::Fps.name().as_bytes()) {
            Some(Field::Fps)
        } else if same_bytes(bytes, Field::SoundTimer.name().as_bytes()) {
            Some(Field::SoundTimer)
        } else if same_bytes(bytes, Field::DelayTimer.name().as_bytes()) {
            Some(Field::DelayTimer)
        } else {
            None
        }
    }
}

} // verus!
