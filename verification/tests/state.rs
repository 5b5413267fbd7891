use chip8_core::chip8::Chip8;
use chip8_core::fault::RestoreError;
use chip8_core::field::{Field, FieldKind, FIELDS};
use chip8_core::snapshot::{FieldValue, PartialState, Snapshot};
use serde_json::Value;

const ALL_FIELDS: [Field; 11] = [
    Field::Memory,
    Field::Stack,
    Field::V,
    Field::Keys,
    Field::Screen,
    Field::I,
    Field::Pc,
    Field::Sp,
    Field::Fps,
    Field::SoundTimer,
    Field::DelayTimer,
];

fn busy_machine(steps: usize) -> Chip8 {
    let mut chip8 = Chip8::new();
    let program = [
        0x60, 0x0C, 0x61, 0x05, 0x80, 0x14, 0xA3, 0x00, 0xF1, 0x55, 0xF0, 0x33, 0xD0, 0x15, 0xF0,
        0x15, 0x22, 0x14, 0x12, 0x12, 0xF0, 0x29, 0xC3, 0xFF, 0xF0, 0x18, 0x12, 0x1A,
    ];
    assert_eq!(chip8.load_file(&program), Ok(()));
    chip8.key_down(Some(7), true);
    for _ in 0..steps {
        assert_eq!(chip8.try_tick(), Ok(()));
    }
    chip8.tick_timers();
    chip8
}

fn value_of(record: &Snapshot, field: Field) -> FieldValue {
    match field {
        Field::Memory => FieldValue::Bytes(record.memory.clone()),
        Field::Stack => FieldValue::Words(record.stack.clone()),
        Field::V => FieldValue::Bytes(record.v.clone()),
        Field::Keys => FieldValue::Flags(record.keys.clone()),
        Field::Screen => FieldValue::Flags(record.screen.clone()),
        Field::I => FieldValue::Word(record.i),
        Field::Pc => FieldValue::Word(record.pc),
        Field::Sp => FieldValue::Byte(record.sp),
        Field::Fps => FieldValue::Long(record.fps),
        Field::SoundTimer => FieldValue::Byte(record.sound_timer),
        Field::DelayTimer => FieldValue::Byte(record.delay_timer),
    }
}

fn to_json(record: &Snapshot) -> String {
    let mut object = serde_json::Map::new();
    for field in ALL_FIELDS {
        let value = match value_of(record, field) {
            FieldValue::Bytes(bytes) => Value::from(bytes),
            FieldValue::Words(words) => Value::from(words),
            FieldValue::Flags(flags) => Value::from(flags),
            FieldValue::Byte(byte) => Value::from(byte),
            FieldValue::Word(word) => Value::from(word),
            FieldValue::Long(long) => Value::from(long),
        };
        object.insert(field.name().to_string(), value);
    }
    serde_json::to_string(&Value::Object(object)).unwrap()
}

fn numbers(value: &Value) -> Vec<u64> {
    value.as_array().unwrap().iter().map(|item| item.as_u64().unwrap()).collect()
}

fn from_json(text: &str) -> Result<Chip8, RestoreError> {
    let parsed: Value = serde_json::from_str(text).unwrap();
    let mut partial = PartialState::new();
    for (name, value) in parsed.as_object().unwrap() {
        let field = partial.accept_name(name)?;
        let read = match field.kind() {
            FieldKind::Bytes => FieldValue::Bytes(numbers(value).iter().map(|n| *n as u8).collect()),
            FieldKind::Words => FieldValue::Words(numbers(value).iter().map(|n| *n as u16).collect()),
            FieldKind::Flags => FieldValue::Flags(
                value.as_array().unwrap().iter().map(|item| item.as_bool().unwrap()).collect(),
            ),
            FieldKind::Byte => FieldValue::Byte(value.as_u64().unwrap() as u8),
            FieldKind::Word => FieldValue::Word(value.as_u64().unwrap() as u16),
            FieldKind::Long => FieldValue::Long(value.as_u64().unwrap() as u32),
        };
        partial.set(field, read)?;
    }
    partial.finish()
}

#[test]
fn snapshot_round_trip_after_running() {
    for steps in [0usize, 1, 5, 9, 14, 40] {
        let chip8 = busy_machine(steps);
        let record = chip8.snapshot();
        let restored = Chip8::restore(record.clone()).unwrap();
        assert_eq!(restored.snapshot(), record);
        assert_eq!(restored.get_display(), chip8.get_display());
        assert_eq!(restored.get_fps(), chip8.get_fps());
    }
}

#[test]
fn snapshot_round_trip_through_json() {
    for steps in [0usize, 7, 23] {
        let chip8 = busy_machine(steps);
        let record = chip8.snapshot();
        let text = to_json(&record);
        let restored = from_json(&text).unwrap();
        assert_eq!(restored.snapshot(), record);
    }
}

#[test]
fn restored_machine_runs_on_like_the_first() {
    let mut first = busy_machine(6);
    let mut second = Chip8::restore(first.snapshot()).unwrap();
    for _ in 0..2 {
        assert_eq!(first.try_tick(), Ok(()));
        assert_eq!(second.try_tick(), Ok(()));
    }
    assert_eq!(first.snapshot(), second.snapshot());
}

#[test]
fn json_with_unknown_field_is_refused() {
    let record = Chip8::new().snapshot();
    let text = to_json(&record).replacen("\"fps\"", "\"speed\"", 1);
    assert_eq!(from_json(&text).err(), Some(RestoreError::UnknownField));
}

#[test]
fn from_deserialized_data_takes_every_field() {
    let mut memory = vec![0u8; 4096];
    memory[4095] = 0xFE;
    let mut stack = vec![0u16; 16];
    stack[15] = 0xBEEF;
    let mut keys = vec![false; 16];
    keys[0] = true;
    let mut v = vec![0u8; 16];
    v[7] = 77;
    let mut screen = vec![false; 2048];
    screen[2047] = true;
    let chip8 = Chip8::from_deserialized_data(
        memory.clone(),
        0x1234,
        stack.clone(),
        0x0ABC,
        9,
        11,
        22,
        keys.clone(),
        v.clone(),
        screen.clone(),
        30,
    )
    .unwrap();
    let record = chip8.snapshot();
    assert_eq!(
        record,
        Snapshot {
            memory,
            stack,
            v,
            keys,
            screen,
            i: 0x1234,
            pc: 0x0ABC,
            sp: 9,
            fps: 30,
            sound_timer: 22,
            delay_timer: 11,
        }
    );
    assert_eq!(chip8.get_fps(), 30);
    assert!(chip8.get_display()[2047]);
}

#[test]
fn lists_of_wrong_length_are_refused_first_one_named() {
    let good = Chip8::new().snapshot();
    let mut record = good.clone();
    record.memory.pop();
    assert_eq!(Chip8::restore(record).err(), Some(RestoreError::WrongLength { field: Field::Memory }));
    let mut record = good.clone();
    record.stack.push(0);
    assert_eq!(Chip8::restore(record).err(), Some(RestoreError::WrongLength { field: Field::Stack }));
    let mut record = good.clone();
    record.v.clear();
    assert_eq!(Chip8::restore(record).err(), Some(RestoreError::WrongLength { field: Field::V }));
    let mut record = good.clone();
    record.screen.push(true);
    assert_eq!(Chip8::restore(record).err(), Some(RestoreError::WrongLength { field: Field::Screen }));
    let mut record = good.clone();
    record.keys.pop();
    assert_eq!(Chip8::restore(record).err(), Some(RestoreError::WrongLength { field: Field::Keys }));
    let mut record = good.clone();
    record.keys.pop();
    record.screen.pop();
    record.stack.pop();
    assert_eq!(Chip8::restore(record).err(), Some(RestoreError::WrongLength { field: Field::Stack }));
    assert!(Chip8::restore(good).is_ok());
}

#[test]
fn field_names_and_kinds() {
    let names = [
        "memory", "stack", "v", "keys", "screen", "i", "pc", "sp", "fps", "sound_timer",
        "delay_timer",
    ];
    for (field, name) in ALL_FIELDS.iter().zip(names) {
        assert_eq!(field.name(), name);
        assert_eq!(Field::from_name(name), Some(*field));
        assert!(FIELDS.contains(&name));
    }
    assert_eq!(FIELDS.len(), 11);
    assert_eq!(
        FIELDS,
        ["memory", "stack", "v", "screen", "keys", "i", "pc", "sp", "sound_timer", "delay_timer", "fps"]
    );
    for name in ["", "Memory", "memor", "memory ", "keys2", "x", "sound_time", "delay-timer"] {
        assert_eq!(Field::from_name(name), None, "name {:?}", name);
    }
    assert_eq!(Field::Memory.kind(), FieldKind::Bytes);
    assert_eq!(Field::V.kind(), FieldKind::Bytes);
    assert_eq!(Field::Stack.kind(), FieldKind::Words);
    assert_eq!(Field::Keys.kind(), FieldKind::Flags);
    assert_eq!(Field::Screen.kind(), FieldKind::Flags);
    assert_eq!(Field::I.kind(), FieldKind::Word);
    assert_eq!(Field::Pc.kind(), FieldKind::Word);
    assert_eq!(Field::Sp.kind(), FieldKind::Byte);
    assert_eq!(Field::SoundTimer.kind(), FieldKind::Byte);
    assert_eq!(Field::DelayTimer.kind(), FieldKind::Byte);
    assert_eq!(Field::Fps.kind(), FieldKind::Long);
}

#[test]
fn record_gathered_in_any_order_gives_the_machine() {
    let record = busy_machine(10).snapshot();
    let mut partial = PartialState::new();
    for field in ALL_FIELDS.iter().rev() {
        assert!(!partial.contains(*field));
        assert_eq!(partial.accept_name(field.name()), Ok(*field));
        assert_eq!(partial.set(*field, value_of(&record, *field)), Ok(()));
        assert!(partial.contains(*field));
    }
    assert_eq!(partial.finish().unwrap().snapshot(), record);
}

#[test]
fn missing_fields_are_reported_in_record_order() {
    let record = Chip8::new().snapshot();
    assert_eq!(
        PartialState::new().finish().err(),
        Some(RestoreError::MissingField { field: Field::Memory })
    );
    for missing in ALL_FIELDS {
        let mut partial = PartialState::new();
        for field in ALL_FIELDS {
            if field != missing {
                assert_eq!(partial.set(field, value_of(&record, field)), Ok(()));
            }
        }
        assert_eq!(partial.finish().err(), Some(RestoreError::MissingField { field: missing }));
    }
    let mut partial = PartialState::new();
    for field in [Field::Memory, Field::Stack, Field::DelayTimer] {
        assert_eq!(partial.set(field, value_of(&record, field)), Ok(()));
    }
    assert_eq!(partial.finish().err(), Some(RestoreError::MissingField { field: Field::V }));
}

#[test]
fn duplicate_and_unknown_names_are_refused() {
    let record = Chip8::new().snapshot();
    let mut partial = PartialState::new();
    assert_eq!(partial.accept_name("screen"), Ok(Field::Screen));
    assert_eq!(partial.set(Field::Screen, value_of(&record, Field::Screen)), Ok(()));
    assert_eq!(
        partial.accept_name("screen"),
        Err(RestoreError::DuplicateField { field: Field::Screen })
    );
    assert_eq!(partial.accept_name("keys"), Ok(Field::Keys));
    assert_eq!(partial.accept_name("colour"), Err(RestoreError::UnknownField));
    let before = partial.clone();
    assert_eq!(
        partial.set(Field::Screen, FieldValue::Flags(vec![true; 2048])),
        Err(RestoreError::DuplicateField { field: Field::Screen })
    );
    assert_eq!(partial, before);
}

#[test]
fn value_of_another_kind_is_refused() {
    let mut partial = PartialState::new();
    assert_eq!(
        partial.set(Field::Memory, FieldValue::Words(vec![0; 4096])),
        Err(RestoreError::WrongKind { field: Field::Memory })
    );
    assert_eq!(
        partial.set(Field::Pc, FieldValue::Byte(1)),
        Err(RestoreError::WrongKind { field: Field::Pc })
    );
    assert_eq!(
        partial.set(Field::Sp, FieldValue::Word(1)),
        Err(RestoreError::WrongKind { field: Field::Sp })
    );
    assert_eq!(partial, PartialState::new());
    assert_eq!(partial.set(Field::Sp, FieldValue::Byte(1)), Ok(()));
    assert_eq!(partial.sp, Some(1));
}

#[test]
fn gathered_record_with_wrong_length_gives_no_machine() {
    let mut record = Chip8::new().snapshot();
    record.screen.truncate(100);
    let mut partial = PartialState::new();
    for field in ALL_FIELDS {
        assert_eq!(partial.set(field, value_of(&record, field)), Ok(()));
    }
    assert_eq!(partial.finish().err(), Some(RestoreError::WrongLength { field: Field::Screen }));
}
