//! The host keyboard seen as the sixteen-key pad.
//!
//! Host keys are named by their key codes: for a character key the code of
//! the character. The pad is laid out on the left of the keyboard:
//!
//! ```text
//! 1 2 3 4        1 2 3 C
//! Q W E R   ->   4 5 6 D
//! A B D F        7 8 9 E
//! Z X C V        A 0 B F
//! ```

use vstd::prelude::*;

verus! {

pub const KEY_1: i32 = 49;

pub const KEY_2: i32 = 50;

pub const KEY_3: i32 = 51;

pub const KEY_4: i32 = 52;

pub const KEY_Q: i32 = 113;

pub const KEY_W: i32 = 119;

pub const KEY_E: i32 = 101;

pub const KEY_R: i32 = 114;

pub const KEY_A: i32 = 97;

pub const KEY_B: i32 = 98;

pub const KEY_D: i32 = 100;

pub const KEY_F: i32 = 102;

pub const KEY_Z: i32 = 122;

pub const KEY_X: i32 = 120;

pub const KEY_C: i32 = 99;

pub const KEY_V: i32 = 118;

/// The key that ends the session.
pub const KEY_ESCAPE: i32 = 27;

/// The key that saves the machine.
pub const KEY_F1: i32 = 1073741882;

/// The pad key that a host key stands for, if it stands for one.
pub open spec fn pad_key(keycode: i32) -> Option<u8> {
    if keycode == KEY_1 {
        Some(0x1u8)
    } else if keycode == KEY_2 {
        Some(0x2u8)
    } else if keycode == KEY_3 {
        Some(0x3u8)
    } else if keycode == KEY_4 {
        Some(0xCu8)
    } else if keycode == KEY_Q {
        Some(0x4u8)
    } else if keycode == KEY_W {
        Some(0x5u8)
    } else if keycode == KEY_E {
        Some(0x6u8)
    } else if keycode == KEY_R {
        Some(0xDu8)
    } else if keycode == KEY_A {
        Some(0x7u8)
    } else if keycode == KEY_B {
        Some(0x8u8)
    } else if keycode == KEY_D {
        Some(0x9u8)
    } else if keycode == KEY_F {
        Some(0xEu8)
    } else if keycode == KEY_Z {
        Some(0xAu8)
    } else if keycode == KEY_X {
        Some(0x0u8)
    } else if keycode == KEY_C {
        Some(0xBu8)
    } else if keycode == KEY_V {
        Some(0xFu8)
    } else {
        None
    }
}

/// The pad key that a host key stands for, if it stands for one.
pub fn map_key(keycode: i32) -> (key: Option<u8>)
    ensures
        key == pad_key(keycode),
        key matches Some(k) ==> k < 16,
{
    match keycode {
        49 => Some(0x1),
        50 => Some(0x2),
        51 => Some(0x3),
        52 => Some(0xC),
        113 => Some(0x4),
        119 => Some(0x5),
        101 => Some(0x6),
        114 => Some(0xD),
        97 => Some(0x7),
        98 => Some(0x8),
        100 => Some(0x9),
        102 => Some(0xE),
        122 => Some(0xA),
        120 => Some(0x0),
        99 => Some(0xB),
        118 => Some(0xF),
        _ => None,
    }
}

/// Sixteen host keys stand for the sixteen pad keys, one each.
pub proof fn lemma_pad_covered(k: u8)
    requires
        k < 16,
    ensures
        exists|keycode: i32| pad_key(keycode) == Some(k),
{
    assert(pad_key(KEY_X) == Some(0x0u8));
    assert(pad_key(KEY_1) == Some(0x1u8));
    assert(pad_key(KEY_2) == Some(0x2u8));
    assert(pad_key(KEY_3) == Some(0x3u8));
    assert(pad_key(KEY_Q) == Some(0x4u8));
    assert(pad_key(KEY_W) == Some(0x5u8));
    assert(pad_key(KEY_E) == Some(0x6u8));
    assert(pad_key(KEY_A) == Some(0x7u8));
    assert(pad_key(KEY_B) == Some(0x8u8));
    assert(pad_key(KEY_D) == Some(0x9u8));
    assert(pad_key(KEY_Z) == Some(0xAu8));
    assert(pad_key(KEY_C) == Some(0xBu8));
    assert(pad_key(KEY_4) == Some(0xCu8));
    assert(pad_key(KEY_R) == Some(0xDu8));
    assert(pad_key(KEY_F) == Some(0xEu8));
    assert(pad_key(KEY_V) == Some(0xFu8));
}

} // verus!
