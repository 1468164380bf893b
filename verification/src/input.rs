//! From keyboard key codes to the sixteen-key pad.
//!
//! A key code is the number a keyboard layer gives a key; for the printable
//! keys it is the ASCII code of the character on the key. The pad is laid
//! over the left of the keyboard:
//!
//! ```text
//! keyboard   pad
//! 1 2 3 4    1 2 3 C
//! q w e r    4 5 6 D
//! a s d f    7 8 9 E
//! z x c v    A 0 B F
//! ```

use vstd::prelude::*;

verus! {

/// The key code of the escape key, which ends a run.
pub const QUIT_KEY: i32 = 27;

/// The pad key that the key with key code `code` stands for, if any.
pub open spec fn pad_key(code: i32) -> Option<usize> {
    if code == 49 {
        Some(0x1usize)
    } else if code == 50 {
        Some(0x2usize)
    } else if code == 51 {
        Some(0x3usize)
    } else if code == 52 {
        Some(0xCusize)
    } else if code == 113 {
        Some(0x4usize)
    } else if code == 119 {
        Some(0x5usize)
    } else if code == 101 {
        Some(0x6usize)
    } else if code == 114 {
        Some(0xDusize)
    } else if code == 97 {
        Some(0x7usize)
    } else if code == 115 {
        Some(0x8usize)
    } else if code == 100 {
        Some(0x9usize)
    } else if code == 102 {
        Some(0xEusize)
    } else if code == 122 {
        Some(0xAusize)
    } else if code == 120 {
        Some(0x0usize)
    } else if code == 99 {
        Some(0xBusize)
    } else if code == 118 {
        Some(0xFusize)
    } else {
        None
    }
}

/// The pad key that the key with key code `code` stands for, if any.
pub fn key_index(code: i32) -> (idx: Option<usize>)
    ensures
        idx == pad_key(code),
        idx matches Some(k) ==> k < 16,
{
    match code {
        49 => Some(0x1),
        50 => Some(0x2),
        51 => Some(0x3),
        52 => Some(0xC),
        113 => Some(0x4),
        119 => Some(0x5),
        101 => Some(0x6),
        114 => Some(0xD),
        97 => Some(0x7),
        115 => Some(0x8),
        100 => Some(0x9),
        102 => Some(0xE),
        122 => Some(0xA),
        120 => Some(0x0),
        99 => Some(0xB),
        118 => Some(0xF),
        _ => None,
    }
}

/// Whether the key with key code `code` ends the run.
pub fn is_quit(code: i32) -> (quit: bool)
    ensures
        quit == (code == QUIT_KEY),
{
    code == QUIT_KEY
}

/// Pad key `k` is held down when the keys with key codes `codes` are.
pub open spec fn pad_pressed(codes: Seq<i32>, k: int) -> bool {
    exists|i: int| 0 <= i < codes.len() && pad_key(#[trigger] codes[i]) == Some(k as usize)
}

/// The state of the pad when exactly the keys with key codes `codes` are
/// held down: a pad key is pressed where one of them stands for it.
pub fn keypad_from(codes: &[i32]) -> (keypad: [bool; 16])
    ensures
        forall|k: int| 0 <= k < 16 ==> keypad@[k] == pad_pressed(codes@, k),
{
    let mut keypad = [false;16];
    let mut i: usize = 0;
    while i < codes.len()
        invariant
            i <= codes@.len(),
            forall|k: int| 0 <= k < 16 ==> keypad@[k] == pad_pressed(codes@.take(i as int), k),
        decreases codes@.len() - i,
    {
        let ghost seen = codes@.take(i as int);
        let ghost more = codes@.take(i + 1);
        let ghost earlier = keypad@;
        let idx = key_index(codes[i]);
        if let Some(k) = idx {
            keypad[k] = true;
        }
        assert forall|k: int| 0 <= k < 16 implies keypad@[k] == pad_pressed(more, k) by {
            if pad_pressed(seen, k) {
                let j = choose|j: int| 0 <= j < seen.len() && pad_key(#[trigger] seen[j]) == Some(k as usize);
                assert(more[j] == seen[j]);
            }
            if pad_key(codes@[i as int]) == Some(k as usize) {
                assert(more[i as int] == codes@[i as int]);
            }
            if pad_pressed(more, k) {
                let j = choose|j: int| 0 <= j < more.len() && pad_key(#[trigger] more[j]) == Some(k as usize);
                if j < i {
                    assert(seen[j] == more[j]);
                }
            }
        }
        i += 1;
    }
    assert(codes@.take(i as int) == codes@);
    keypad
}

} // verus!
