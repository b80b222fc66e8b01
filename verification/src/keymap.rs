//! The keys of the host's keyboard that stand for the sixteen keys of the
//! keypad.
//!
//! The block `1234` / `QWER` / `ASDF` / `ZXCV` of a keyboard lies as the
//! keypad does, whose rows are `123C` / `456D` / `789E` / `A0BF`: the key at
//! a place of the block stands for the key at that place of the keypad.

use vstd::prelude::*;

verus! {

/// The key codes of the sixteen keys of the block, row by row. The code of a
/// key that prints a character is the code point of that character,
/// unshifted.
pub const KEYBOARD: [i32; 16] = [
    49, 50, 51, 52, // 1 2 3 4
    113, 119, 101, 114, // q w e r
    97, 115, 100, 102, // a s d f
    122, 120, 99, 118, // z x c v
];

/// The keys of the keypad, row by row.
pub const KEYPAD: [usize; 16] = [
    0x1, 0x2, 0x3, 0xC, //
    0x4, 0x5, 0x6, 0xD, //
    0x7, 0x8, 0x9, 0xE, //
    0xA, 0x0, 0xB, 0xF, //
];

/// Whether the key with code `keycode` is the key at place `p` of the block.
pub open spec fn lies_at(keycode: i32, p: int) -> bool {
    0 <= p < 16 && KEYBOARD@[p] == keycode
}

/// The key of the keypad that the key with code `keycode` stands for: the
/// one at its place, or `None` for a key that is not in the block.
pub open spec fn keypad_key(keycode: i32) -> Option<usize> {
    if exists|p: int| lies_at(keycode, p) {
        Some(KEYPAD@[choose|p: int| lies_at(keycode, p)])
    } else {
        None
    }
}

/// The key of the keypad that the key with code `keycode` stands for, if it
/// stands for one.
pub fn process_keycode(keycode: i32) -> (key: Option<usize>)
    ensures
        key == keypad_key(keycode),
        key matches Some(k) ==> k < 16,
{
    proof {
        law_keymap_is_one_to_one();
    }
    for p in 0..16
        invariant
            forall|q: int| 0 <= q < p ==> !lies_at(keycode, q),
    {
        if KEYBOARD[p] == keycode {
            assert(lies_at(keycode, p as int));
            return Some(KEYPAD[p]);
        }
    }
    None
}

/// No key lies at two places of the block, and the keypad holds each of its
/// sixteen keys once: so a key code stands for at most one key of the keypad,
/// and each key of the keypad has exactly one key that stands for it.
pub proof fn law_keymap_is_one_to_one()
    ensures
        forall|p: int, q: int| 0 <= p < q < 16 ==> KEYBOARD@[p] != KEYBOARD@[q],
        forall|p: int, q: int| 0 <= p < q < 16 ==> KEYPAD@[p] != KEYPAD@[q],
        forall|p: int| 0 <= p < 16 ==> KEYPAD@[p] < 16,
        forall|keycode: i32, p: int|
            lies_at(keycode, p) ==> #[trigger] keypad_key(keycode) == Some(#[trigger] KEYPAD@[p]),
        forall|keycode: i32|
            (forall|p: int| !lies_at(keycode, p)) ==> #[trigger] keypad_key(keycode) is None,
{
}

} // verus!
