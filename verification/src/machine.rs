//! The state of the virtual machine as a mathematical value.
//!
//! Contracts in this crate speak of a [`Machine`]: the memory, the registers,
//! the display and the keypad as sequences and numbers. The interpreter keeps
//! the same state in arrays and shows it through its view.

use vstd::prelude::*;

verus! {

/// Columns of the display.
pub const SCREEN_WIDTH: usize = 64;

/// Rows of the display.
pub const SCREEN_HEIGHT: usize = 32;

/// Bytes of addressable memory.
pub const MEMORY_SIZE: usize = 4096;

/// Address at which a program is loaded and at which execution starts.
pub const PROGRAM_START: u16 = 0x200;

/// Longest program that fits between [`PROGRAM_START`] and the end of memory.
pub const MAX_ROM_SIZE: usize = 0xE00;

/// Bytes of the font table at the start of memory.
pub const FONT_SIZE: usize = 80;

/// Bytes of one glyph of the font: one byte per row, the glyph in the high
/// nibble.
pub const GLYPH_SIZE: usize = 5;

/// The glyphs of the hexadecimal digits `0` to `F`, five rows each.
pub const FONT_SET: [u8; FONT_SIZE] = [
    0xF0, 0x90, 0x90, 0x90, 0xF0, // 0
    0x20, 0x60, 0x20, 0x20, 0x70, // 1
    0xF0, 0x10, 0xF0, 0x80, 0xF0, // 2
    0xF0, 0x10, 0xF0, 0x10, 0xF0, // 3
    0x90, 0x90, 0xF0, 0x10, 0x10, // 4
    0xF0, 0x80, 0xF0, 0x10, 0xF0, // 5
    0xF0, 0x80, 0xF0, 0x90, 0x10, // 6
    0xF0, 0x10, 0x20, 0x40, 0x40, // 7
    0xF0, 0x90, 0xF0, 0x90, 0xF0, // 8
    0xF0, 0x90, 0xF0, 0x10, 0xF0, // 9
    0xF0, 0x90, 0xF0, 0x90, 0x90, // A
    0xE0, 0x90, 0xE0, 0x90, 0xE0, // B
    0xF0, 0x80, 0x80, 0x80, 0xF0, // C
    0xE0, 0x90, 0x90, 0x90, 0xE0, // D
    0xF0, 0x80, 0xF0, 0x80, 0xF0, // E
    0xF0, 0x80, 0xF0, 0x80, 0x80, // F
];

/// The whole state of the virtual machine.
#[verifier::ext_equal]
pub struct Machine {
    /// The 4096 bytes of memory.
    pub memory: Seq<u8>,
    /// The display, 32 rows of 64 cells: `display[row][column]`.
    pub display: Seq<Seq<bool>>,
    /// The general registers `V0` to `VF`.
    pub v: Seq<u8>,
    /// The index register `I`.
    pub i: u16,
    /// The delay timer.
    pub delay: u8,
    /// The sound timer.
    pub sound: u8,
    /// The program counter.
    pub pc: u16,
    /// The stack pointer: the number of return addresses on the stack.
    pub sp: u8,
    /// The return addresses; the entry at `sp` is the newest.
    pub stack: Seq<u16>,
    /// Which keys are down now.
    pub keys: Seq<bool>,
    /// Which keys were down when the last tick ended.
    pub keys_prev: Seq<bool>,
    /// Set while the key-wait instruction has seen a press and waits for the
    /// release.
    pub awaiting_release: bool,
    /// Set when the display was drawn to or cleared and the host has not yet
    /// asked.
    pub changed: bool,
}

impl Machine {
    /// Every part has its size, and the stack pointer stays inside the stack.
    pub open spec fn wf(self) -> bool {
        &&& self.memory.len() == MEMORY_SIZE
        &&& self.display.len() == SCREEN_HEIGHT
        &&& forall|r: int|
            0 <= r < SCREEN_HEIGHT ==> (#[trigger] self.display[r]).len() == SCREEN_WIDTH
        &&& self.v.len() == 16
        &&& self.stack.len() == 16
        &&& self.keys.len() == 16
        &&& self.keys_prev.len() == 16
        &&& self.sp < 16
    }
}

/// A display with every cell off.
pub open spec fn blank_display() -> Seq<Seq<bool>> {
    Seq::new(SCREEN_HEIGHT as nat, |r: int| Seq::new(SCREEN_WIDTH as nat, |c: int| false))
}

/// Memory at power-on: the font table at address 0, zero everywhere else.
pub open spec fn font_memory() -> Seq<u8> {
    Seq::new(
        MEMORY_SIZE as nat,
        |a: int|
            if a < FONT_SIZE {
                FONT_SET@[a]
            } else {
                0u8
            },
    )
}

/// The machine at power-on: everything zero but the font table, and the
/// program counter at [`PROGRAM_START`].
pub open spec fn power_on() -> Machine {
    Machine {
        memory: font_memory(),
        display: blank_display(),
        v: Seq::new(16, |k: int| 0u8),
        i: 0,
        delay: 0,
        sound: 0,
        pc: PROGRAM_START,
        sp: 0,
        stack: Seq::new(16, |k: int| 0u16),
        keys: Seq::new(16, |k: int| false),
        keys_prev: Seq::new(16, |k: int| false),
        awaiting_release: false,
        changed: false,
    }
}

/// Memory after a program of `rom.len()` bytes was copied to
/// [`PROGRAM_START`].
pub open spec fn memory_with_rom(memory: Seq<u8>, rom: Seq<u8>) -> Seq<u8> {
    Seq::new(
        memory.len(),
        |a: int|
            if PROGRAM_START <= a < PROGRAM_START + rom.len() {
                rom[a - PROGRAM_START]
            } else {
                memory[a]
            },
    )
}

/// A timer after one tick of the 60 Hz clock: one less, and never below 0.
pub open spec fn counted_down(timer: u8) -> u8 {
    if timer > 0 {
        (timer - 1) as u8
    } else {
        0
    }
}

/// A timer after `n` ticks of the 60 Hz clock.
pub open spec fn counted_down_by(timer: u8, n: nat) -> u8
    decreases n,
{
    if n == 0 {
        timer
    } else {
        counted_down(counted_down_by(timer, (n - 1) as nat))
    }
}

} // verus!
