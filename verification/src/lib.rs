//! A CHIP-8 virtual machine whose every instruction is proved against a
//! transition function on a mathematical model of the machine.
//!
//! [`Chip8`] is the interpreter. [`machine::Machine`] is the model and
//! [`semantics::tick_result`] the transition function that
//! [`Chip8::tick`] is proved to follow; [`laws`] holds what follows for every
//! machine.

pub mod chip8;
pub mod instruction;
pub mod keymap;
pub mod laws;
pub mod machine;
pub mod random;
pub mod render;
pub mod semantics;

pub use crate::chip8::Chip8;
pub use crate::instruction::{decode, Instruction};
pub use crate::keymap::process_keycode;
pub use crate::machine::{
    FONT_SET, FONT_SIZE, MAX_ROM_SIZE, MEMORY_SIZE, PROGRAM_START, SCREEN_HEIGHT, SCREEN_WIDTH,
};
pub use crate::render::{lit_blocks, Block};
pub use crate::semantics::Fault;
