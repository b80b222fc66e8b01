//! What one instruction does to a [`Machine`].
//!
//! [`tick_result`] is the transition function of the virtual machine: from a
//! state and a random byte to the next state, or to the fault that halts
//! interpretation. The interpreter's `tick` is proved against it.
//!
//! Implementations of this machine differ in a few places. Here:
//! - `OR`, `AND` and `XOR` reset `VF` to 0;
//! - `SHR` and `SHL` shift `Vy` and store the result in `Vx`;
//! - `SUB` and `SUBN` set `VF` only where the minuend is strictly larger;
//! - `DRW` resets `VF` before it reads `Vx` and `Vy`, wraps the corner of the
//!   sprite to the screen and clips the sprite at the right and lower edge;
//! - `LD Vx, K` is done when a key is released, not when it goes down;
//! - `LD [I], Vx` and `LD Vx, [I]` leave `I` behind the last byte.

use crate::instruction::{decode_spec, family, Instruction};
use crate::machine::{blank_display, Machine, GLYPH_SIZE, MEMORY_SIZE, SCREEN_HEIGHT, SCREEN_WIDTH};
use vstd::prelude::*;

verus! {

/// Why interpretation halts. A fault is the program's doing or the host's:
/// no tick that raises one changes the machine.
#[derive(Clone, Copy, Debug, PartialEq, Eq, Structural)]
pub enum Fault {
    /// The word at the program counter is no instruction. Holds that word.
    UnknownOpcode(u16),
    /// `CALL` with the stack full.
    StackOverflow,
    /// `RET` with the stack empty.
    StackUnderflow,
    /// A fetch, a sprite read or a register transfer would leave memory, or
    /// `I` would leave its sixteen bits.
    MemoryOutOfBounds,
    /// A key instruction whose register holds no key number.
    InvalidKey,
}

/// The opcode at the program counter: two bytes, the high byte first.
pub open spec fn opcode_at(m: Machine) -> u16 {
    (m.memory[m.pc as int] as int * 0x100 + m.memory[m.pc + 1] as int) as u16
}

/// The machine with the program counter past the instruction it points at.
pub open spec fn advanced(m: Machine) -> Machine {
    Machine { pc: (m.pc + 2) as u16, ..m }
}

/// The machine with the next instruction skipped if `cond` holds.
pub open spec fn skip_if(m: Machine, cond: bool) -> Machine {
    if cond {
        advanced(m)
    } else {
        m
    }
}

/// The machine with `value` in register `x`.
pub open spec fn with_register(m: Machine, x: usize, value: u8) -> Machine {
    Machine { v: m.v.update(x as int, value), ..m }
}

/// The machine with `value` in register `x` and, written after it, `flag` in
/// `VF`.
pub open spec fn with_flagged(m: Machine, x: usize, value: u8, flag: u8) -> Machine {
    Machine { v: m.v.update(x as int, value).update(0xF, flag), ..m }
}

/// 1 if `b` holds, else 0.
pub open spec fn flag_of(b: bool) -> u8 {
    if b {
        1
    } else {
        0
    }
}

/// Bit `col` of a sprite row, counted from the most significant bit, which is
/// the leftmost pixel.
pub open spec fn sprite_bit(row: u8, col: int) -> bool {
    (row >> ((7 - col) as u8)) & 1 == 1
}

/// The column at which `DRW Vx, Vy, n` starts: `Vx` modulo the width, read
/// after `VF` was reset.
pub open spec fn sprite_left(m: Machine, x: usize) -> int {
    m.v.update(0xF, 0u8)[x as int] as int % (SCREEN_WIDTH as int)
}

/// The row at which `DRW Vx, Vy, n` starts: `Vy` modulo the height, read
/// after `VF` was reset.
pub open spec fn sprite_top(m: Machine, y: usize) -> int {
    m.v.update(0xF, 0u8)[y as int] as int % (SCREEN_HEIGHT as int)
}

/// The number of sprite rows that are on the screen when the sprite starts at
/// row `top`: the rest is clipped at the lower edge, and is not read.
pub open spec fn sprite_rows(top: int, n: int) -> int {
    if n <= SCREEN_HEIGHT - top {
        n
    } else {
        SCREEN_HEIGHT - top
    }
}

/// Whether the sprite of `n` rows at `I`, with its upper left corner at
/// (`left`, `top`), has a set bit over the cell in row `r` and column `c`.
pub open spec fn sprite_covers(m: Machine, left: int, top: int, n: int, r: int, c: int) -> bool {
    &&& top <= r < top + n
    &&& left <= c < left + 8
    &&& sprite_bit(m.memory[m.i + (r - top)], c - left)
}

/// Whether the sprite has a set bit over a cell of the screen that is on.
pub open spec fn sprite_collides(m: Machine, left: int, top: int, n: int) -> bool {
    exists|r: int, c: int|
        0 <= r < SCREEN_HEIGHT && 0 <= c < SCREEN_WIDTH && m.display[r][c]
            && #[trigger] sprite_covers(m, left, top, n, r, c)
}

/// The display after the sprite was drawn: each cell of the screen under a
/// set bit is flipped. What would fall beyond the right or the lower edge is
/// not drawn.
pub open spec fn display_with_sprite(m: Machine, left: int, top: int, n: int) -> Seq<Seq<bool>> {
    Seq::new(
        SCREEN_HEIGHT as nat,
        |r: int|
            Seq::new(
                SCREEN_WIDTH as nat,
                |c: int| m.display[r][c] != sprite_covers(m, left, top, n, r, c),
            ),
    )
}

/// `Dxyn`: draws the sprite and sets `VF` to 1 if a cell went from on to off,
/// else to 0.
pub open spec fn drawn(m: Machine, x: usize, y: usize, n: u8) -> Machine {
    let left = sprite_left(m, x);
    let top = sprite_top(m, y);
    Machine {
        display: display_with_sprite(m, left, top, n as int),
        v: m.v.update(0xF, flag_of(sprite_collides(m, left, top, n as int))),
        changed: true,
        ..m
    }
}

/// The lowest key from `from` on whose state differs between the two
/// snapshots, or 16 if there is none.
pub open spec fn first_change(prev: Seq<bool>, now: Seq<bool>, from: int) -> int
    decreases 16 - from,
{
    if from >= 16 {
        16
    } else if prev[from] != now[from] {
        from
    } else {
        first_change(prev, now, from + 1)
    }
}

/// `Fx0A`, on a machine whose program counter is already past the
/// instruction. The keys are scanned from 0 up and the first one that changed
/// since the last tick decides. A release completes the instruction with the
/// key in `Vx`. A press arms the latch, and the instruction is run again; so
/// it is if no key changed.
pub open spec fn key_awaited(m: Machine, x: usize) -> Machine {
    let k = first_change(m.keys_prev, m.keys, 0);
    if k >= 16 {
        Machine { pc: (m.pc - 2) as u16, ..m }
    } else if m.keys_prev[k] {
        Machine { v: m.v.update(x as int, k as u8), awaiting_release: false, ..m }
    } else {
        Machine { awaiting_release: true, pc: (m.pc - 2) as u16, ..m }
    }
}

/// `Fx33`: the decimal digits of `value` at `I`, `I + 1` and `I + 2`.
pub open spec fn memory_with_bcd(m: Machine, value: u8) -> Seq<u8> {
    m.memory.update(m.i as int, value / 100).update(m.i + 1, (value / 10) % 10).update(
        m.i + 2,
        value % 10,
    )
}

/// `Fx55`: the registers `V0` to `Vx` at `I` and above.
pub open spec fn memory_with_registers(m: Machine, x: usize) -> Seq<u8> {
    Seq::new(
        m.memory.len(),
        |a: int|
            if m.i <= a <= m.i + x {
                m.v[a - m.i]
            } else {
                m.memory[a]
            },
    )
}

/// `Fx65`: the registers `V0` to `Vx` filled from `I` and above.
pub open spec fn registers_from_memory(m: Machine, x: usize) -> Seq<u8> {
    Seq::new(
        m.v.len(),
        |k: int|
            if k <= x {
                m.memory[m.i + k]
            } else {
                m.v[k]
            },
    )
}

/// The fault that executing `inst` raises, if any.
pub open spec fn execution_fault(m: Machine, inst: Instruction) -> Option<Fault> {
    match inst {
        Instruction::Return => if m.sp == 0 {
            Some(Fault::StackUnderflow)
        } else {
            None
        },
        Instruction::Call { .. } => if m.sp >= 15 {
            Some(Fault::StackOverflow)
        } else {
            None
        },
        Instruction::SkipKeyDown { x } | Instruction::SkipKeyUp { x } => if m.v[x as int] >= 16 {
            Some(Fault::InvalidKey)
        } else {
            None
        },
        Instruction::AddIndex { x } => if m.i + m.v[x as int] > 0xFFFF {
            Some(Fault::MemoryOutOfBounds)
        } else {
            None
        },
        Instruction::StoreBcd { .. } => if m.i + 2 >= MEMORY_SIZE {
            Some(Fault::MemoryOutOfBounds)
        } else {
            None
        },
        Instruction::StoreRegs { x } | Instruction::LoadRegs { x } => if m.i + x >= MEMORY_SIZE {
            Some(Fault::MemoryOutOfBounds)
        } else {
            None
        },
        Instruction::Draw { y, n, .. } => if n > 0 && m.i + sprite_rows(sprite_top(m, y), n as int)
            > MEMORY_SIZE {
            Some(Fault::MemoryOutOfBounds)
        } else {
            None
        },
        _ => None,
    }
}

/// The fault that the next tick raises, if any: the program counter has left
/// memory, the word it points at is no instruction, or the instruction
/// cannot be executed.
pub open spec fn fault(m: Machine) -> Option<Fault> {
    if m.pc + 1 >= MEMORY_SIZE {
        Some(Fault::MemoryOutOfBounds)
    } else {
        match decode_spec(opcode_at(m)) {
            None => Some(Fault::UnknownOpcode(opcode_at(m))),
            Some(inst) => execution_fault(m, inst),
        }
    }
}

/// The machine after `inst` was executed. `m` is the machine with the program
/// counter already past the instruction, and `random` is the byte that `RND`
/// draws.
pub open spec fn executed(m: Machine, inst: Instruction, random: u8) -> Machine {
    match inst {
        Instruction::ClearScreen => Machine { display: blank_display(), changed: true, ..m },
        Instruction::Return => Machine { pc: m.stack[m.sp as int], sp: (m.sp - 1) as u8, ..m },
        Instruction::Jump { addr } => Machine { pc: addr, ..m },
        Instruction::Call { addr } => Machine {
            sp: (m.sp + 1) as u8,
            stack: m.stack.update(m.sp + 1, m.pc),
            pc: addr,
            ..m
        },
        Instruction::SkipEqImm { x, kk } => skip_if(m, m.v[x as int] == kk),
        Instruction::SkipNeImm { x, kk } => skip_if(m, m.v[x as int] != kk),
        Instruction::SkipEqReg { x, y } => skip_if(m, m.v[x as int] == m.v[y as int]),
        Instruction::SkipNeReg { x, y } => skip_if(m, m.v[x as int] != m.v[y as int]),
        Instruction::LoadImm { x, kk } => with_register(m, x, kk),
        Instruction::AddImm { x, kk } => with_register(m, x, ((m.v[x as int] + kk) % 0x100) as u8),
        Instruction::Move { x, y } => with_register(m, x, m.v[y as int]),
        Instruction::Or { x, y } => with_flagged(m, x, m.v[x as int] | m.v[y as int], 0),
        Instruction::And { x, y } => with_flagged(m, x, m.v[x as int] & m.v[y as int], 0),
        Instruction::Xor { x, y } => with_flagged(m, x, m.v[x as int] ^ m.v[y as int], 0),
        Instruction::Add { x, y } => {
            let sum = m.v[x as int] + m.v[y as int];
            with_flagged(m, x, (sum % 0x100) as u8, flag_of(sum > 0xFF))
        },
        Instruction::Sub { x, y } => {
            let vx = m.v[x as int];
            let vy = m.v[y as int];
            with_flagged(m, x, ((vx - vy) % 0x100) as u8, flag_of(vx > vy))
        },
        Instruction::SubFrom { x, y } => {
            let vx = m.v[x as int];
            let vy = m.v[y as int];
            with_flagged(m, x, ((vy - vx) % 0x100) as u8, flag_of(vy > vx))
        },
        Instruction::ShiftRight { x, y } => {
            let vy = m.v[y as int];
            with_flagged(m, x, vy / 2, vy % 2)
        },
        Instruction::ShiftLeft { x, y } => {
            let vy = m.v[y as int];
            with_flagged(m, x, ((vy * 2) % 0x100) as u8, vy / 0x80)
        },
        Instruction::LoadIndex { addr } => Machine { i: addr, ..m },
        Instruction::JumpOffset { addr } => Machine { pc: (addr + m.v[0]) as u16, ..m },
        Instruction::Random { x, kk } => with_register(m, x, random & kk),
        Instruction::Draw { x, y, n } => drawn(m, x, y, n),
        Instruction::SkipKeyDown { x } => skip_if(m, m.keys[m.v[x as int] as int]),
        Instruction::SkipKeyUp { x } => skip_if(m, !m.keys[m.v[x as int] as int]),
        Instruction::LoadDelay { x } => with_register(m, x, m.delay),
        Instruction::WaitKey { x } => key_awaited(m, x),
        Instruction::SetDelay { x } => Machine { delay: m.v[x as int], ..m },
        Instruction::SetSound { x } => Machine { sound: m.v[x as int], ..m },
        Instruction::AddIndex { x } => Machine { i: (m.i + m.v[x as int]) as u16, ..m },
        Instruction::LoadGlyph { x } => Machine { i: (m.v[x as int] * GLYPH_SIZE) as u16, ..m },
        Instruction::StoreBcd { x } => Machine { memory: memory_with_bcd(m, m.v[x as int]), ..m },
        Instruction::StoreRegs { x } => Machine {
            memory: memory_with_registers(m, x),
            i: (m.i + x + 1) as u16,
            ..m
        },
        Instruction::LoadRegs { x } => Machine {
            v: registers_from_memory(m, x),
            i: (m.i + x + 1) as u16,
            ..m
        },
    }
}

/// Fetch, decode and execute: the machine after the instruction at the
/// program counter, or the fault that it raises.
pub open spec fn step(m: Machine, random: u8) -> Result<Machine, Fault> {
    match fault(m) {
        Some(f) => Err(f),
        None => Ok(executed(advanced(m), decode_spec(opcode_at(m))->0, random)),
    }
}

/// One tick: a [`step`], after which the keys that are down are remembered as
/// the keys of the last tick.
pub open spec fn tick_result(m: Machine, random: u8) -> Result<Machine, Fault> {
    match step(m, random) {
        Ok(next) => Ok(Machine { keys_prev: next.keys, ..next }),
        Err(f) => Err(f),
    }
}

/// Whether a tick that started from `before` with the byte `random`, returned
/// `res` and left `after` did what [`tick_result`] says: it succeeded with the
/// next state, or it returned the fault and left the machine as it was.
pub open spec fn ticked(
    before: Machine,
    random: u8,
    res: Result<(), Fault>,
    after: Machine,
) -> bool {
    match tick_result(before, random) {
        Ok(next) => res is Ok && after == next,
        Err(f) => res == Err::<(), Fault>(f) && after == before,
    }
}

/// Whether the next tick draws a random byte: the instruction at the program
/// counter is `RND`.
pub open spec fn draws_random(m: Machine) -> bool {
    m.pc + 1 < MEMORY_SIZE && family(opcode_at(m)) == 0xC
}

} // verus!
