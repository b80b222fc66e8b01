//! The instruction set and its decoder.
//!
//! An opcode is a 16-bit word made of four nibbles. The first nibble selects
//! the family; families `0`, `8`, `E` and `F` are told apart by their trailing
//! nibbles as well. [`encode`] gives the word of every instruction, and
//! [`decode`] is its inverse on the words that are instructions.

use vstd::prelude::*;

verus! {

/// One decoded instruction. `x` and `y` name general registers, `kk` is an
/// immediate byte, `addr` a 12-bit address and `n` a sprite height.
#[derive(Clone, Copy, Debug, PartialEq, Eq, Structural)]
pub enum Instruction {
    /// `00E0` CLS
    ClearScreen,
    /// `00EE` RET
    Return,
    /// `1nnn` JP nnn
    Jump { addr: u16 },
    /// `2nnn` CALL nnn
    Call { addr: u16 },
    /// `3xkk` SE Vx, kk
    SkipEqImm { x: usize, kk: u8 },
    /// `4xkk` SNE Vx, kk
    SkipNeImm { x: usize, kk: u8 },
    /// `5xy0` SE Vx, Vy
    SkipEqReg { x: usize, y: usize },
    /// `6xkk` LD Vx, kk
    LoadImm { x: usize, kk: u8 },
    /// `7xkk` ADD Vx, kk
    AddImm { x: usize, kk: u8 },
    /// `8xy0` LD Vx, Vy
    Move { x: usize, y: usize },
    /// `8xy1` OR Vx, Vy
    Or { x: usize, y: usize },
    /// `8xy2` AND Vx, Vy
    And { x: usize, y: usize },
    /// `8xy3` XOR Vx, Vy
    Xor { x: usize, y: usize },
    /// `8xy4` ADD Vx, Vy
    Add { x: usize, y: usize },
    /// `8xy5` SUB Vx, Vy
    Sub { x: usize, y: usize },
    /// `8xy6` SHR Vx, Vy
    ShiftRight { x: usize, y: usize },
    /// `8xy7` SUBN Vx, Vy
    SubFrom { x: usize, y: usize },
    /// `8xyE` SHL Vx, Vy
    ShiftLeft { x: usize, y: usize },
    /// `9xy0` SNE Vx, Vy
    SkipNeReg { x: usize, y: usize },
    /// `Annn` LD I, nnn
    LoadIndex { addr: u16 },
    /// `Bnnn` JP V0, nnn
    JumpOffset { addr: u16 },
    /// `Cxkk` RND Vx, kk
    Random { x: usize, kk: u8 },
    /// `Dxyn` DRW Vx, Vy, n
    Draw { x: usize, y: usize, n: u8 },
    /// `Ex9E` SKP Vx
    SkipKeyDown { x: usize },
    /// `ExA1` SKNP Vx
    SkipKeyUp { x: usize },
    /// `Fx07` LD Vx, DT
    LoadDelay { x: usize },
    /// `Fx0A` LD Vx, K
    WaitKey { x: usize },
    /// `Fx15` LD DT, Vx
    SetDelay { x: usize },
    /// `Fx18` LD ST, Vx
    SetSound { x: usize },
    /// `Fx1E` ADD I, Vx
    AddIndex { x: usize },
    /// `Fx29` LD F, Vx
    LoadGlyph { x: usize },
    /// `Fx33` LD B, Vx
    StoreBcd { x: usize },
    /// `Fx55` LD [I], Vx
    StoreRegs { x: usize },
    /// `Fx65` LD Vx, [I]
    LoadRegs { x: usize },
}

impl Instruction {
    /// Every operand fits its field: register numbers and the sprite height
    /// in a nibble, addresses in twelve bits.
    pub open spec fn wf(self) -> bool {
        match self {
            Instruction::ClearScreen | Instruction::Return => true,
            Instruction::Jump { addr }
            | Instruction::Call { addr }
            | Instruction::LoadIndex { addr }
            | Instruction::JumpOffset { addr } => addr < 0x1000,
            Instruction::SkipEqImm { x, .. }
            | Instruction::SkipNeImm { x, .. }
            | Instruction::LoadImm { x, .. }
            | Instruction::AddImm { x, .. }
            | Instruction::Random { x, .. }
            | Instruction::SkipKeyDown { x }
            | Instruction::SkipKeyUp { x }
            | Instruction::LoadDelay { x }
            | Instruction::WaitKey { x }
            | Instruction::SetDelay { x }
            | Instruction::SetSound { x }
            | Instruction::AddIndex { x }
            | Instruction::LoadGlyph { x }
            | Instruction::StoreBcd { x }
            | Instruction::StoreRegs { x }
            | Instruction::LoadRegs { x } => x < 16,
            Instruction::SkipEqReg { x, y }
            | Instruction::Move { x, y }
            | Instruction::Or { x, y }
            | Instruction::And { x, y }
            | Instruction::Xor { x, y }
            | Instruction::Add { x, y }
            | Instruction::Sub { x, y }
            | Instruction::ShiftRight { x, y }
            | Instruction::SubFrom { x, y }
            | Instruction::ShiftLeft { x, y }
            | Instruction::SkipNeReg { x, y } => x < 16 && y < 16,
            Instruction::Draw { x, y, n } => x < 16 && y < 16 && n < 16,
        }
    }
}

/// The word `a_kk` with register nibble `x`: `a` in the top nibble, `x` below
/// it and `kk` in the low byte.
pub open spec fn word_xkk(a: int, x: usize, kk: int) -> int {
    a * 0x1000 + x * 0x100 + kk
}

/// The word with the four nibbles `a`, `x`, `y`, `n`, most significant first.
pub open spec fn word_xyn(a: int, x: usize, y: usize, n: int) -> int {
    a * 0x1000 + x * 0x100 + y * 0x10 + n
}

/// The opcode of an instruction, as the assembler would write it.
pub open spec fn encode(inst: Instruction) -> int {
    match inst {
        Instruction::ClearScreen => 0x00E0,
        Instruction::Return => 0x00EE,
        Instruction::Jump { addr } => 0x1000 + addr,
        Instruction::Call { addr } => 0x2000 + addr,
        Instruction::SkipEqImm { x, kk } => word_xkk(0x3, x, kk as int),
        Instruction::SkipNeImm { x, kk } => word_xkk(0x4, x, kk as int),
        Instruction::SkipEqReg { x, y } => word_xyn(0x5, x, y, 0x0),
        Instruction::LoadImm { x, kk } => word_xkk(0x6, x, kk as int),
        Instruction::AddImm { x, kk } => word_xkk(0x7, x, kk as int),
        Instruction::Move { x, y } => word_xyn(0x8, x, y, 0x0),
        Instruction::Or { x, y } => word_xyn(0x8, x, y, 0x1),
        Instruction::And { x, y } => word_xyn(0x8, x, y, 0x2),
        Instruction::Xor { x, y } => word_xyn(0x8, x, y, 0x3),
        Instruction::Add { x, y } => word_xyn(0x8, x, y, 0x4),
        Instruction::Sub { x, y } => word_xyn(0x8, x, y, 0x5),
        Instruction::ShiftRight { x, y } => word_xyn(0x8, x, y, 0x6),
        Instruction::SubFrom { x, y } => word_xyn(0x8, x, y, 0x7),
        Instruction::ShiftLeft { x, y } => word_xyn(0x8, x, y, 0xE),
        Instruction::SkipNeReg { x, y } => word_xyn(0x9, x, y, 0x0),
        Instruction::LoadIndex { addr } => 0xA000 + addr,
        Instruction::JumpOffset { addr } => 0xB000 + addr,
        Instruction::Random { x, kk } => word_xkk(0xC, x, kk as int),
        Instruction::Draw { x, y, n } => word_xyn(0xD, x, y, n as int),
        Instruction::SkipKeyDown { x } => word_xkk(0xE, x, 0x9E),
        Instruction::SkipKeyUp { x } => word_xkk(0xE, x, 0xA1),
        Instruction::LoadDelay { x } => word_xkk(0xF, x, 0x07),
        Instruction::WaitKey { x } => word_xkk(0xF, x, 0x0A),
        Instruction::SetDelay { x } => word_xkk(0xF, x, 0x15),
        Instruction::SetSound { x } => word_xkk(0xF, x, 0x18),
        Instruction::AddIndex { x } => word_xkk(0xF, x, 0x1E),
        Instruction::LoadGlyph { x } => word_xkk(0xF, x, 0x29),
        Instruction::StoreBcd { x } => word_xkk(0xF, x, 0x33),
        Instruction::StoreRegs { x } => word_xkk(0xF, x, 0x55),
        Instruction::LoadRegs { x } => word_xkk(0xF, x, 0x65),
    }
}

/// The leading nibble of an opcode: its family.
pub open spec fn family(op: u16) -> int {
    op as int / 0x1000
}

/// The second nibble: the register `x`.
pub open spec fn field_x(op: u16) -> usize {
    ((op as int / 0x100) % 0x10) as usize
}

/// The third nibble: the register `y`.
pub open spec fn field_y(op: u16) -> usize {
    ((op as int / 0x10) % 0x10) as usize
}

/// The last nibble: the sprite height `n`, or the variant within a family.
pub open spec fn field_n(op: u16) -> u8 {
    (op as int % 0x10) as u8
}

/// The low byte: the immediate `kk`.
pub open spec fn field_kk(op: u16) -> u8 {
    (op as int % 0x100) as u8
}

/// The low twelve bits: the address `nnn`.
pub open spec fn field_nnn(op: u16) -> u16 {
    (op as int % 0x1000) as u16
}

/// Family `8`: arithmetic and logic between two registers, chosen by the last
/// nibble.
pub open spec fn decode_alu(op: u16) -> Option<Instruction> {
    let x = field_x(op);
    let y = field_y(op);
    let n = field_n(op);
    if n == 0x0 {
        Some(Instruction::Move { x, y })
    } else if n == 0x1 {
        Some(Instruction::Or { x, y })
    } else if n == 0x2 {
        Some(Instruction::And { x, y })
    } else if n == 0x3 {
        Some(Instruction::Xor { x, y })
    } else if n == 0x4 {
        Some(Instruction::Add { x, y })
    } else if n == 0x5 {
        Some(Instruction::Sub { x, y })
    } else if n == 0x6 {
        Some(Instruction::ShiftRight { x, y })
    } else if n == 0x7 {
        Some(Instruction::SubFrom { x, y })
    } else if n == 0xE {
        Some(Instruction::ShiftLeft { x, y })
    } else {
        None
    }
}

/// Family `F`: timers, index register and memory transfers, chosen by the low
/// byte.
pub open spec fn decode_misc(op: u16) -> Option<Instruction> {
    let x = field_x(op);
    let kk = field_kk(op);
    if kk == 0x07 {
        Some(Instruction::LoadDelay { x })
    } else if kk == 0x0A {
        Some(Instruction::WaitKey { x })
    } else if kk == 0x15 {
        Some(Instruction::SetDelay { x })
    } else if kk == 0x18 {
        Some(Instruction::SetSound { x })
    } else if kk == 0x1E {
        Some(Instruction::AddIndex { x })
    } else if kk == 0x29 {
        Some(Instruction::LoadGlyph { x })
    } else if kk == 0x33 {
        Some(Instruction::StoreBcd { x })
    } else if kk == 0x55 {
        Some(Instruction::StoreRegs { x })
    } else if kk == 0x65 {
        Some(Instruction::LoadRegs { x })
    } else {
        None
    }
}

/// The instruction that an opcode stands for, or `None` where it stands for
/// none.
pub open spec fn decode_spec(op: u16) -> Option<Instruction> {
    let a = family(op);
    let x = field_x(op);
    let y = field_y(op);
    let n = field_n(op);
    let kk = field_kk(op);
    let addr = field_nnn(op);
    if a == 0x0 {
        if op == 0x00E0 {
            Some(Instruction::ClearScreen)
        } else if op == 0x00EE {
            Some(Instruction::Return)
        } else {
            None
        }
    } else if a == 0x1 {
        Some(Instruction::Jump { addr })
    } else if a == 0x2 {
        Some(Instruction::Call { addr })
    } else if a == 0x3 {
        Some(Instruction::SkipEqImm { x, kk })
    } else if a == 0x4 {
        Some(Instruction::SkipNeImm { x, kk })
    } else if a == 0x5 {
        if n == 0 {
            Some(Instruction::SkipEqReg { x, y })
        } else {
            None
        }
    } else if a == 0x6 {
        Some(Instruction::LoadImm { x, kk })
    } else if a == 0x7 {
        Some(Instruction::AddImm { x, kk })
    } else if a == 0x8 {
        decode_alu(op)
    } else if a == 0x9 {
        if n == 0 {
            Some(Instruction::SkipNeReg { x, y })
        } else {
            None
        }
    } else if a == 0xA {
        Some(Instruction::LoadIndex { addr })
    } else if a == 0xB {
        Some(Instruction::JumpOffset { addr })
    } else if a == 0xC {
        Some(Instruction::Random { x, kk })
    } else if a == 0xD {
        Some(Instruction::Draw { x, y, n })
    } else if a == 0xE {
        if kk == 0x9E {
            Some(Instruction::SkipKeyDown { x })
        } else if kk == 0xA1 {
            Some(Instruction::SkipKeyUp { x })
        } else {
            None
        }
    } else {
        decode_misc(op)
    }
}

/// Masks and shifts pick the same fields as division and remainder.
proof fn lemma_fields(op: u16)
    by (bit_vector)
    ensures
        (op & 0xF000) >> 12 == op / 0x1000,
        (op & 0x0F00) >> 8 == (op / 0x100) % 0x10,
        (op & 0x00F0) >> 4 == (op / 0x10) % 0x10,
        op & 0x000F == op % 0x10,
        op & 0x0FFF == op % 0x1000,
        op & 0x00FF == op % 0x100,
{
}

/// Splits an opcode into its nibbles and finds the instruction that it
/// stands for. `None` means that the word is no instruction.
pub fn decode(op: u16) -> (inst: Option<Instruction>)
    ensures
        inst == decode_spec(op),
        inst matches Some(i) ==> i.wf() && encode(i) == op,
        inst is None ==> forall|i: Instruction| i.wf() ==> encode(i) != op,
{
    proof {
        lemma_fields(op);
        lemma_decode_inverts_encode(op);
    }
    let nibbles: (u16, u16, u16, u16) = (
        (op & 0xF000) >> 12,
        (op & 0x0F00) >> 8,
        (op & 0x00F0) >> 4,
        op & 0x000F,
    );
    let addr: u16 = op & 0x0FFF;
    let kk: u8 = (op & 0x00FF) as u8;
    let x: usize = nibbles.1 as usize;
    let y: usize = nibbles.2 as usize;
    let n: u8 = nibbles.3 as u8;

    match nibbles {
        (0x0, 0x0, 0xE, 0x0) => Some(Instruction::ClearScreen),
        (0x0, 0x0, 0xE, 0xE) => Some(Instruction::Return),
        (0x1, _, _, _) => Some(Instruction::Jump { addr }),
        (0x2, _, _, _) => Some(Instruction::Call { addr }),
        (0x3, _, _, _) => Some(Instruction::SkipEqImm { x, kk }),
        (0x4, _, _, _) => Some(Instruction::SkipNeImm { x, kk }),
        (0x5, _, _, 0x0) => Some(Instruction::SkipEqReg { x, y }),
        (0x6, _, _, _) => Some(Instruction::LoadImm { x, kk }),
        (0x7, _, _, _) => Some(Instruction::AddImm { x, kk }),
        (0x8, _, _, 0x0) => Some(Instruction::Move { x, y }),
        (0x8, _, _, 0x1) => Some(Instruction::Or { x, y }),
        (0x8, _, _, 0x2) => Some(Instruction::And { x, y }),
        (0x8, _, _, 0x3) => Some(Instruction::Xor { x, y }),
        (0x8, _, _, 0x4) => Some(Instruction::Add { x, y }),
        (0x8, _, _, 0x5) => Some(Instruction::Sub { x, y }),
        (0x8, _, _, 0x6) => Some(Instruction::ShiftRight { x, y }),
        (0x8, _, _, 0x7) => Some(Instruction::SubFrom { x, y }),
        (0x8, _, _, 0xE) => Some(Instruction::ShiftLeft { x, y }),
        (0x9, _, _, 0x0) => Some(Instruction::SkipNeReg { x, y }),
        (0xA, _, _, _) => Some(Instruction::LoadIndex { addr }),
        (0xB, _, _, _) => Some(Instruction::JumpOffset { addr }),
        (0xC, _, _, _) => Some(Instruction::Random { x, kk }),
        (0xD, _, _, _) => Some(Instruction::Draw { x, y, n }),
        (0xE, _, 0x9, 0xE) => Some(Instruction::SkipKeyDown { x }),
        (0xE, _, 0xA, 0x1) => Some(Instruction::SkipKeyUp { x }),
        (0xF, _, 0x0, 0x7) => Some(Instruction::LoadDelay { x }),
        (0xF, _, 0x0, 0xA) => Some(Instruction::WaitKey { x }),
        (0xF, _, 0x1, 0x5) => Some(Instruction::SetDelay { x }),
        (0xF, _, 0x1, 0x8) => Some(Instruction::SetSound { x }),
        (0xF, _, 0x1, 0xE) => Some(Instruction::AddIndex { x }),
        (0xF, _, 0x2, 0x9) => Some(Instruction::LoadGlyph { x }),
        (0xF, _, 0x3, 0x3) => Some(Instruction::StoreBcd { x }),
        (0xF, _, 0x5, 0x5) => Some(Instruction::StoreRegs { x }),
        (0xF, _, 0x6, 0x5) => Some(Instruction::LoadRegs { x }),
        (_, _, _, _) => None,
    }
}

/// The fields of a word that was put together from four nibbles are those
/// nibbles, on machine integers.
proof fn lemma_word_fields_bits(a: u32, x: u32, y: u32, n: u32)
    by (bit_vector)
    requires
        a < 16,
        x < 16,
        y < 16,
        n < 16,
    ensures
        ({
            let w = (a * 0x1000 + x * 0x100 + y * 0x10 + n) as u32;
            &&& w < 0x10000
            &&& w / 0x1000 == a
            &&& (w / 0x100) % 0x10 == x
            &&& (w / 0x10) % 0x10 == y
            &&& w % 0x10 == n
            &&& w % 0x100 == y * 0x10 + n
            &&& w % 0x1000 == x * 0x100 + y * 0x10 + n
        }),
{
}

/// The fields of a word that was put together from four nibbles are those
/// nibbles.
proof fn lemma_word_fields(a: int, x: int, y: int, n: int)
    requires
        0 <= a < 16,
        0 <= x < 16,
        0 <= y < 16,
        0 <= n < 16,
    ensures
        ({
            let w = a * 0x1000 + x * 0x100 + y * 0x10 + n;
            &&& 0 <= w < 0x10000
            &&& w / 0x1000 == a
            &&& (w / 0x100) % 0x10 == x
            &&& (w / 0x10) % 0x10 == y
            &&& w % 0x10 == n
            &&& w % 0x100 == y * 0x10 + n
            &&& w % 0x1000 == x * 0x100 + y * 0x10 + n
        }),
{
    lemma_word_fields_bits(a as u32, x as u32, y as u32, n as u32);
}

/// A word is the sum of its four nibbles, each at its place, on machine
/// integers.
proof fn lemma_word_split_bits(op: u16)
    by (bit_vector)
    ensures
        op == (op / 0x1000) * 0x1000 + ((op / 0x100) % 0x10) * 0x100 + ((op / 0x10) % 0x10) * 0x10
            + op % 0x10,
        op % 0x100 == ((op / 0x10) % 0x10) * 0x10 + op % 0x10,
        op % 0x1000 == ((op / 0x100) % 0x10) * 0x100 + ((op / 0x10) % 0x10) * 0x10 + op % 0x10,
        op / 0x1000 < 16,
        (op / 0x100) % 0x10 < 16,
        (op / 0x10) % 0x10 < 16,
        op % 0x10 < 16,
{
}

/// A word is the sum of its four nibbles, each at its place.
proof fn lemma_word_split(op: u16)
    ensures
        op == family(op) * 0x1000 + field_x(op) * 0x100 + field_y(op) * 0x10 + field_n(op),
        field_kk(op) == field_y(op) * 0x10 + field_n(op),
        field_nnn(op) == field_x(op) * 0x100 + field_y(op) * 0x10 + field_n(op),
        0 <= family(op) < 16,
        field_x(op) < 16,
        field_y(op) < 16,
        field_n(op) < 16,
{
    lemma_word_split_bits(op);
}

/// Decoding an instruction's own opcode gives the instruction back.
pub proof fn lemma_decode_of_encode(inst: Instruction)
    requires
        inst.wf(),
    ensures
        0 <= encode(inst) < 0x10000,
        decode_spec(encode(inst) as u16) == Some(inst),
{
    let w = encode(inst);
    match inst {
        Instruction::ClearScreen | Instruction::Return => {},
        Instruction::Jump { addr }
        | Instruction::Call { addr }
        | Instruction::LoadIndex { addr }
        | Instruction::JumpOffset { addr } => {
            lemma_word_split(addr);
            let a = (w - addr) / 0x1000;
            lemma_word_fields(a, field_x(addr) as int, field_y(addr) as int, field_n(addr) as int);
        },
        Instruction::SkipEqImm { x, kk }
        | Instruction::SkipNeImm { x, kk }
        | Instruction::LoadImm { x, kk }
        | Instruction::AddImm { x, kk }
        | Instruction::Random { x, kk } => {
            let a = (w - x * 0x100 - kk) / 0x1000;
            lemma_word_fields(a, x as int, kk as int / 0x10, kk as int % 0x10);
        },
        Instruction::SkipKeyDown { x }
        | Instruction::SkipKeyUp { x }
        | Instruction::LoadDelay { x }
        | Instruction::WaitKey { x }
        | Instruction::SetDelay { x }
        | Instruction::SetSound { x }
        | Instruction::AddIndex { x }
        | Instruction::LoadGlyph { x }
        | Instruction::StoreBcd { x }
        | Instruction::StoreRegs { x }
        | Instruction::LoadRegs { x } => {
            let a = w / 0x1000;
            let kk = w - a * 0x1000 - x * 0x100;
            lemma_word_fields(a, x as int, kk / 0x10, kk % 0x10);
        },
        Instruction::SkipEqReg { x, y }
        | Instruction::Move { x, y }
        | Instruction::Or { x, y }
        | Instruction::And { x, y }
        | Instruction::Xor { x, y }
        | Instruction::Add { x, y }
        | Instruction::Sub { x, y }
        | Instruction::ShiftRight { x, y }
        | Instruction::SubFrom { x, y }
        | Instruction::ShiftLeft { x, y }
        | Instruction::SkipNeReg { x, y } => {
            let a = w / 0x1000;
            let n = w - a * 0x1000 - x * 0x100 - y * 0x10;
            lemma_word_fields(a, x as int, y as int, n);
        },
        Instruction::Draw { x, y, n } => {
            lemma_word_fields(0xD, x as int, y as int, n as int);
        },
    }
}

/// What the decoder returns is a well-formed instruction whose opcode is the
/// word that was decoded, and it returns `None` only for words that no
/// well-formed instruction encodes to.
pub proof fn lemma_decode_inverts_encode(op: u16)
    ensures
        decode_spec(op) matches Some(i) ==> i.wf() && encode(i) == op,
        decode_spec(op) is None ==> forall|i: Instruction| i.wf() ==> encode(i) != op,
{
    lemma_word_split(op);
    if decode_spec(op) is None {
        assert forall|i: Instruction| i.wf() implies encode(i) != op by {
            if encode(i) == op {
                lemma_decode_of_encode(i);
            }
        }
    }
}

} // verus!
