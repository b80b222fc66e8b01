use chip8::{decode, Instruction};

#[test]
fn decode_fixed_words() {
    assert_eq!(decode(0x00E0), Some(Instruction::ClearScreen));
    assert_eq!(decode(0x00EE), Some(Instruction::Return));
}

#[test]
fn decode_address_forms() {
    assert_eq!(decode(0x1ABC), Some(Instruction::Jump { addr: 0xABC }));
    assert_eq!(decode(0x2206), Some(Instruction::Call { addr: 0x206 }));
    assert_eq!(decode(0xA123), Some(Instruction::LoadIndex { addr: 0x123 }));
    assert_eq!(decode(0xBFFF), Some(Instruction::JumpOffset { addr: 0xFFF }));
    assert_eq!(decode(0x1000), Some(Instruction::Jump { addr: 0 }));
}

#[test]
fn decode_immediate_forms() {
    assert_eq!(decode(0x3A42), Some(Instruction::SkipEqImm { x: 0xA, kk: 0x42 }));
    assert_eq!(decode(0x4B00), Some(Instruction::SkipNeImm { x: 0xB, kk: 0x00 }));
    assert_eq!(decode(0x6001), Some(Instruction::LoadImm { x: 0, kk: 1 }));
    assert_eq!(decode(0x7FFF), Some(Instruction::AddImm { x: 0xF, kk: 0xFF }));
    assert_eq!(decode(0xC37F), Some(Instruction::Random { x: 3, kk: 0x7F }));
}

#[test]
fn decode_register_forms() {
    assert_eq!(decode(0x5120), Some(Instruction::SkipEqReg { x: 1, y: 2 }));
    assert_eq!(decode(0x9AB0), Some(Instruction::SkipNeReg { x: 0xA, y: 0xB }));
    assert_eq!(decode(0x8120), Some(Instruction::Move { x: 1, y: 2 }));
    assert_eq!(decode(0x8121), Some(Instruction::Or { x: 1, y: 2 }));
    assert_eq!(decode(0x8122), Some(Instruction::And { x: 1, y: 2 }));
    assert_eq!(decode(0x8123), Some(Instruction::Xor { x: 1, y: 2 }));
    assert_eq!(decode(0x8014), Some(Instruction::Add { x: 0, y: 1 }));
    assert_eq!(decode(0x8015), Some(Instruction::Sub { x: 0, y: 1 }));
    assert_eq!(decode(0x8126), Some(Instruction::ShiftRight { x: 1, y: 2 }));
    assert_eq!(decode(0x8127), Some(Instruction::SubFrom { x: 1, y: 2 }));
    assert_eq!(decode(0x8FEE), Some(Instruction::ShiftLeft { x: 0xF, y: 0xE }));
    assert_eq!(decode(0xD125), Some(Instruction::Draw { x: 1, y: 2, n: 5 }));
    assert_eq!(decode(0xDFF0), Some(Instruction::Draw { x: 0xF, y: 0xF, n: 0 }));
}

#[test]
fn decode_key_and_misc_forms() {
    assert_eq!(decode(0xE39E), Some(Instruction::SkipKeyDown { x: 3 }));
    assert_eq!(decode(0xE3A1), Some(Instruction::SkipKeyUp { x: 3 }));
    assert_eq!(decode(0xF407), Some(Instruction::LoadDelay { x: 4 }));
    assert_eq!(decode(0xF00A), Some(Instruction::WaitKey { x: 0 }));
    assert_eq!(decode(0xF415), Some(Instruction::SetDelay { x: 4 }));
    assert_eq!(decode(0xF418), Some(Instruction::SetSound { x: 4 }));
    assert_eq!(decode(0xF41E), Some(Instruction::AddIndex { x: 4 }));
    assert_eq!(decode(0xFA29), Some(Instruction::LoadGlyph { x: 0xA }));
    assert_eq!(decode(0xF433), Some(Instruction::StoreBcd { x: 4 }));
    assert_eq!(decode(0xF455), Some(Instruction::StoreRegs { x: 4 }));
    assert_eq!(decode(0xFF65), Some(Instruction::LoadRegs { x: 0xF }));
}

#[test]
fn decode_rejects_words_that_are_no_instruction() {
    for op in [
        0x0000u16, 0x00E1, 0x00EF, 0x0123, 0x0FFF, 0x5121, 0x512F, 0x8128, 0x812D, 0x812F, 0x9121,
        0xE09F, 0xE0A0, 0xE000, 0xE19E + 1, 0xF000, 0xF008, 0xF00B, 0xF016, 0xF01F, 0xF030, 0xF056,
        0xF066, 0xF0FF,
    ] {
        assert_eq!(decode(op), None, "{:04X}", op);
    }
}

#[test]
fn decode_counts_of_each_family() {
    let mut known = [0usize; 16];
    for op in 0..=0xFFFFu16 {
        if decode(op).is_some() {
            known[(op >> 12) as usize] += 1;
        }
    }
    let expected = [
        2, 4096, 4096, 4096, 4096, 256, 4096, 4096, 9 * 256, 256, 4096, 4096, 4096, 4096, 2 * 16,
        9 * 16,
    ];
    assert_eq!(known, expected);
}

#[test]
fn decoded_operands_fit_their_fields() {
    for op in 0..=0xFFFFu16 {
        match decode(op) {
            Some(Instruction::Draw { x, y, n }) => {
                assert_eq!(x, ((op >> 8) & 0xF) as usize);
                assert_eq!(y, ((op >> 4) & 0xF) as usize);
                assert_eq!(n, (op & 0xF) as u8);
            }
            Some(Instruction::LoadImm { x, kk }) => {
                assert_eq!(x, ((op >> 8) & 0xF) as usize);
                assert_eq!(kk, (op & 0xFF) as u8);
            }
            Some(Instruction::Call { addr }) => assert_eq!(addr, op & 0xFFF),
            _ => {}
        }
    }
}
