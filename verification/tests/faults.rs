use chip8::Chip8;
use chip8::Fault;

fn boot(program: &[u8]) -> Chip8 {
    let mut chip = Chip8::init();
    chip.load_rom(&program.to_vec());
    chip
}

fn run(chip: &mut Chip8, ticks: usize) {
    for _ in 0..ticks {
        assert_eq!(chip.tick(), Ok(()));
    }
}

#[test]
fn unknown_opcode_reports_the_word() {
    let mut chip = boot(&[0x60, 0x01, 0xF1, 0xFF]);
    run(&mut chip, 1);
    assert_eq!(chip.pending_fault(), Some(Fault::UnknownOpcode(0xF1FF)));
    assert_eq!(chip.tick(), Err(Fault::UnknownOpcode(0xF1FF)));
    assert_eq!(chip.pc(), 0x202);
    assert_eq!(chip.registers()[0], 1);
    assert_eq!(chip.tick(), Err(Fault::UnknownOpcode(0xF1FF)));
}

#[test]
fn empty_memory_is_an_unknown_opcode() {
    let mut chip = Chip8::init();
    assert_eq!(chip.tick(), Err(Fault::UnknownOpcode(0x0000)));
    assert_eq!(chip.pc(), 0x200);
}

#[test]
fn machine_code_call_is_unknown() {
    let mut chip = boot(&[0x01, 0x23]);
    assert_eq!(chip.tick(), Err(Fault::UnknownOpcode(0x0123)));
}

#[test]
fn return_with_empty_stack_underflows() {
    let mut chip = boot(&[0x00, 0xEE]);
    assert_eq!(chip.pending_fault(), Some(Fault::StackUnderflow));
    assert_eq!(chip.tick(), Err(Fault::StackUnderflow));
    assert_eq!(chip.pc(), 0x200);
    assert_eq!(chip.sp(), 0);
}

#[test]
fn call_overflows_when_the_stack_is_full() {
    // 0x200: CALL 0x200, over and over
    let mut chip = boot(&[0x22, 0x00]);
    for depth in 1..=15u8 {
        assert_eq!(chip.tick(), Ok(()));
        assert_eq!(chip.sp(), depth);
        assert_eq!(chip.stack()[depth as usize], 0x202);
    }
    assert_eq!(chip.pending_fault(), Some(Fault::StackOverflow));
    assert_eq!(chip.tick(), Err(Fault::StackOverflow));
    assert_eq!(chip.sp(), 15);
    assert_eq!(chip.pc(), 0x200);
}

#[test]
fn fetch_beyond_memory_faults() {
    // JP 0xFFF: the second byte of the opcode would lie at 0x1000
    let mut chip = boot(&[0x1F, 0xFF]);
    run(&mut chip, 1);
    assert_eq!(chip.pc(), 0xFFF);
    assert_eq!(chip.tick(), Err(Fault::MemoryOutOfBounds));
    assert_eq!(chip.pc(), 0xFFF);
}

#[test]
fn fetch_of_the_last_word_of_memory_works() {
    // I = 0xFFE, V0 = 0x60, V1 = 0x07, LD [I], V1, JP 0xFFE; then 6007 runs
    let mut chip = boot(&[0xAF, 0xFE, 0x60, 0x60, 0x61, 0x07, 0xF1, 0x55, 0x1F, 0xFE]);
    run(&mut chip, 6);
    assert_eq!(chip.registers()[0], 0x07);
    assert_eq!(chip.pc(), 0x1000);
    assert_eq!(chip.tick(), Err(Fault::MemoryOutOfBounds));
}

#[test]
fn bcd_beyond_memory_faults_and_writes_nothing() {
    // I = 0xFFE, LD B, V0: the ones would lie at 0x1000
    let mut chip = boot(&[0x60, 0xFF, 0xAF, 0xFE, 0xF0, 0x33]);
    run(&mut chip, 2);
    let before = *chip.memory();
    assert_eq!(chip.tick(), Err(Fault::MemoryOutOfBounds));
    assert_eq!(*chip.memory(), before);
    assert_eq!(chip.pc(), 0x204);
}

#[test]
fn bcd_in_the_last_three_bytes_works() {
    let mut chip = boot(&[0x60, 0x7B, 0xAF, 0xFD, 0xF0, 0x33]);
    run(&mut chip, 3);
    assert_eq!(chip.memory()[0xFFD], 1);
    assert_eq!(chip.memory()[0xFFE], 2);
    assert_eq!(chip.memory()[0xFFF], 3);
}

#[test]
fn register_dump_beyond_memory_faults_and_writes_nothing() {
    // I = 0xFFF, LD [I], V1
    let mut chip = boot(&[0x60, 0x11, 0xAF, 0xFF, 0xF1, 0x55]);
    run(&mut chip, 2);
    let before = *chip.memory();
    assert_eq!(chip.tick(), Err(Fault::MemoryOutOfBounds));
    assert_eq!(*chip.memory(), before);
    assert_eq!(chip.index_register(), 0xFFF);
}

#[test]
fn register_load_beyond_memory_faults_and_reads_nothing() {
    // I = 0xFFF, LD V1, [I]
    let mut chip = boot(&[0x60, 0x11, 0xAF, 0xFF, 0xF1, 0x65]);
    run(&mut chip, 2);
    assert_eq!(chip.tick(), Err(Fault::MemoryOutOfBounds));
    assert_eq!(chip.registers()[0], 0x11);
    assert_eq!(chip.index_register(), 0xFFF);
}

#[test]
fn sprite_read_beyond_memory_faults() {
    // I = 0xFFE, DRW V0, V0, 3: the third row would lie at 0x1000
    let mut chip = boot(&[0xAF, 0xFE, 0xD0, 0x03]);
    run(&mut chip, 1);
    assert_eq!(chip.tick(), Err(Fault::MemoryOutOfBounds));
    assert!(!chip.get_screen_update_status());
    assert_eq!(chip.pc(), 0x202);
}

#[test]
fn sprite_rows_below_the_screen_are_not_read() {
    // V1 = 30, I = 0xFFE, DRW V0, V1, 3: only two rows are on the screen
    let mut chip = boot(&[0x61, 0x1E, 0xAF, 0xFE, 0xD0, 0x13]);
    run(&mut chip, 3);
    assert!(chip.get_screen_update_status());
}

#[test]
fn sprite_of_no_rows_reads_nothing() {
    // I = 0xFFF, ADD I, V0 (0xFF) -> 0x10FE, DRW V1, V1, 0
    let mut chip = boot(&[0x60, 0xFF, 0xAF, 0xFF, 0xF0, 0x1E, 0x6F, 0x01, 0xD1, 0x10]);
    run(&mut chip, 5);
    assert_eq!(chip.registers()[0xF], 0);
    assert!(chip.get_screen_update_status());
}

#[test]
fn index_register_does_not_wrap() {
    // I = 0xFFF, then ADD I, V0 with V0 = 0xFF until I would pass 0xFFFF
    let mut program = vec![0x60, 0xFF, 0xAF, 0xFF];
    for _ in 0..241 {
        program.push(0xF0);
        program.push(0x1E);
    }
    let mut chip = boot(&program);
    run(&mut chip, 2);
    // 0xFFF + 240 * 0xFF = 0xFF0F
    run(&mut chip, 240);
    assert_eq!(chip.index_register(), 0xFF0F);
    assert_eq!(chip.tick(), Err(Fault::MemoryOutOfBounds));
    assert_eq!(chip.index_register(), 0xFF0F);
}

#[test]
fn key_instruction_with_no_key_number_faults() {
    let mut chip = boot(&[0x60, 0x10, 0xE0, 0x9E]);
    run(&mut chip, 1);
    assert_eq!(chip.tick(), Err(Fault::InvalidKey));
    assert_eq!(chip.pc(), 0x202);
    let mut chip = boot(&[0x60, 0xFF, 0xE0, 0xA1]);
    run(&mut chip, 1);
    assert_eq!(chip.tick(), Err(Fault::InvalidKey));
}

#[test]
fn fault_does_not_take_the_key_snapshot() {
    // a tick that faults leaves the previous keys alone: the press is still
    // seen as new by the key wait that follows
    let mut chip = boot(&[0x00, 0xEE]);
    chip.key_down(2);
    assert_eq!(chip.tick(), Err(Fault::StackUnderflow));
    assert!(!chip.is_awaiting_release());
}
