use chip8::{Chip8, Fault, FONT_SET, MAX_ROM_SIZE, MEMORY_SIZE, PROGRAM_START};

#[test]
fn init_state() {
    let mut chip = Chip8::init();
    assert_eq!(chip.pc(), 0x200);
    assert_eq!(chip.sp(), 0);
    assert_eq!(chip.index_register(), 0);
    assert_eq!(chip.delay_timer(), 0);
    assert_eq!(chip.sound_timer(), 0);
    assert_eq!(*chip.registers(), [0u8; 16]);
    assert_eq!(*chip.stack(), [0u16; 16]);
    assert!(!chip.is_awaiting_release());
    assert!(!chip.should_beep());
    assert!(!chip.get_screen_update_status());
    for row in chip.get_video_memory().iter() {
        assert_eq!(*row, [false; 64]);
    }
}

#[test]
fn init_loads_font_and_zeroes_the_rest() {
    let chip = Chip8::init();
    assert_eq!(chip.memory().len(), 4096);
    assert_eq!(chip.memory()[..80], FONT_SET[..]);
    assert!(chip.memory()[80..].iter().all(|b| *b == 0));
}

#[test]
fn font_glyphs() {
    assert_eq!(FONT_SET.len(), 80);
    assert_eq!(FONT_SET[..5], [0xF0, 0x90, 0x90, 0x90, 0xF0]);
    assert_eq!(FONT_SET[50..55], [0xF0, 0x90, 0xF0, 0x90, 0x90]);
    assert_eq!(FONT_SET[75..], [0xF0, 0x80, 0xF0, 0x80, 0x80]);
}

#[test]
fn constants() {
    assert_eq!(MEMORY_SIZE, 4096);
    assert_eq!(PROGRAM_START, 0x200);
    assert_eq!(MAX_ROM_SIZE, 3584);
    assert_eq!(PROGRAM_START as usize + MAX_ROM_SIZE, MEMORY_SIZE);
}

#[test]
fn load_rom_copies_verbatim() {
    let rom: Vec<u8> = (0..=255u8).collect();
    let mut chip = Chip8::init();
    chip.load_rom(&rom);
    assert_eq!(chip.memory()[0x200..0x300], rom[..]);
    assert_eq!(chip.memory()[..80], FONT_SET[..]);
    assert!(chip.memory()[80..0x200].iter().all(|b| *b == 0));
    assert!(chip.memory()[0x300..].iter().all(|b| *b == 0));
    assert_eq!(chip.pc(), 0x200);
}

#[test]
fn load_rom_of_the_largest_size() {
    let rom: Vec<u8> = (0..MAX_ROM_SIZE).map(|k| (k % 251) as u8 + 1).collect();
    let mut chip = Chip8::init();
    chip.load_rom(&rom);
    assert_eq!(chip.memory()[0x200..], rom[..]);
    assert_eq!(chip.memory()[0xFFF], ((MAX_ROM_SIZE - 1) % 251) as u8 + 1);
    assert_eq!(chip.memory()[..80], FONT_SET[..]);
}

#[test]
fn load_empty_rom_changes_nothing() {
    let mut chip = Chip8::init();
    chip.load_rom(&Vec::new());
    assert_eq!(*chip.memory(), *Chip8::init().memory());
}

#[test]
fn load_rom_does_not_alias_the_buffer() {
    let mut rom = vec![0x60, 0x05];
    let mut chip = Chip8::init();
    chip.load_rom(&rom);
    rom[1] = 0x09;
    assert_eq!(chip.tick(), Ok(()));
    assert_eq!(chip.registers()[0], 5);
}

#[test]
fn second_rom_overwrites_only_its_length() {
    let mut chip = Chip8::init();
    chip.load_rom(&vec![1, 2, 3, 4]);
    chip.load_rom(&vec![9, 8]);
    assert_eq!(chip.memory()[0x200..0x204], [9, 8, 3, 4]);
}

#[test]
fn timers_count_down_to_zero_and_stay() {
    // V0 = 5, DT = V0
    let mut chip = Chip8::init();
    chip.load_rom(&vec![0x60, 0x05, 0xF0, 0x15]);
    assert_eq!(chip.tick(), Ok(()));
    assert_eq!(chip.tick(), Ok(()));
    assert_eq!(chip.delay_timer(), 5);
    for left in [4u8, 3, 2, 1, 0] {
        chip.update_timers();
        assert_eq!(chip.delay_timer(), left);
    }
    chip.update_timers();
    assert_eq!(chip.delay_timer(), 0);
    assert_eq!(chip.sound_timer(), 0);
}

#[test]
fn timers_are_independent() {
    // V0 = 2, DT = V0, V0 = 4, ST = V0
    let mut chip = Chip8::init();
    chip.load_rom(&vec![0x60, 0x02, 0xF0, 0x15, 0x60, 0x04, 0xF0, 0x18]);
    for _ in 0..4 {
        assert_eq!(chip.tick(), Ok(()));
    }
    chip.update_timers();
    assert_eq!((chip.delay_timer(), chip.sound_timer()), (1, 3));
    chip.update_timers();
    assert_eq!((chip.delay_timer(), chip.sound_timer()), (0, 2));
    chip.update_timers();
    assert_eq!((chip.delay_timer(), chip.sound_timer()), (0, 1));
    chip.update_timers();
    assert_eq!((chip.delay_timer(), chip.sound_timer()), (0, 0));
}

#[test]
fn beep_while_sound_timer_runs() {
    let mut chip = Chip8::init();
    chip.load_rom(&vec![0x60, 0x02, 0xF0, 0x18]);
    assert!(!chip.should_beep());
    assert_eq!(chip.tick(), Ok(()));
    assert_eq!(chip.tick(), Ok(()));
    assert!(chip.should_beep());
    assert_eq!(chip.sound_timer(), 2);
    chip.update_timers();
    assert!(chip.should_beep());
    chip.update_timers();
    assert!(!chip.should_beep());
}

#[test]
fn timers_from_the_largest_value() {
    let mut chip = Chip8::init();
    chip.load_rom(&vec![0x60, 0xFF, 0xF0, 0x15]);
    assert_eq!(chip.tick(), Ok(()));
    assert_eq!(chip.tick(), Ok(()));
    for _ in 0..254 {
        chip.update_timers();
    }
    assert_eq!(chip.delay_timer(), 1);
    chip.update_timers();
    assert_eq!(chip.delay_timer(), 0);
}

#[test]
fn reset_returns_to_power_on() {
    let mut chip = Chip8::init();
    chip.load_rom(&vec![
        0x60, 0x07, 0xF0, 0x15, 0xF0, 0x18, 0xA0, 0x00, 0xD0, 0x05, 0x22, 0x0C, 0xF0, 0x0A,
    ]);
    for _ in 0..6 {
        assert_eq!(chip.tick(), Ok(()));
    }
    chip.key_down(4);
    assert_eq!(chip.tick(), Ok(()));
    assert!(chip.is_awaiting_release());
    assert!(chip.should_beep());
    assert_eq!(chip.sp(), 1);
    chip.reset();
    let fresh = Chip8::init();
    assert_eq!(*chip.memory(), *fresh.memory());
    assert_eq!(*chip.get_video_memory(), *fresh.get_video_memory());
    assert_eq!(*chip.registers(), [0u8; 16]);
    assert_eq!(*chip.stack(), [0u16; 16]);
    assert_eq!(chip.pc(), 0x200);
    assert_eq!(chip.sp(), 0);
    assert_eq!(chip.index_register(), 0);
    assert_eq!(chip.delay_timer(), 0);
    assert_eq!(chip.sound_timer(), 0);
    assert!(!chip.is_awaiting_release());
    assert!(!chip.get_screen_update_status());
    // the keypad is cleared too, and the program is gone
    assert_eq!(chip.tick(), Err(Fault::UnknownOpcode(0)));
    chip.load_rom(&vec![0x60, 0x04, 0xE0, 0x9E]);
    assert_eq!(chip.tick(), Ok(()));
    assert_eq!(chip.tick(), Ok(()));
    assert_eq!(chip.pc(), 0x204);
}

#[test]
fn pending_fault_is_none_before_a_good_instruction() {
    let mut chip = Chip8::init();
    chip.load_rom(&vec![0x60, 0x01]);
    assert_eq!(chip.pending_fault(), None);
    assert_eq!(chip.tick(), Ok(()));
    assert_eq!(chip.pending_fault(), Some(Fault::UnknownOpcode(0)));
}
