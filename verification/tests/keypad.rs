use chip8::{process_keycode, Chip8};

fn boot(program: &[u8]) -> Chip8 {
    let mut chip = Chip8::init();
    chip.load_rom(&program.to_vec());
    chip
}

#[test]
fn key_wait_needs_press_then_release() {
    // 0x200: LD V0, K ; 0x202: LD V0, 1
    let mut chip = boot(&[0xF0, 0x0A, 0x60, 0x01]);
    chip.key_down(3);
    assert_eq!(chip.tick(), Ok(()));
    assert_eq!(chip.pc(), 0x200);
    assert!(chip.is_awaiting_release());
    chip.key_up(3);
    assert_eq!(chip.tick(), Ok(()));
    assert_eq!(chip.registers()[0], 3);
    assert_eq!(chip.pc(), 0x202);
    assert!(!chip.is_awaiting_release());
}

#[test]
fn key_wait_blocks_while_nothing_happens() {
    let mut chip = boot(&[0xF5, 0x0A]);
    for _ in 0..10 {
        assert_eq!(chip.tick(), Ok(()));
        assert_eq!(chip.pc(), 0x200);
        assert!(!chip.is_awaiting_release());
    }
    assert_eq!(chip.registers()[5], 0);
}

#[test]
fn key_wait_ignores_a_held_key() {
    let mut chip = boot(&[0xF5, 0x0A]);
    chip.key_down(0xB);
    assert_eq!(chip.tick(), Ok(()));
    assert!(chip.is_awaiting_release());
    for _ in 0..10 {
        assert_eq!(chip.tick(), Ok(()));
        assert_eq!(chip.pc(), 0x200);
        assert!(chip.is_awaiting_release());
    }
    chip.key_up(0xB);
    assert_eq!(chip.tick(), Ok(()));
    assert_eq!(chip.pc(), 0x202);
    assert_eq!(chip.registers()[5], 0xB);
}

#[test]
fn key_wait_takes_a_release_of_a_key_pressed_before_the_wait() {
    // the key went down during an earlier instruction
    let mut chip = boot(&[0x60, 0x00, 0xF1, 0x0A]);
    chip.key_down(0xF);
    assert_eq!(chip.tick(), Ok(()));
    chip.key_up(0xF);
    assert_eq!(chip.tick(), Ok(()));
    assert_eq!(chip.registers()[1], 0xF);
    assert_eq!(chip.pc(), 0x204);
}

#[test]
fn key_wait_lowest_changed_key_decides() {
    // key 2 is released and key 5 pressed between two ticks: the release of
    // the lower key is found first
    let mut chip = boot(&[0xF0, 0x0A]);
    chip.key_down(2);
    assert_eq!(chip.tick(), Ok(()));
    chip.key_up(2);
    chip.key_down(5);
    assert_eq!(chip.tick(), Ok(()));
    assert_eq!(chip.registers()[0], 2);
    assert_eq!(chip.pc(), 0x202);

    // key 5 is released and key 2 pressed: the press of the lower key is
    // found first, and the release goes unseen
    let mut chip = boot(&[0xF0, 0x0A]);
    chip.key_down(5);
    assert_eq!(chip.tick(), Ok(()));
    chip.key_up(5);
    chip.key_down(2);
    assert_eq!(chip.tick(), Ok(()));
    assert_eq!(chip.pc(), 0x200);
    assert!(chip.is_awaiting_release());
    assert_eq!(chip.registers()[0], 0);
    chip.key_up(2);
    assert_eq!(chip.tick(), Ok(()));
    assert_eq!(chip.registers()[0], 2);
}

#[test]
fn press_and_release_between_two_ticks_is_not_seen() {
    let mut chip = boot(&[0xF0, 0x0A]);
    chip.key_down(4);
    chip.key_up(4);
    assert_eq!(chip.tick(), Ok(()));
    assert_eq!(chip.pc(), 0x200);
    assert!(!chip.is_awaiting_release());
}

#[test]
fn keys_out_of_range_are_ignored() {
    // SKP V0 with V0 = 0..15 never skips after key_down(16)
    let mut chip = boot(&[0xE0, 0x9E]);
    chip.key_down(16);
    chip.key_down(usize::MAX);
    chip.key_up(16);
    assert_eq!(chip.tick(), Ok(()));
    assert_eq!(chip.pc(), 0x202);
}

#[test]
fn key_down_and_up_set_only_that_key() {
    for key in 0..16usize {
        // V0 = key, SKP V0, (skipped), V1 = other, SKP V1
        let other = (key + 1) % 16;
        let mut chip = boot(&[
            0x60, key as u8, 0xE0, 0x9E, 0x00, 0x00, 0x61, other as u8, 0xE1, 0x9E,
        ]);
        chip.key_down(key);
        assert_eq!(chip.tick(), Ok(()));
        assert_eq!(chip.tick(), Ok(()));
        assert_eq!(chip.pc(), 0x206);
        assert_eq!(chip.tick(), Ok(()));
        assert_eq!(chip.tick(), Ok(()));
        assert_eq!(chip.pc(), 0x20A);
    }
    let mut chip = boot(&[0x60, 0x09, 0xE0, 0x9E]);
    chip.key_down(9);
    chip.key_up(9);
    assert_eq!(chip.tick(), Ok(()));
    assert_eq!(chip.tick(), Ok(()));
    assert_eq!(chip.pc(), 0x204);
}

#[test]
fn keyboard_block_maps_to_keypad() {
    let table: [(char, usize); 16] = [
        ('1', 0x1), ('2', 0x2), ('3', 0x3), ('4', 0xC),
        ('q', 0x4), ('w', 0x5), ('e', 0x6), ('r', 0xD),
        ('a', 0x7), ('s', 0x8), ('d', 0x9), ('f', 0xE),
        ('z', 0xA), ('x', 0x0), ('c', 0xB), ('v', 0xF),
    ];
    for (key, pad) in table {
        assert_eq!(process_keycode(key as i32), Some(pad));
    }
}

#[test]
fn other_keys_map_to_nothing() {
    let mut mapped = 0;
    for code in -300..70000 {
        if process_keycode(code).is_some() {
            mapped += 1;
        }
    }
    assert_eq!(mapped, 16);
    assert_eq!(process_keycode('Q' as i32), None);
    assert_eq!(process_keycode('5' as i32), None);
    assert_eq!(process_keycode('0' as i32), None);
    assert_eq!(process_keycode(0), None);
    assert_eq!(process_keycode(1073742048), None);
    assert_eq!(process_keycode(i32::MIN), None);
    assert_eq!(process_keycode(i32::MAX), None);
}

#[test]
fn each_keypad_key_has_one_key() {
    let mut count = [0usize; 16];
    for code in 0..256 {
        if let Some(pad) = process_keycode(code) {
            count[pad] += 1;
        }
    }
    assert_eq!(count, [1usize; 16]);
}
