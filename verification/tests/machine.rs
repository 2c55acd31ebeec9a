use chip8_core::chip8::Chip8;
use chip8_core::state::Chip8Error;

fn image_of(words: &[u16]) -> Vec<u8> {
    let mut bytes: Vec<u8> = Vec::new();
    for w in words {
        bytes.push((w >> 8) as u8);
        bytes.push((w & 0xFF) as u8);
    }
    bytes
}

#[test]
fn fresh_machine_defaults() {
    let c = Chip8::new();
    assert_eq!(c.pc(), 0x200);
    assert_eq!(c.stack_depth(), 0);
    assert_eq!(c.index_reg(), 0);
    assert_eq!(c.delay_value(), 0);
    assert_eq!(c.sound_value(), 0);
    assert!(!c.sound_active());
    assert!(!c.is_waiting());
    for x in 0..16u8 {
        assert_eq!(c.register(x), 0);
        assert!(!c.is_pressed(x));
    }
    let fb = c.framebuffer_snapshot();
    assert_eq!(fb.len(), 2048);
    assert!(fb.iter().all(|p| !p));
}

#[test]
fn font_installed_in_reserved_area() {
    let c = Chip8::new();
    // Glyph 0 starts with 0xF0; glyph B starts with 0xE0.
    assert_eq!(c.mem_byte(80), 0xF0);
    assert_eq!(c.mem_byte(80 + 5 * 0xB), 0xE0);
    assert_eq!(c.mem_byte(80 + 5 * 0x1 + 4), 0x70);
    // Outside the font area everything is zero.
    assert_eq!(c.mem_byte(0), 0);
    assert_eq!(c.mem_byte(79), 0);
    assert_eq!(c.mem_byte(160), 0);
    assert_eq!(c.mem_byte(4095), 0);
}

#[test]
fn load_places_image_and_pc() {
    let mut c = Chip8::new();
    let bytes = image_of(&[0x6107]);
    assert_eq!(c.load(&bytes), Ok(()));
    assert_eq!(c.pc(), 0x200);
    assert_eq!(c.mem_byte(0x200), 0x61);
    assert_eq!(c.mem_byte(0x201), 0x07);
    assert_eq!(c.step(), Ok(()));
    assert_eq!(c.register(1), 7);
    assert_eq!(c.pc(), 0x202);
}

#[test]
fn load_rejects_oversized_image() {
    let mut c = Chip8::new();
    let too_big = vec![0u8; 4096 - 0x200 + 1];
    assert_eq!(c.load(&too_big), Err(Chip8Error::ImageTooLarge));
    // Nothing changed.
    assert_eq!(c.pc(), 0x200);
    assert_eq!(c.mem_byte(0x200), 0);
}

#[test]
fn load_accepts_largest_image() {
    let mut c = Chip8::new();
    let max = vec![0xAAu8; 4096 - 0x200];
    assert_eq!(c.load(&max), Ok(()));
    assert_eq!(c.mem_byte(0xFFF), 0xAA);
}

#[test]
fn program_add_registers() {
    // 6005 610A 8014: V0 = 5, V1 = 10, V0 = V0 + V1.
    let mut c = Chip8::new();
    let bytes = image_of(&[0x6005, 0x610A, 0x8014]);
    assert_eq!(c.load(&bytes), Ok(()));
    assert_eq!(c.step(), Ok(()));
    assert_eq!(c.step(), Ok(()));
    assert_eq!(c.step(), Ok(()));
    assert_eq!(c.register(0), 15);
    assert_eq!(c.register(0xF), 0);
}

#[test]
fn call_and_return_restore_control_flow() {
    // 0x200: call 0x204; 0x202: filler; 0x204: return.
    let mut c = Chip8::new();
    let bytes = image_of(&[0x2204, 0x00E0, 0x00EE]);
    assert_eq!(c.load(&bytes), Ok(()));
    assert_eq!(c.step(), Ok(()));
    assert_eq!(c.pc(), 0x204);
    assert_eq!(c.stack_depth(), 1);
    assert_eq!(c.step(), Ok(()));
    assert_eq!(c.pc(), 0x202);
    assert_eq!(c.stack_depth(), 0);
}

#[test]
fn draw_of_blank_rows_leaves_screen_unchanged() {
    // 00E0 then D005: I = 0, memory[0..5] is all zero, so the sprite has
    // no set bit and the framebuffer stays fully unlit; VF = 0.
    let mut c = Chip8::new();
    let bytes = image_of(&[0x00E0, 0xD005]);
    assert_eq!(c.load(&bytes), Ok(()));
    assert_eq!(c.step(), Ok(()));
    assert_eq!(c.step(), Ok(()));
    assert!(c.framebuffer_snapshot().iter().all(|p| !p));
    assert_eq!(c.register(0xF), 0);
}

#[test]
fn fetch_past_end_of_memory_fails() {
    let mut c = Chip8::new();
    let bytes = image_of(&[0x1FFF]);
    assert_eq!(c.load(&bytes), Ok(()));
    assert_eq!(c.step(), Ok(()));
    assert_eq!(c.pc(), 0xFFF);
    assert_eq!(c.step(), Err(Chip8Error::OutOfBoundsFetch(0xFFF)));
    // The failing step changed nothing.
    assert_eq!(c.pc(), 0xFFF);
}

#[test]
fn seventeenth_nested_call_overflows() {
    // The instruction at 0x200 calls 0x200 again, forever.
    let mut c = Chip8::new();
    let bytes = image_of(&[0x2200]);
    assert_eq!(c.load(&bytes), Ok(()));
    for depth in 1..=16 {
        assert_eq!(c.step(), Ok(()));
        assert_eq!(c.stack_depth(), depth);
    }
    assert_eq!(c.step(), Err(Chip8Error::StackOverflow));
    assert_eq!(c.stack_depth(), 16);
    assert_eq!(c.pc(), 0x200);
}

#[test]
fn return_with_empty_stack_underflows() {
    let mut c = Chip8::new();
    let bytes = image_of(&[0x00EE]);
    assert_eq!(c.load(&bytes), Ok(()));
    assert_eq!(c.step(), Err(Chip8Error::StackUnderflow));
    assert_eq!(c.pc(), 0x200);
}

#[test]
fn unknown_word_reports_word_and_address() {
    let mut c = Chip8::new();
    let bytes = image_of(&[0x6000, 0x0123]);
    assert_eq!(c.load(&bytes), Ok(()));
    assert_eq!(c.step(), Ok(()));
    assert_eq!(
        c.step(),
        Err(Chip8Error::UnrecognizedInstruction { word: 0x0123, addr: 0x202 })
    );
    assert_eq!(c.pc(), 0x202);
}

#[test]
fn wait_for_key_suspends_and_resumes() {
    let mut c = Chip8::new();
    let bytes = image_of(&[0xF50A, 0x6107]);
    assert_eq!(c.load(&bytes), Ok(()));
    assert_eq!(c.step(), Ok(()));
    assert!(c.is_waiting());
    let pc_suspended = c.pc();
    // Stepping while suspended does nothing at all.
    assert_eq!(c.step(), Ok(()));
    assert_eq!(c.pc(), pc_suspended);
    assert!(c.is_waiting());
    // A key release is not a key-down transition.
    c.set_key_state(9, false);
    assert!(c.is_waiting());
    // A fresh key press resumes and stores the key index in V5.
    c.set_key_state(9, true);
    assert!(!c.is_waiting());
    assert_eq!(c.register(5), 9);
    assert_eq!(c.step(), Ok(()));
    assert_eq!(c.register(1), 7);
}

#[test]
fn held_key_does_not_resume_wait() {
    let mut c = Chip8::new();
    c.set_key_state(3, true);
    let bytes = image_of(&[0xF00A]);
    assert_eq!(c.load(&bytes), Ok(()));
    assert_eq!(c.step(), Ok(()));
    assert!(c.is_waiting());
    // Reporting the same key as still held is no new key-down transition.
    c.set_key_state(3, true);
    assert!(c.is_waiting());
    // Releasing and pressing again is one.
    c.set_key_state(3, false);
    c.set_key_state(3, true);
    assert!(!c.is_waiting());
    assert_eq!(c.register(0), 3);
}

#[test]
fn skip_when_key_pressed() {
    let mut c = Chip8::new();
    c.set_key_state(4, true);
    assert!(c.is_pressed(4));
    let bytes = image_of(&[0x6004, 0xE09E]);
    assert_eq!(c.load(&bytes), Ok(()));
    assert_eq!(c.step(), Ok(()));
    assert_eq!(c.step(), Ok(()));
    // The skip advanced past the word at 0x204.
    assert_eq!(c.pc(), 0x206);
}

#[test]
fn skip_when_key_not_pressed() {
    let mut c = Chip8::new();
    let bytes = image_of(&[0x6004, 0xE0A1, 0x0000, 0x6004, 0xE09E]);
    assert_eq!(c.load(&bytes), Ok(()));
    assert_eq!(c.step(), Ok(()));
    assert_eq!(c.step(), Ok(()));
    // Key 4 is up, so ExA1 skipped the unknown word at 0x204.
    assert_eq!(c.pc(), 0x206);
    assert_eq!(c.step(), Ok(()));
    assert_eq!(c.step(), Ok(()));
    // Ex9E does not skip while the key is up.
    assert_eq!(c.pc(), 0x20A);
}

#[test]
fn timer_decay_over_one_second() {
    // Delay timer starts at 60; 1000 ms of elapsed time is exactly 60
    // ticks at 60 Hz, so the timer reaches exactly 0 and stays there.
    let mut c = Chip8::new();
    let bytes = image_of(&[0x603C, 0xF015]);
    assert_eq!(c.load(&bytes), Ok(()));
    assert_eq!(c.step(), Ok(()));
    assert_eq!(c.step(), Ok(()));
    assert_eq!(c.delay_value(), 60);
    c.advance_timers(1_000_000);
    assert_eq!(c.delay_value(), 0);
    c.advance_timers(1_000_000);
    assert_eq!(c.delay_value(), 0);
}

#[test]
fn timer_decay_in_small_steps() {
    let mut c = Chip8::new();
    let bytes = image_of(&[0x603C, 0xF015]);
    assert_eq!(c.load(&bytes), Ok(()));
    assert_eq!(c.step(), Ok(()));
    assert_eq!(c.step(), Ok(()));
    // 16 ms is just under one tick: no decrement yet.
    c.advance_timers(16_000);
    assert_eq!(c.delay_value(), 60);
    // 667 more microseconds crosses the 16666.67 us threshold.
    c.advance_timers(667);
    assert_eq!(c.delay_value(), 59);
    // Feeding ~16.67 ms sixty more times runs it to zero, one per call.
    for expected in (0..59).rev() {
        c.advance_timers(16_667);
        assert_eq!(c.delay_value(), expected);
    }
    c.advance_timers(16_667);
    assert_eq!(c.delay_value(), 0);
}

#[test]
fn timer_rate_is_independent_of_instruction_rate() {
    // Many executed instructions decay nothing; only elapsed time does.
    let mut c = Chip8::new();
    let bytes = image_of(&[0x6909, 0xF915, 0x1200]);
    assert_eq!(c.load(&bytes), Ok(()));
    for _ in 0..100 {
        assert_eq!(c.step(), Ok(()));
    }
    assert_eq!(c.delay_value(), 9);
}

#[test]
fn single_tick_saturates_at_zero() {
    let mut c = Chip8::new();
    let bytes = image_of(&[0x6002, 0xF018]);
    assert_eq!(c.load(&bytes), Ok(()));
    assert_eq!(c.step(), Ok(()));
    assert_eq!(c.step(), Ok(()));
    assert_eq!(c.sound_value(), 2);
    assert!(c.sound_active());
    assert!(c.emulate_timer());
    c.update_timer();
    assert_eq!(c.sound_value(), 1);
    c.update_timer();
    assert_eq!(c.sound_value(), 0);
    assert!(!c.sound_active());
    assert!(!c.emulate_timer());
    c.update_timer();
    assert_eq!(c.sound_value(), 0);
}
