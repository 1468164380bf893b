use chip8::machine::FONT_DATA;
use chip8::processor::InstructionSet;
use chip8::processor::Processor;
use chip8::processor::SuperChip;

fn booted(program: &[u8]) -> Processor<SuperChip> {
    let mut chip = Processor::new(SuperChip {});
    chip.load(program);
    chip
}

fn run(chip: &mut Processor<SuperChip>, cycles: usize) {
    for _ in 0..cycles {
        assert!(chip.ready());
        chip.tick();
    }
}

#[test]
fn new_machine_is_zeroed_with_glyphs_and_start_address() {
    let chip = Processor::new(SuperChip {});
    assert_eq!(chip.state.program_counter(), 0x200);
    assert_eq!(chip.state.index(), 0);
    assert_eq!(chip.state.stack_pointer(), 0);
    assert_eq!(chip.state.delay(), 0);
    assert_eq!(chip.state.sound(), 0);
    assert!(!chip.state.is_stale());
    for x in 0..16 {
        assert_eq!(chip.state.register(x), 0);
        assert_eq!(chip.state.stack_entry(x), 0);
        assert!(!chip.state.keypad[x]);
    }
    for address in 0..4096usize {
        let expected = if (0x50..0xA0).contains(&address) { FONT_DATA[address - 0x50] } else { 0 };
        assert_eq!(chip.state.memory(address), expected, "address {:#x}", address);
    }
    for row in chip.state.screen.iter() {
        for pixel in row.iter() {
            assert!(!*pixel);
        }
    }
}

#[test]
fn glyph_table_occupies_its_reserved_range() {
    let chip = Processor::new(SuperChip {});
    assert_eq!(chip.state.memory(0x4F), 0);
    assert_eq!(chip.state.memory(0x50), 0xF0);
    assert_eq!(chip.state.memory(0x9F), 0x80);
    assert_eq!(chip.state.memory(0xA0), 0);
}

#[test]
fn load_copies_program_to_start_address() {
    let chip = booted(&[0x12, 0x34, 0x56]);
    assert_eq!(chip.state.memory(0x1FF), 0);
    assert_eq!(chip.state.memory(0x200), 0x12);
    assert_eq!(chip.state.memory(0x201), 0x34);
    assert_eq!(chip.state.memory(0x202), 0x56);
    assert_eq!(chip.state.memory(0x203), 0);
    assert_eq!(chip.state.memory(0x50), 0xF0);
    assert_eq!(chip.state.program_counter(), 0x200);
}

#[test]
fn load_truncates_at_capacity() {
    let program: Vec<u8> = (0..4000usize).map(|i| (i % 251) as u8 + 1).collect();
    let chip = booted(&program);
    for i in 0..3584usize {
        assert_eq!(chip.state.memory(0x200 + i), program[i]);
    }
    assert_eq!(chip.state.memory(4095), program[3583]);
    assert_eq!(chip.state.memory(0x1FF), 0);
}

#[test]
fn load_of_exactly_capacity_fills_memory() {
    let program = vec![0xABu8; 3584];
    let chip = booted(&program);
    assert_eq!(chip.state.memory(0x200), 0xAB);
    assert_eq!(chip.state.memory(4095), 0xAB);
}

#[test]
fn load_of_nothing_changes_nothing() {
    let chip = booted(&[]);
    for address in 0x200..4096usize {
        assert_eq!(chip.state.memory(address), 0);
    }
}

#[test]
fn second_load_keeps_bytes_past_the_shorter_program() {
    let mut chip = booted(&[1, 2, 3, 4]);
    chip.load(&[9, 9]);
    assert_eq!(chip.state.memory(0x200), 9);
    assert_eq!(chip.state.memory(0x201), 9);
    assert_eq!(chip.state.memory(0x202), 3);
    assert_eq!(chip.state.memory(0x203), 4);
}

#[test]
fn get_opcode_is_big_endian() {
    let mut chip = booted(&[0xA2, 0xF0]);
    assert_eq!(chip.get_opcode(), 0xA2F0);
    assert_eq!(chip.state.program_counter(), 0x200);
}

#[test]
fn fetch_advances_program_counter_by_two() {
    let mut chip = booted(&[0x60, 0x01]);
    run(&mut chip, 1);
    assert_eq!(chip.state.program_counter(), 0x202);
    assert_eq!(chip.state.register(0), 1);
}

#[test]
fn add_registers_with_carry() {
    // V0 = 0xFF, V1 = 0x01, V0 += V1
    let mut chip = booted(&[0x60, 0xFF, 0x61, 0x01, 0x80, 0x14]);
    run(&mut chip, 3);
    assert_eq!(chip.state.register(0), 0x00);
    assert_eq!(chip.state.register(0xF), 1);
}

#[test]
fn add_registers_without_carry() {
    let mut chip = booted(&[0x60, 0x10, 0x61, 0x20, 0x80, 0x14]);
    run(&mut chip, 3);
    assert_eq!(chip.state.register(0), 0x30);
    assert_eq!(chip.state.register(0xF), 0);
}

#[test]
fn add_registers_for_every_pair() {
    let isa = SuperChip {};
    let mut chip = Processor::new(SuperChip {});
    for a in 0..=255u16 {
        for b in 0..=255u16 {
            isa.op_6xkk(&mut chip.state, 2, a as u8);
            isa.op_6xkk(&mut chip.state, 7, b as u8);
            isa.execute(&mut chip.state, 0x8274);
            assert_eq!(chip.state.register(2) as u16, (a + b) % 256);
            assert_eq!(chip.state.register(0xF), if a + b > 255 { 1 } else { 0 });
            assert_eq!(chip.state.register(7), b as u8);
        }
    }
}

#[test]
fn add_registers_into_flag_register_keeps_the_flag() {
    // VF = 0xF0, V1 = 0x20: the sum 0x110 carries, and the flag overwrites it.
    let mut chip = booted(&[0x6F, 0xF0, 0x61, 0x20, 0x8F, 0x14]);
    run(&mut chip, 3);
    assert_eq!(chip.state.register(0xF), 1);
}

#[test]
fn subtract_with_borrow() {
    let mut chip = booted(&[0x60, 0x05, 0x61, 0x0A, 0x80, 0x15]);
    run(&mut chip, 3);
    assert_eq!(chip.state.register(0), 0xFB);
    assert_eq!(chip.state.register(0xF), 0);
}

#[test]
fn subtract_without_borrow() {
    let mut chip = booted(&[0x60, 0x0A, 0x61, 0x05, 0x80, 0x15]);
    run(&mut chip, 3);
    assert_eq!(chip.state.register(0), 0x05);
    assert_eq!(chip.state.register(0xF), 1);
}

#[test]
fn subtract_equal_values_needs_no_borrow() {
    let mut chip = booted(&[0x60, 0x07, 0x61, 0x07, 0x80, 0x15]);
    run(&mut chip, 3);
    assert_eq!(chip.state.register(0), 0);
    assert_eq!(chip.state.register(0xF), 1);
}

#[test]
fn reverse_subtract() {
    // V0 = V1 - V0
    let mut chip = booted(&[0x60, 0x05, 0x61, 0x0A, 0x80, 0x17]);
    run(&mut chip, 3);
    assert_eq!(chip.state.register(0), 0x05);
    assert_eq!(chip.state.register(0xF), 1);

    let mut chip = booted(&[0x60, 0x0A, 0x61, 0x05, 0x80, 0x17]);
    run(&mut chip, 3);
    assert_eq!(chip.state.register(0), 0xFB);
    assert_eq!(chip.state.register(0xF), 0);

    let mut chip = booted(&[0x60, 0x09, 0x61, 0x09, 0x80, 0x17]);
    run(&mut chip, 3);
    assert_eq!(chip.state.register(0), 0);
    assert_eq!(chip.state.register(0xF), 1);
}

#[test]
fn add_immediate_wraps_without_flag() {
    let mut chip = booted(&[0x6F, 0x07, 0x60, 0xFF, 0x70, 0x01]);
    run(&mut chip, 3);
    assert_eq!(chip.state.register(0), 0);
    assert_eq!(chip.state.register(0xF), 0x07);
}

#[test]
fn load_immediate_and_copy() {
    let mut chip = booted(&[0x63, 0x5A, 0x84, 0x30]);
    run(&mut chip, 2);
    assert_eq!(chip.state.register(3), 0x5A);
    assert_eq!(chip.state.register(4), 0x5A);
}

#[test]
fn bitwise_operations_leave_flag_alone() {
    let mut chip = booted(&[
        0x6F, 0x33, 0x60, 0xCC, 0x61, 0xAA, 0x62, 0xCC, 0x63, 0xCC, 0x80, 0x11, 0x82, 0x12, 0x83,
        0x13,
    ]);
    run(&mut chip, 8);
    assert_eq!(chip.state.register(0), 0xCC | 0xAA);
    assert_eq!(chip.state.register(2), 0xCC & 0xAA);
    assert_eq!(chip.state.register(3), 0xCC ^ 0xAA);
    assert_eq!(chip.state.register(0xF), 0x33);
}

#[test]
fn shift_right_stores_low_bit() {
    let mut chip = booted(&[0x60, 0x05, 0x80, 0x16]);
    run(&mut chip, 2);
    assert_eq!(chip.state.register(0), 0x02);
    assert_eq!(chip.state.register(0xF), 1);

    let mut chip = booted(&[0x60, 0x04, 0x80, 0x16]);
    run(&mut chip, 2);
    assert_eq!(chip.state.register(0), 0x02);
    assert_eq!(chip.state.register(0xF), 0);
}

#[test]
fn shift_right_ignores_second_register() {
    let mut chip = booted(&[0x60, 0x08, 0x61, 0xFF, 0x80, 0x16]);
    run(&mut chip, 3);
    assert_eq!(chip.state.register(0), 0x04);
    assert_eq!(chip.state.register(1), 0xFF);
}

#[test]
fn shift_left_stores_top_bit_in_place() {
    let mut chip = booted(&[0x60, 0x81, 0x80, 0x1E]);
    run(&mut chip, 2);
    assert_eq!(chip.state.register(0), 0x02);
    assert_eq!(chip.state.register(0xF), 0x80);

    let mut chip = booted(&[0x60, 0x41, 0x80, 0x1E]);
    run(&mut chip, 2);
    assert_eq!(chip.state.register(0), 0x82);
    assert_eq!(chip.state.register(0xF), 0);
}

#[test]
fn shift_of_flag_register_shifts_the_flag() {
    // VF = 0x81: the flag becomes 0x80, then the register is shifted left.
    let mut chip = booted(&[0x6F, 0x81, 0x8F, 0x0E]);
    run(&mut chip, 2);
    assert_eq!(chip.state.register(0xF), 0x00);

    // VF = 0x03: the flag becomes 1, then the register is shifted right.
    let mut chip = booted(&[0x6F, 0x03, 0x8F, 0x06]);
    run(&mut chip, 2);
    assert_eq!(chip.state.register(0xF), 0x00);
}

#[test]
fn jump_sets_program_counter_exactly() {
    let mut chip = booted(&[0x1A, 0xBC]);
    run(&mut chip, 1);
    assert_eq!(chip.state.program_counter(), 0xABC);
}

#[test]
fn jump_from_another_address_lands_on_the_same_target() {
    // 0x200: jump 0x206; 0x206: jump 0x300
    let mut chip = booted(&[0x12, 0x06, 0, 0, 0, 0, 0x13, 0x00]);
    run(&mut chip, 2);
    assert_eq!(chip.state.program_counter(), 0x300);
}

#[test]
fn call_then_return_resumes_after_the_call() {
    // 0x200: call 0x206; 0x206: return
    let mut chip = booted(&[0x22, 0x06, 0, 0, 0, 0, 0x00, 0xEE]);
    run(&mut chip, 1);
    assert_eq!(chip.state.program_counter(), 0x206);
    assert_eq!(chip.state.stack_pointer(), 1);
    assert_eq!(chip.state.stack_entry(0), 0x202);
    run(&mut chip, 1);
    assert_eq!(chip.state.program_counter(), 0x202);
    assert_eq!(chip.state.stack_pointer(), 0);
}

#[test]
fn nested_calls_fill_the_stack() {
    // 0x200: call 0x200, sixteen times over
    let mut chip = booted(&[0x22, 0x00]);
    run(&mut chip, 16);
    assert_eq!(chip.state.stack_pointer(), 16);
    for slot in 0..16 {
        assert_eq!(chip.state.stack_entry(slot), 0x202);
    }
    assert!(!chip.ready());
}

#[test]
fn return_on_empty_stack_is_not_ready() {
    let chip = booted(&[0x00, 0xEE]);
    assert!(!chip.ready());
}

#[test]
fn fetch_past_end_of_memory_is_not_ready() {
    // jump to 0xFFF: the low byte of the next word would lie outside memory
    let mut chip = booted(&[0x1F, 0xFF]);
    run(&mut chip, 1);
    assert_eq!(chip.state.program_counter(), 0xFFF);
    assert!(!chip.ready());
}

#[test]
fn last_word_of_memory_can_run() {
    let mut program = vec![0u8; 3584];
    program[0] = 0x1F;
    program[1] = 0xFE;
    program[3582] = 0x60;
    program[3583] = 0x2A;
    let mut chip = booted(&program);
    run(&mut chip, 2);
    assert_eq!(chip.state.register(0), 0x2A);
    assert_eq!(chip.state.program_counter(), 0x1000);
    assert!(!chip.ready());
}

#[test]
fn skip_if_equal_immediate() {
    let mut chip = booted(&[0x60, 0x11, 0x30, 0x11]);
    run(&mut chip, 2);
    assert_eq!(chip.state.program_counter(), 0x206);

    let mut chip = booted(&[0x60, 0x11, 0x30, 0x12]);
    run(&mut chip, 2);
    assert_eq!(chip.state.program_counter(), 0x204);
}

#[test]
fn skip_if_not_equal_immediate() {
    let mut chip = booted(&[0x60, 0x11, 0x40, 0x12]);
    run(&mut chip, 2);
    assert_eq!(chip.state.program_counter(), 0x206);

    let mut chip = booted(&[0x60, 0x11, 0x40, 0x11]);
    run(&mut chip, 2);
    assert_eq!(chip.state.program_counter(), 0x204);
}

#[test]
fn skip_if_registers_equal() {
    let mut chip = booted(&[0x60, 0x11, 0x61, 0x11, 0x50, 0x10]);
    run(&mut chip, 3);
    assert_eq!(chip.state.program_counter(), 0x208);

    let mut chip = booted(&[0x60, 0x11, 0x61, 0x12, 0x50, 0x10]);
    run(&mut chip, 3);
    assert_eq!(chip.state.program_counter(), 0x206);
}

#[test]
fn skip_if_registers_differ() {
    let mut chip = booted(&[0x60, 0x11, 0x61, 0x12, 0x90, 0x10]);
    run(&mut chip, 3);
    assert_eq!(chip.state.program_counter(), 0x208);

    let mut chip = booted(&[0x60, 0x11, 0x61, 0x11, 0x90, 0x10]);
    run(&mut chip, 3);
    assert_eq!(chip.state.program_counter(), 0x206);
}

#[test]
fn set_index_and_jump_with_offset() {
    let mut chip = booted(&[0xAF, 0xFF, 0x60, 0x04, 0xB3, 0x00]);
    run(&mut chip, 3);
    assert_eq!(chip.state.index(), 0xFFF);
    assert_eq!(chip.state.program_counter(), 0x304);
}

#[test]
fn add_to_index_has_no_flag() {
    let mut chip = booted(&[0xA1, 0x00, 0x60, 0xFF, 0xF0, 0x1E]);
    run(&mut chip, 3);
    assert_eq!(chip.state.index(), 0x1FF);
    assert_eq!(chip.state.register(0xF), 0);
}

#[test]
fn timers_transfer_and_count_down() {
    // V0 = 3; delay = V0; sound = V0; V1 = delay
    let mut chip = booted(&[0x60, 0x03, 0xF0, 0x15, 0xF0, 0x18, 0xF1, 0x07]);
    run(&mut chip, 2);
    // set to 3 by the instruction, then counted down at the end of the same cycle
    assert_eq!(chip.state.delay(), 2);
    assert_eq!(chip.state.sound(), 0);
    run(&mut chip, 1);
    assert_eq!(chip.state.delay(), 1);
    assert_eq!(chip.state.sound(), 2);
    run(&mut chip, 1);
    assert_eq!(chip.state.register(1), 1);
    assert_eq!(chip.state.delay(), 0);
    assert_eq!(chip.state.sound(), 1);
    run(&mut chip, 1);
    assert_eq!(chip.state.delay(), 0);
    assert_eq!(chip.state.sound(), 0);
    run(&mut chip, 1);
    assert_eq!(chip.state.delay(), 0);
    assert_eq!(chip.state.sound(), 0);
}

#[test]
fn timers_accept_any_byte() {
    let mut chip = booted(&[0x60, 0xFF, 0xF0, 0x15]);
    run(&mut chip, 2);
    assert_eq!(chip.state.delay(), 0xFE);
}

#[test]
fn unknown_opcodes_change_only_timers() {
    // V0 = 5; delay = V0; then words that are no instructions
    let mut chip = booted(&[0x60, 0x05, 0xF0, 0x15, 0x00, 0x00, 0x51, 0x21, 0x81, 0x28, 0xE1, 0x00, 0xF1, 0xFF]);
    run(&mut chip, 2);
    assert_eq!(chip.state.delay(), 4);
    run(&mut chip, 5);
    assert_eq!(chip.state.delay(), 0);
    assert_eq!(chip.state.program_counter(), 0x20E);
    assert_eq!(chip.state.register(0), 5);
    assert_eq!(chip.state.register(1), 0);
    assert_eq!(chip.state.index(), 0);
    assert_eq!(chip.state.stack_pointer(), 0);
    assert!(!chip.state.is_stale());
}

#[test]
fn glyph_address_for_digit_a() {
    let mut chip = booted(&[0x60, 0x0A, 0xF0, 0x29]);
    run(&mut chip, 2);
    assert_eq!(chip.state.index(), 0x50 + 50);
    let base = chip.state.index() as usize;
    let glyph: Vec<u8> = (0..5).map(|k| chip.state.memory(base + k)).collect();
    assert_eq!(glyph, vec![0xF0, 0x90, 0xF0, 0x90, 0x90]);
}

#[test]
fn glyph_address_for_every_digit() {
    let isa = SuperChip {};
    let mut chip = Processor::new(SuperChip {});
    for digit in 0..16usize {
        isa.op_6xkk(&mut chip.state, 3, digit as u8);
        isa.execute(&mut chip.state, 0xF329);
        assert_eq!(chip.state.index() as usize, 0x50 + 5 * digit);
        for k in 0..5 {
            assert_eq!(chip.state.memory(0x50 + 5 * digit + k), FONT_DATA[5 * digit + k]);
        }
    }
}

#[test]
fn store_bcd_writes_three_digits() {
    let mut chip = booted(&[0x60, 254, 0xA3, 0x00, 0xF0, 0x33]);
    run(&mut chip, 3);
    assert_eq!(chip.state.memory(0x300), 2);
    assert_eq!(chip.state.memory(0x301), 5);
    assert_eq!(chip.state.memory(0x302), 4);
    assert_eq!(chip.state.index(), 0x300);

    let mut chip = booted(&[0x60, 7, 0xA3, 0x00, 0xF0, 0x33]);
    run(&mut chip, 3);
    assert_eq!(chip.state.memory(0x300), 0);
    assert_eq!(chip.state.memory(0x301), 0);
    assert_eq!(chip.state.memory(0x302), 7);
}

#[test]
fn store_bcd_past_memory_is_not_ready() {
    let mut chip = booted(&[0xAF, 0xFE, 0xF0, 0x33]);
    run(&mut chip, 1);
    assert!(!chip.ready());

    let mut chip = booted(&[0xAF, 0xFD, 0xF0, 0x33]);
    run(&mut chip, 2);
    assert_eq!(chip.state.memory(0xFFF), 0);
}

#[test]
fn register_dump_is_inclusive_and_keeps_index() {
    let mut chip = booted(&[0x60, 0x11, 0x61, 0x22, 0x62, 0x33, 0x63, 0x44, 0xA3, 0x00, 0xF2, 0x55]);
    run(&mut chip, 6);
    assert_eq!(chip.state.memory(0x300), 0x11);
    assert_eq!(chip.state.memory(0x301), 0x22);
    assert_eq!(chip.state.memory(0x302), 0x33);
    assert_eq!(chip.state.memory(0x303), 0);
    assert_eq!(chip.state.index(), 0x300);
}

#[test]
fn register_load_is_inclusive_and_keeps_index() {
    // I = 0x50 (glyph of 0: F0 90 90 90 F0); V3 = 0x77; load V0..=V2
    let mut chip = booted(&[0x63, 0x77, 0xA0, 0x50, 0xF2, 0x65]);
    run(&mut chip, 3);
    assert_eq!(chip.state.register(0), 0xF0);
    assert_eq!(chip.state.register(1), 0x90);
    assert_eq!(chip.state.register(2), 0x90);
    assert_eq!(chip.state.register(3), 0x77);
    assert_eq!(chip.state.index(), 0x50);
}

#[test]
fn register_dump_past_memory_is_not_ready() {
    let mut chip = booted(&[0xAF, 0xFF, 0xF1, 0x55]);
    run(&mut chip, 1);
    assert!(!chip.ready());

    let mut chip = booted(&[0xAF, 0xFF, 0x60, 0x42, 0xF0, 0x55]);
    run(&mut chip, 3);
    assert_eq!(chip.state.memory(0xFFF), 0x42);
}

#[test]
fn random_is_masked() {
    let mut chip = booted(&[0x60, 0xFF, 0xC0, 0x00, 0xC1, 0x0F, 0xC2, 0xF0]);
    run(&mut chip, 4);
    assert_eq!(chip.state.register(0), 0);
    assert_eq!(chip.state.register(1) & 0xF0, 0);
    assert_eq!(chip.state.register(2) & 0x0F, 0);
}

#[test]
fn mask_random_ands_the_drawn_byte() {
    let isa = SuperChip {};
    let mut chip = Processor::new(SuperChip {});
    isa.mask_random(&mut chip.state, 4, 0x3C, 0xA5);
    assert_eq!(chip.state.register(4), 0x24);
    isa.mask_random(&mut chip.state, 4, 0xFF, 0xA5);
    assert_eq!(chip.state.register(4), 0xA5);
}

#[test]
fn random_draws_more_than_one_value() {
    let isa = SuperChip {};
    let mut chip = Processor::new(SuperChip {});
    let mut seen = [false; 256];
    for _ in 0..4096 {
        isa.op_cxkk(&mut chip.state, 0, 0xFF);
        seen[chip.state.register(0) as usize] = true;
    }
    assert!(seen.iter().filter(|s| **s).count() > 1);
}

#[test]
fn wait_for_key_blocks_until_a_key_is_pressed() {
    let mut chip = booted(&[0xF5, 0x0A]);
    for _ in 0..10 {
        chip.set_keypad(&[false; 16]);
        run(&mut chip, 1);
        assert_eq!(chip.state.program_counter(), 0x200);
        assert_eq!(chip.state.register(5), 0);
    }
    let mut keys = [false; 16];
    keys[0xB] = true;
    keys[0x7] = true;
    chip.set_keypad(&keys);
    run(&mut chip, 1);
    assert_eq!(chip.state.program_counter(), 0x202);
    assert_eq!(chip.state.register(5), 0x7);
}

#[test]
fn wait_for_key_takes_key_zero() {
    let mut chip = booted(&[0x65, 0x09, 0xF5, 0x0A]);
    let mut keys = [true; 16];
    keys[1] = false;
    chip.set_keypad(&keys);
    run(&mut chip, 2);
    assert_eq!(chip.state.register(5), 0);
    assert_eq!(chip.state.program_counter(), 0x204);
}

#[test]
fn skip_if_key_pressed() {
    let mut keys = [false; 16];
    keys[0xC] = true;
    let mut chip = booted(&[0x60, 0x0C, 0xE0, 0x9E]);
    chip.set_keypad(&keys);
    run(&mut chip, 2);
    assert_eq!(chip.state.program_counter(), 0x206);

    let mut chip = booted(&[0x60, 0x0D, 0xE0, 0x9E]);
    chip.set_keypad(&keys);
    run(&mut chip, 2);
    assert_eq!(chip.state.program_counter(), 0x204);
}

#[test]
fn skip_if_key_not_pressed() {
    let mut keys = [false; 16];
    keys[0xC] = true;
    let mut chip = booted(&[0x60, 0x0D, 0xE0, 0xA1]);
    chip.set_keypad(&keys);
    run(&mut chip, 2);
    assert_eq!(chip.state.program_counter(), 0x206);

    let mut chip = booted(&[0x60, 0x0C, 0xE0, 0xA1]);
    chip.set_keypad(&keys);
    run(&mut chip, 2);
    assert_eq!(chip.state.program_counter(), 0x204);
}

#[test]
fn key_index_above_fifteen_is_not_ready() {
    let mut chip = booted(&[0x60, 0x10, 0xE0, 0x9E]);
    run(&mut chip, 1);
    assert!(!chip.ready());

    let mut chip = booted(&[0x60, 0x10, 0xE0, 0xA1]);
    run(&mut chip, 1);
    assert!(!chip.ready());
}

#[test]
fn set_keypad_replaces_every_key() {
    let mut chip = Processor::new(SuperChip {});
    let mut keys = [false; 16];
    keys[3] = true;
    chip.set_keypad(&keys);
    assert_eq!(chip.state.keypad, keys);
    chip.set_keypad(&[false; 16]);
    assert_eq!(chip.state.keypad, [false; 16]);
}

#[test]
fn admits_agrees_with_ready() {
    let isa = SuperChip {};
    let chip = Processor::new(SuperChip {});
    assert!(!isa.admits(&chip.state, 0x00EE));
    assert!(isa.admits(&chip.state, 0x00E0));
    assert!(isa.admits(&chip.state, 0x2123));
    assert!(isa.admits(&chip.state, 0xD01F));
    assert!(isa.admits(&chip.state, 0xFFFF));
}
