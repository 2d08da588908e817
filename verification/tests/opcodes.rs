use chip8_core::{Emu, EmuError};

fn boot(program: &[u8]) -> Emu {
    let mut e = Emu::default();
    e.load(&program.to_vec()).unwrap();
    e
}

fn run(e: &mut Emu, steps: usize) {
    for _ in 0..steps {
        e.tick().unwrap();
    }
}

#[test]
fn jump_sets_pc() {
    let mut e = boot(&[0x1A, 0xBC]);
    e.tick().unwrap();
    assert_eq!(e.pc(), 0xABC);
}

#[test]
fn call_pushes_and_ret_pops() {
    // call 0x204, which holds a return
    let mut e = boot(&[0x22, 0x04, 0x00, 0x00, 0x00, 0xEE]);
    e.tick().unwrap();
    assert_eq!(e.pc(), 0x204);
    e.tick().unwrap();
    // the return address is the instruction after the call
    assert_eq!(e.pc(), 0x202);
}

#[test]
fn skip_eq_imm_advances_four_when_equal() {
    let mut e = boot(&[0x30, 0x00]);
    e.tick().unwrap();
    assert_eq!(e.pc(), 0x204);
}

#[test]
fn skip_eq_imm_advances_two_when_unequal() {
    let mut e = boot(&[0x30, 0x01]);
    e.tick().unwrap();
    assert_eq!(e.pc(), 0x202);
}

#[test]
fn skip_ne_imm() {
    let mut e = boot(&[0x40, 0x01]);
    e.tick().unwrap();
    assert_eq!(e.pc(), 0x204);
    let mut e2 = boot(&[0x40, 0x00]);
    e2.tick().unwrap();
    assert_eq!(e2.pc(), 0x202);
}

#[test]
fn skip_eq_reg_and_ne_reg() {
    // v0 = 7, v1 = 7: 5010 skips; then at 0x206, 9010 does not
    let mut e = boot(&[0x60, 0x07, 0x61, 0x07, 0x50, 0x10, 0x00, 0x00, 0x90, 0x10]);
    run(&mut e, 3);
    assert_eq!(e.pc(), 0x208);
    e.tick().unwrap();
    assert_eq!(e.pc(), 0x20A);
}

#[test]
fn set_and_copy_registers() {
    let mut e = boot(&[0x60, 0x2A, 0x81, 0x00]);
    run(&mut e, 2);
    assert_eq!(e.reg(0), 0x2A);
    assert_eq!(e.reg(1), 0x2A);
}

#[test]
fn add_imm_wraps_without_flag() {
    let mut e = boot(&[0x60, 0xFF, 0x70, 0x01]);
    run(&mut e, 2);
    assert_eq!(e.reg(0), 0x00);
    // no flag side effect for 7xnn
    assert_eq!(e.reg(0xF), 0);
}

#[test]
fn bitwise_or_and_xor() {
    let mut e = boot(&[0x60, 0x0C, 0x61, 0x0A, 0x80, 0x11]);
    run(&mut e, 3);
    assert_eq!(e.reg(0), 0x0E);
    let mut e2 = boot(&[0x60, 0x0C, 0x61, 0x0A, 0x80, 0x12]);
    run(&mut e2, 3);
    assert_eq!(e2.reg(0), 0x08);
    let mut e3 = boot(&[0x60, 0x0C, 0x61, 0x0A, 0x80, 0x13]);
    run(&mut e3, 3);
    assert_eq!(e3.reg(0), 0x06);
}

#[test]
fn add_reg_sets_carry_on_overflow() {
    let mut e = boot(&[0x60, 0xFF, 0x61, 0x01, 0x80, 0x14]);
    run(&mut e, 3);
    assert_eq!(e.reg(0), 0x00);
    assert_eq!(e.reg(0xF), 1);
}

#[test]
fn add_reg_clears_carry_without_overflow() {
    let mut e = boot(&[0x60, 0x01, 0x61, 0x02, 0x80, 0x14]);
    run(&mut e, 3);
    assert_eq!(e.reg(0), 3);
    assert_eq!(e.reg(0xF), 0);
}

#[test]
fn sub_reg_flags_absence_of_borrow() {
    let mut e = boot(&[0x60, 0x05, 0x61, 0x03, 0x80, 0x15]);
    run(&mut e, 3);
    assert_eq!(e.reg(0), 2);
    assert_eq!(e.reg(0xF), 1);
    let mut e2 = boot(&[0x60, 0x03, 0x61, 0x05, 0x80, 0x15]);
    run(&mut e2, 3);
    assert_eq!(e2.reg(0), 254);
    assert_eq!(e2.reg(0xF), 0);
}

#[test]
fn shift_right_drops_lsb_into_flag() {
    let mut e = boot(&[0x60, 0x05, 0x80, 0x06]);
    run(&mut e, 2);
    assert_eq!(e.reg(0), 2);
    assert_eq!(e.reg(0xF), 1);
}

#[test]
fn sub_reversed() {
    let mut e = boot(&[0x60, 0x03, 0x61, 0x05, 0x80, 0x17]);
    run(&mut e, 3);
    assert_eq!(e.reg(0), 2);
    assert_eq!(e.reg(0xF), 1);
    let mut e2 = boot(&[0x60, 0x05, 0x61, 0x03, 0x80, 0x17]);
    run(&mut e2, 3);
    assert_eq!(e2.reg(0), 254);
    assert_eq!(e2.reg(0xF), 0);
}

#[test]
fn shift_left_drops_msb_into_flag() {
    let mut e = boot(&[0x60, 0x81, 0x80, 0x0E]);
    run(&mut e, 2);
    assert_eq!(e.reg(0), 0x02);
    assert_eq!(e.reg(0xF), 1);
    let mut e2 = boot(&[0x60, 0x41, 0x80, 0x0E]);
    run(&mut e2, 2);
    assert_eq!(e2.reg(0), 0x82);
    assert_eq!(e2.reg(0xF), 0);
}

#[test]
fn set_index_register() {
    let mut e = boot(&[0xA1, 0x23]);
    e.tick().unwrap();
    assert_eq!(e.i_reg(), 0x123);
}

#[test]
fn jump_with_offset() {
    let mut e = boot(&[0x60, 0x10, 0xB3, 0x00]);
    run(&mut e, 2);
    assert_eq!(e.pc(), 0x310);
}

#[test]
fn random_byte_is_masked() {
    let mut e = boot(&[0xC0, 0x7F]);
    e.tick_with(0xAB).unwrap();
    assert_eq!(e.reg(0), 0xAB & 0x7F);
    assert_eq!(e.pc(), 0x202);
    let mut e2 = boot(&[0xC0, 0x00]);
    e2.tick_with(0xFF).unwrap();
    assert_eq!(e2.reg(0), 0);
    // through tick itself the mask still holds, whatever byte was drawn
    let mut e3 = boot(&[0xC0, 0x0F]);
    e3.tick().unwrap();
    assert!(e3.reg(0) <= 0x0F);
}

#[test]
fn skip_if_key_pressed() {
    let mut e = boot(&[0x60, 0x05, 0xE0, 0x9E]);
    e.keypress(5, true);
    run(&mut e, 2);
    assert_eq!(e.pc(), 0x206);
    let mut e2 = boot(&[0x60, 0x05, 0xE0, 0x9E]);
    run(&mut e2, 2);
    assert_eq!(e2.pc(), 0x204);
}

#[test]
fn skip_if_key_released() {
    let mut e = boot(&[0x60, 0x05, 0xE0, 0xA1]);
    run(&mut e, 2);
    assert_eq!(e.pc(), 0x206);
    let mut e2 = boot(&[0x60, 0x05, 0xE0, 0xA1]);
    e2.keypress(5, true);
    run(&mut e2, 2);
    assert_eq!(e2.pc(), 0x204);
}

#[test]
fn key_release_after_press_is_observed() {
    let mut e = boot(&[0x60, 0x05, 0xE0, 0x9E]);
    e.keypress(5, true);
    e.keypress(5, false);
    run(&mut e, 2);
    assert_eq!(e.pc(), 0x204);
}

#[test]
fn delay_timer_round_trip() {
    let mut e = boot(&[0x60, 0x09, 0xF0, 0x15, 0xF1, 0x07]);
    run(&mut e, 3);
    assert_eq!(e.reg(1), 9);
}

#[test]
fn wait_key_rewinds_until_a_key_arrives() {
    let mut e = boot(&[0xF0, 0x0A]);
    e.tick().unwrap();
    assert_eq!(e.pc(), 0x200);
    e.tick().unwrap();
    assert_eq!(e.pc(), 0x200);
    e.keypress(7, true);
    e.tick().unwrap();
    assert_eq!(e.pc(), 0x202);
    assert_eq!(e.reg(0), 7);
}

#[test]
fn wait_key_takes_lowest_pressed_key() {
    let mut e = boot(&[0xF0, 0x0A]);
    e.keypress(9, true);
    e.keypress(4, true);
    e.tick().unwrap();
    assert_eq!(e.reg(0), 4);
}

#[test]
fn add_to_index_wraps_at_sixteen_bits() {
    // i = 0xFFF, then add v0 = 0xFF to it in a loop
    let mut e = boot(&[0xAF, 0xFF, 0x60, 0xFF, 0xF0, 0x1E, 0x12, 0x04]);
    run(&mut e, 2);
    for _ in 0..241 {
        // one add, one jump back
        run(&mut e, 2);
    }
    // 0xFFF + 241 * 0xFF = 65550, which wraps to 14
    assert_eq!(e.i_reg(), 14);
}

#[test]
fn font_lookup_points_into_the_font() {
    let mut e = boot(&[0x63, 0x07, 0xF3, 0x29]);
    run(&mut e, 2);
    assert_eq!(e.i_reg(), 35);
    // the glyph for 7 starts with 0xF0, 0x10
    assert_eq!(e.read_byte(35), 0xF0);
    assert_eq!(e.read_byte(36), 0x10);
}

#[test]
fn bcd_of_three_digit_value() {
    let mut e = boot(&[0x60, 0xEA, 0xA3, 0x00, 0xF0, 0x33]);
    run(&mut e, 3);
    assert_eq!(e.read_byte(0x300), 2);
    assert_eq!(e.read_byte(0x301), 3);
    assert_eq!(e.read_byte(0x302), 4);
}

#[test]
fn bcd_of_single_digit_value() {
    let mut e = boot(&[0x60, 0x07, 0xA3, 0x00, 0xF0, 0x33]);
    run(&mut e, 3);
    assert_eq!(e.read_byte(0x300), 0);
    assert_eq!(e.read_byte(0x301), 0);
    assert_eq!(e.read_byte(0x302), 7);
}

#[test]
fn store_and_load_register_block() {
    // v0..v2 = 1, 2, 3; store through v2 at 0x300
    let mut e = boot(&[
        0x60, 0x01, 0x61, 0x02, 0x62, 0x03, 0xA3, 0x00, 0xF2, 0x55, 0x60, 0x00, 0x61, 0x00,
        0x62, 0x00, 0xF2, 0x65,
    ]);
    run(&mut e, 5);
    assert_eq!(e.read_byte(0x300), 1);
    assert_eq!(e.read_byte(0x301), 2);
    assert_eq!(e.read_byte(0x302), 3);
    assert_eq!(e.read_byte(0x303), 0);
    run(&mut e, 4);
    assert_eq!(e.reg(0), 1);
    assert_eq!(e.reg(1), 2);
    assert_eq!(e.reg(2), 3);
}

#[test]
fn store_block_of_one_register() {
    let mut e = boot(&[0x60, 0x2A, 0x61, 0x55, 0xA3, 0x00, 0xF0, 0x55]);
    run(&mut e, 4);
    assert_eq!(e.read_byte(0x300), 0x2A);
    // v1 was not stored
    assert_eq!(e.read_byte(0x301), 0);
}

#[test]
fn unknown_opcodes_are_fatal() {
    let mut e = boot(&[0x00, 0x00]);
    assert_eq!(e.tick(), Err(EmuError::UnknownOpcode(0x0000)));
    assert_eq!(e.pc(), 0x200);
    // 5xyd with a nonzero low nibble is outside the table
    let mut e2 = boot(&[0x50, 0x11]);
    assert_eq!(e2.tick(), Err(EmuError::UnknownOpcode(0x5011)));
    // so is 8xyd for an undocumented d
    let mut e3 = boot(&[0x80, 0x18]);
    assert_eq!(e3.tick(), Err(EmuError::UnknownOpcode(0x8018)));
}

#[test]
fn return_with_empty_stack_underflows() {
    let mut e = boot(&[0x00, 0xEE]);
    assert_eq!(e.tick(), Err(EmuError::StackUnderflow));
    assert_eq!(e.pc(), 0x200);
}

#[test]
fn seventeenth_nested_call_overflows() {
    // a call that calls itself
    let mut e = boot(&[0x22, 0x00]);
    for _ in 0..16 {
        e.tick().unwrap();
        assert_eq!(e.pc(), 0x200);
    }
    assert_eq!(e.tick(), Err(EmuError::StackOverflow));
    assert_eq!(e.pc(), 0x200);
}

#[test]
fn draw_reaching_past_memory_end_is_fatal() {
    // i = 0xFFF but two sprite rows would read past the end
    let mut e = boot(&[0xAF, 0xFF, 0xD0, 0x02]);
    e.tick().unwrap();
    assert_eq!(e.tick(), Err(EmuError::AddressOutOfBounds));
}

#[test]
fn bcd_reaching_past_memory_end_is_fatal() {
    let mut e = boot(&[0xAF, 0xFE, 0xF0, 0x33]);
    e.tick().unwrap();
    assert_eq!(e.tick(), Err(EmuError::AddressOutOfBounds));
}

#[test]
fn block_reaching_past_memory_end_is_fatal() {
    // i = 0xFF1, sixteen registers would end at 0x1001
    let mut e = boot(&[0xAF, 0xF1, 0xFF, 0x65]);
    e.tick().unwrap();
    assert_eq!(e.tick(), Err(EmuError::AddressOutOfBounds));
    // while i = 0xFF0 exactly fits
    let mut e2 = boot(&[0xAF, 0xF0, 0xFF, 0x65]);
    e2.tick().unwrap();
    e2.tick().unwrap();
    assert_eq!(e2.pc(), 0x204);
}

#[test]
fn key_test_with_register_out_of_range_is_fatal() {
    let mut e = boot(&[0x60, 0xFF, 0xE0, 0x9E]);
    e.tick().unwrap();
    assert_eq!(e.tick(), Err(EmuError::KeyOutOfRange));
}
