use chip8_core::{Chip8Error, Emulator};

#[test]
fn op_jump_sets_pc() {
    let mut e = Emulator::new();
    assert!(e.execute(0x1234).is_ok());
    assert_eq!(e.pc, 0x234);
}

#[test]
fn op_set_register() {
    let mut e = Emulator::new();
    assert!(e.execute(0x6A42).is_ok());
    assert_eq!(e.v_reg[0xA], 0x42);
    assert_eq!(e.pc, 0x200);
    assert_eq!(e.i_reg, 0);
}

#[test]
fn op_set_index_register() {
    let mut e = Emulator::new();
    assert!(e.execute(0xA123).is_ok());
    assert_eq!(e.i_reg, 0x123);
    assert_eq!(e.pc, 0x200);
}

#[test]
fn op_jump_with_offset() {
    let mut e = Emulator::new();
    assert!(e.execute(0x6005).is_ok());
    assert!(e.execute(0xB200).is_ok());
    assert_eq!(e.pc, 0x205);
}

#[test]
fn skip_eq_imm_taken_advances_pc_by_4() {
    let mut e = Emulator::new();
    e.load(&[0x30, 0x07]);
    assert!(e.execute(0x6007).is_ok());
    assert!(e.tick().is_ok());
    assert_eq!(e.pc, 0x204);
}

#[test]
fn skip_eq_imm_not_taken_advances_pc_by_2() {
    let mut e = Emulator::new();
    e.load(&[0x30, 0x07]);
    assert!(e.tick().is_ok());
    assert_eq!(e.pc, 0x202);
}

#[test]
fn skip_neq_imm() {
    let mut e = Emulator::new();
    e.load(&[0x40, 0x07]);
    assert!(e.tick().is_ok());
    assert_eq!(e.pc, 0x204);

    let mut e2 = Emulator::new();
    e2.load(&[0x40, 0x07]);
    assert!(e2.execute(0x6007).is_ok());
    assert!(e2.tick().is_ok());
    assert_eq!(e2.pc, 0x202);
}

#[test]
fn skip_eq_register() {
    let mut e = Emulator::new();
    e.load(&[0x50, 0x10]);
    assert!(e.tick().is_ok());
    assert_eq!(e.pc, 0x204);

    let mut e2 = Emulator::new();
    e2.load(&[0x50, 0x10]);
    assert!(e2.execute(0x6101).is_ok());
    assert!(e2.tick().is_ok());
    assert_eq!(e2.pc, 0x202);
}

#[test]
fn skip_neq_register() {
    let mut e = Emulator::new();
    e.load(&[0x90, 0x10]);
    assert!(e.execute(0x6101).is_ok());
    assert!(e.tick().is_ok());
    assert_eq!(e.pc, 0x204);
}

#[test]
fn skip_if_key_pressed() {
    let mut e = Emulator::new();
    e.load(&[0xE0, 0x9E]);
    e.key_pressed(0, true);
    assert!(e.tick().is_ok());
    assert_eq!(e.pc, 0x204);

    let mut e2 = Emulator::new();
    e2.load(&[0xE0, 0x9E]);
    assert!(e2.tick().is_ok());
    assert_eq!(e2.pc, 0x202);
}

#[test]
fn skip_if_key_not_pressed() {
    let mut e = Emulator::new();
    e.load(&[0xE0, 0xA1]);
    assert!(e.tick().is_ok());
    assert_eq!(e.pc, 0x204);

    let mut e2 = Emulator::new();
    e2.load(&[0xE0, 0xA1]);
    e2.key_pressed(0, true);
    assert!(e2.tick().is_ok());
    assert_eq!(e2.pc, 0x202);
}

#[test]
fn call_return_round_trip_restores_pc() {
    let mut e = Emulator::new();
    assert!(e.execute(0x2ABC).is_ok());
    assert_eq!(e.pc, 0xABC);
    assert_eq!(e.sp, 1);
    assert_eq!(e.stack[0], 0x200);
    assert!(e.execute(0x00EE).is_ok());
    assert_eq!(e.pc, 0x200);
    assert_eq!(e.sp, 0);
}

#[test]
fn add_immediate_wraps_without_flag() {
    let mut e = Emulator::new();
    assert!(e.execute(0x60FF).is_ok());
    assert!(e.execute(0x6F05).is_ok());
    assert!(e.execute(0x7001).is_ok());
    assert_eq!(e.v_reg[0], 0x00);
    assert_eq!(e.v_reg[0xF], 0x05); // the flag register is untouched
}

#[test]
fn add_register_sets_carry_flag() {
    let mut e = Emulator::new();
    assert!(e.execute(0x60FF).is_ok());
    assert!(e.execute(0x6101).is_ok());
    assert!(e.execute(0x8014).is_ok());
    assert_eq!(e.v_reg[0], 0x00);
    assert_eq!(e.v_reg[0xF], 1);

    let mut e2 = Emulator::new();
    assert!(e2.execute(0x6010).is_ok());
    assert!(e2.execute(0x6101).is_ok());
    assert!(e2.execute(0x8014).is_ok());
    assert_eq!(e2.v_reg[0], 0x11);
    assert_eq!(e2.v_reg[0xF], 0);
}

#[test]
fn sub_register_sets_not_borrow_flag() {
    let mut e = Emulator::new();
    assert!(e.execute(0x6005).is_ok());
    assert!(e.execute(0x6103).is_ok());
    assert!(e.execute(0x8015).is_ok());
    assert_eq!(e.v_reg[0], 2);
    assert_eq!(e.v_reg[0xF], 1);

    let mut e2 = Emulator::new();
    assert!(e2.execute(0x6003).is_ok());
    assert!(e2.execute(0x6105).is_ok());
    assert!(e2.execute(0x8015).is_ok());
    assert_eq!(e2.v_reg[0], 0xFE);
    assert_eq!(e2.v_reg[0xF], 0);
}

#[test]
fn reverse_sub_register() {
    let mut e = Emulator::new();
    assert!(e.execute(0x6003).is_ok());
    assert!(e.execute(0x6105).is_ok());
    assert!(e.execute(0x8017).is_ok());
    assert_eq!(e.v_reg[0], 2);
    assert_eq!(e.v_reg[0xF], 1);
}

#[test]
fn shift_right_flags_lsb() {
    let mut e = Emulator::new();
    assert!(e.execute(0x6005).is_ok());
    assert!(e.execute(0x8006).is_ok());
    assert_eq!(e.v_reg[0], 2);
    assert_eq!(e.v_reg[0xF], 1);
}

#[test]
fn shift_left_flags_msb() {
    let mut e = Emulator::new();
    assert!(e.execute(0x6081).is_ok());
    assert!(e.execute(0x800E).is_ok());
    assert_eq!(e.v_reg[0], 0x02);
    assert_eq!(e.v_reg[0xF], 1);
}

#[test]
fn alu_copy_or_and_xor() {
    let mut e = Emulator::new();
    assert!(e.execute(0x60F0).is_ok());
    assert!(e.execute(0x613C).is_ok());
    assert!(e.execute(0x8210).is_ok()); // v2 = v1
    assert_eq!(e.v_reg[2], 0x3C);
    assert!(e.execute(0x8011).is_ok()); // v0 |= v1
    assert_eq!(e.v_reg[0], 0xFC);
    assert!(e.execute(0x6070).is_ok());
    assert!(e.execute(0x8012).is_ok()); // v0 &= v1
    assert_eq!(e.v_reg[0], 0x30);
    assert!(e.execute(0x8013).is_ok()); // v0 ^= v1
    assert_eq!(e.v_reg[0], 0x0C);
}

#[test]
fn alu_undefined_subcode_is_noop() {
    let mut e = Emulator::new();
    assert!(e.execute(0x6042).is_ok());
    assert!(e.execute(0x8019).is_ok());
    assert_eq!(e.v_reg[0], 0x42);
    assert_eq!(e.v_reg[1], 0);
    assert_eq!(e.pc, 0x200);
}

#[test]
fn random_register_respects_mask() {
    for _ in 0..32 {
        let mut e = Emulator::new();
        assert!(e.execute(0xC00F).is_ok());
        assert_eq!(e.v_reg[0] & 0xF0, 0);
    }
}

#[test]
fn draw_twice_clears_and_flags_collision() {
    let mut e = Emulator::new();
    e.load(&[0x80]); // one-byte sprite: single pixel, leftmost bit
    assert!(e.execute(0xA200).is_ok());
    assert!(e.execute(0xD011).is_ok());
    assert!(e.get_display()[0]);
    assert_eq!(e.v_reg[0xF], 0);
    assert!(e.execute(0xD011).is_ok());
    assert_eq!(e.v_reg[0xF], 1);
    assert!(e.get_display().iter().all(|p| !p));
}

#[test]
fn draw_wraps_toroidally() {
    let mut e = Emulator::new();
    e.load(&[0xC0, 0xC0]); // two rows, two leftmost bits each
    assert!(e.execute(0xA200).is_ok());
    assert!(e.execute(0x603F).is_ok()); // x = 63
    assert!(e.execute(0x611F).is_ok()); // y = 31
    assert!(e.execute(0xD012).is_ok());
    let d = e.get_display();
    // row 31: columns 63 and 0; row 32 wraps to row 0
    assert!(d[31 * 64 + 63]);
    assert!(d[31 * 64]);
    assert!(d[63]);
    assert!(d[0]);
    assert_eq!(e.v_reg[0xF], 0);
}

#[test]
fn key_wait_blocks_until_key() {
    let mut e = Emulator::new();
    e.load(&[0xF5, 0x0A]);
    for _ in 0..3 {
        assert!(e.tick().is_ok());
        assert_eq!(e.pc, 0x200);
        assert_eq!(e.v_reg[5], 0);
    }
    e.key_pressed(7, true);
    assert!(e.tick().is_ok());
    assert_eq!(e.pc, 0x202);
    assert_eq!(e.v_reg[5], 7);
}

#[test]
fn key_wait_records_lowest_pressed_key() {
    let mut e = Emulator::new();
    e.load(&[0xF0, 0x0A]);
    e.key_pressed(9, true);
    e.key_pressed(4, true);
    assert!(e.tick().is_ok());
    assert_eq!(e.v_reg[0], 4);
}

#[test]
fn delay_timer_set_and_read() {
    let mut e = Emulator::new();
    assert!(e.execute(0x6305).is_ok());
    assert!(e.execute(0xF315).is_ok());
    assert_eq!(e.dt, 5);
    assert!(e.execute(0xF407).is_ok());
    assert_eq!(e.v_reg[4], 5);
}

#[test]
fn bcd_stores_three_digits() {
    let mut e = Emulator::new();
    assert!(e.execute(0x60EA).is_ok()); // 234
    assert!(e.execute(0xA300).is_ok());
    assert!(e.execute(0xF033).is_ok());
    assert_eq!(e.ram[0x300], 2);
    assert_eq!(e.ram[0x301], 3);
    assert_eq!(e.ram[0x302], 4);
}

#[test]
fn store_and_load_registers_round_trip() {
    let mut e = Emulator::new();
    assert!(e.execute(0x6011).is_ok());
    assert!(e.execute(0x6122).is_ok());
    assert!(e.execute(0x6233).is_ok());
    assert!(e.execute(0xA400).is_ok());
    assert!(e.execute(0xF255).is_ok());
    assert_eq!(&e.ram[0x400..0x403], &[0x11, 0x22, 0x33]);
    assert!(e.execute(0x6000).is_ok());
    assert!(e.execute(0x6100).is_ok());
    assert!(e.execute(0x6200).is_ok());
    assert!(e.execute(0xF265).is_ok());
    assert_eq!(e.v_reg[0], 0x11);
    assert_eq!(e.v_reg[1], 0x22);
    assert_eq!(e.v_reg[2], 0x33);
    assert_eq!(e.v_reg[3], 0);
}

#[test]
fn font_glyph_address() {
    let mut e = Emulator::new();
    assert!(e.execute(0x600A).is_ok());
    assert!(e.execute(0xF029).is_ok());
    assert_eq!(e.i_reg, 50);
    // glyph A starts with row 0xF0
    assert_eq!(e.ram[50], 0xF0);
}

#[test]
fn index_add_uses_single_add() {
    // corrected semantics: i += reg[x]; a double add of the index
    // register itself would give 13 here
    let mut e = Emulator::new();
    assert!(e.execute(0xA005).is_ok());
    assert!(e.execute(0x6003).is_ok());
    assert!(e.execute(0xF01E).is_ok());
    assert_eq!(e.i_reg, 8);
}

#[test]
fn unknown_opcode_is_reported_and_harmless() {
    let mut e = Emulator::new();
    assert_eq!(e.execute(0xF0FF), Err(Chip8Error::UnimplementedOpcode));
    assert_eq!(e.execute(0x5017), Err(Chip8Error::UnimplementedOpcode));
    assert_eq!(e.execute(0x0123), Err(Chip8Error::UnimplementedOpcode));
    assert_eq!(e.pc, 0x200);
}

#[test]
fn clear_screen_unlights_everything() {
    let mut e = Emulator::new();
    e.load(&[0xFF]);
    assert!(e.execute(0xA200).is_ok());
    assert!(e.execute(0xD011).is_ok());
    assert!(e.get_display().iter().any(|p| *p));
    assert!(e.execute(0x00E0).is_ok());
    assert!(e.get_display().iter().all(|p| !p));
}

#[test]
fn explicit_noop_changes_nothing() {
    let mut e = Emulator::new();
    assert!(e.execute(0x0000).is_ok());
    assert_eq!(e.pc, 0x200);
    assert_eq!(e.sp, 0);
    assert_eq!(e.i_reg, 0);
}
