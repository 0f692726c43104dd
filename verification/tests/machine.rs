use chip8_core::{Chip8Error, Emulator, RAM_SIZE, SCREEN_HEIGHT, SCREEN_WIDTH, START_ADDRESS};

#[test]
fn new_machine_is_in_initial_state() {
    let e = Emulator::new();
    assert_eq!(e.pc, START_ADDRESS);
    assert_eq!(e.ram.len(), RAM_SIZE);
    assert_eq!(e.ram[0], 0xF0); // first font row
    assert_eq!(e.ram[79], 0x80); // last font row
    assert!(e.ram[80..].iter().all(|b| *b == 0));
    assert_eq!(e.get_display().len(), SCREEN_WIDTH * SCREEN_HEIGHT);
    assert!(e.get_display().iter().all(|p| !p));
    assert!(e.v_reg.iter().all(|v| *v == 0));
    assert_eq!(e.i_reg, 0);
    assert_eq!(e.sp, 0);
    assert!(e.keys.iter().all(|k| !k));
    assert_eq!(e.dt, 0);
    assert_eq!(e.st, 0);
}

#[test]
fn load_places_image_and_keeps_font() {
    let mut e = Emulator::new();
    e.load(&[1, 2, 3]);
    assert_eq!(&e.ram[0x200..0x203], &[1, 2, 3]);
    assert_eq!(e.ram[0x203], 0);
    assert_eq!(e.ram[0], 0xF0);
    assert_eq!(e.ram[79], 0x80);
}

#[test]
fn reset_then_load_matches_new_then_load() {
    let image = [0x60, 0x2A, 0xA3, 0x00, 0xD0, 0x15];
    let mut fresh = Emulator::new();
    fresh.load(&image);

    let mut used = Emulator::new();
    used.load(&[0xFF; 0x100]);
    assert!(used.execute(0x6A77).is_ok());
    assert!(used.execute(0xA123).is_ok());
    assert!(used.execute(0x2ABC).is_ok());
    used.key_pressed(3, true);
    assert!(used.execute(0xF518).is_ok());
    used.tick_timers();
    used.reset();
    used.load(&image);

    assert_eq!(fresh.pc, used.pc);
    assert_eq!(fresh.ram, used.ram);
    assert_eq!(fresh.display, used.display);
    assert_eq!(fresh.v_reg, used.v_reg);
    assert_eq!(fresh.i_reg, used.i_reg);
    assert_eq!(fresh.sp, used.sp);
    assert_eq!(fresh.stack, used.stack);
    assert_eq!(fresh.keys, used.keys);
    assert_eq!(fresh.dt, used.dt);
    assert_eq!(fresh.st, used.st);
}

#[test]
fn timers_decrement_and_signal_sound_stop_once() {
    let mut e = Emulator::new();
    assert!(e.execute(0x6001).is_ok());
    assert!(e.execute(0xF018).is_ok()); // sound timer = 1
    assert!(e.execute(0x6202).is_ok());
    assert!(e.execute(0xF215).is_ok()); // delay timer = 2
    assert!(e.tick_timers());
    assert_eq!(e.st, 0);
    assert_eq!(e.dt, 1);
    assert!(!e.tick_timers()); // at zero: a no-op, no second signal
    assert_eq!(e.st, 0);
    assert_eq!(e.dt, 0);
    assert!(!e.tick_timers());
    assert_eq!(e.dt, 0);
}

#[test]
fn sound_stop_signalled_only_on_one_to_zero() {
    let mut e = Emulator::new();
    assert!(e.execute(0x6003).is_ok());
    assert!(e.execute(0xF018).is_ok()); // sound timer = 3
    assert!(!e.tick_timers());
    assert!(!e.tick_timers());
    assert!(e.tick_timers());
    assert!(!e.tick_timers());
}

#[test]
fn key_state_is_recorded_and_cleared() {
    let mut e = Emulator::new();
    e.key_pressed(3, true);
    assert!(e.keys[3]);
    e.key_pressed(3, false);
    assert!(!e.keys[3]);
}

#[test]
fn push_and_pop_are_inverse() {
    let mut e = Emulator::new();
    e.push(0x123);
    e.push(0x456);
    assert_eq!(e.sp, 2);
    assert_eq!(e.pop(), 0x456);
    assert_eq!(e.pop(), 0x123);
    assert_eq!(e.sp, 0);
}

#[test]
fn return_on_empty_stack_faults() {
    let mut e = Emulator::new();
    assert_eq!(e.execute(0x00EE), Err(Chip8Error::MachineFault));
    assert_eq!(e.pc, 0x200);
    assert_eq!(e.sp, 0);
}

#[test]
fn call_past_stack_capacity_faults() {
    let mut e = Emulator::new();
    for _ in 0..16 {
        assert!(e.execute(0x2ABC).is_ok());
    }
    assert_eq!(e.sp, 16);
    assert_eq!(e.execute(0x2ABC), Err(Chip8Error::MachineFault));
    assert_eq!(e.sp, 16);
}

#[test]
fn draw_past_end_of_memory_faults() {
    let mut e = Emulator::new();
    assert!(e.execute(0xAFFF).is_ok());
    assert_eq!(e.execute(0xD002), Err(Chip8Error::MachineFault));
    assert!(e.execute(0xD001).is_ok()); // the last byte is still readable
}

#[test]
fn bcd_past_end_of_memory_faults() {
    let mut e = Emulator::new();
    assert!(e.execute(0xAFFE).is_ok());
    assert_eq!(e.execute(0xF033), Err(Chip8Error::MachineFault));
}

#[test]
fn store_registers_past_end_of_memory_faults() {
    let mut e = Emulator::new();
    assert!(e.execute(0xAFFE).is_ok());
    assert_eq!(e.execute(0xF255), Err(Chip8Error::MachineFault));
    assert!(e.execute(0xF155).is_ok());
}

#[test]
fn key_check_with_register_out_of_range_faults() {
    let mut e = Emulator::new();
    assert!(e.execute(0x6020).is_ok());
    assert_eq!(e.execute(0xE09E), Err(Chip8Error::MachineFault));
    assert_eq!(e.execute(0xE0A1), Err(Chip8Error::MachineFault));
}

#[test]
fn fetch_past_end_of_memory_faults() {
    let mut e = Emulator::new();
    assert!(e.execute(0x1FFF).is_ok());
    assert_eq!(e.tick(), Err(Chip8Error::MachineFault));
    assert_eq!(e.pc, 0xFFF); // still addressing the faulting spot
}

#[test]
fn tick_runs_the_loaded_program() {
    // set v0, add, set index, store: a tiny straight-line program
    let mut e = Emulator::new();
    e.load(&[0x60, 0x29, 0x70, 0x01, 0xA3, 0x00, 0xF0, 0x55]);
    for _ in 0..4 {
        assert!(e.tick().is_ok());
    }
    assert_eq!(e.pc, 0x208);
    assert_eq!(e.v_reg[0], 0x2A);
    assert_eq!(e.ram[0x300], 0x2A);
}

#[test]
fn faulting_tick_leaves_state_unchanged() {
    let mut e = Emulator::new();
    e.load(&[0xF0, 0xFF]); // no such instruction
    assert_eq!(e.tick(), Err(Chip8Error::UnimplementedOpcode));
    assert_eq!(e.pc, 0x200);
}
