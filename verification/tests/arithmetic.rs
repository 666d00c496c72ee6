use ox_chip8::machine::Chip8;

fn boot(program: &[u8]) -> Chip8 {
    let mut vm = Chip8::new();
    vm.init();
    assert_eq!(vm.load_program(program), Ok(()));
    vm
}

fn run(vm: &mut Chip8, cycles: usize) {
    for _ in 0..cycles {
        assert_eq!(vm.step(0), Ok(()));
    }
}

#[test]
fn load_immediate_sets_the_register() {
    let mut vm = boot(&[0x60, 0xFF, 0x6A, 0x12]);
    run(&mut vm, 2);
    assert_eq!(vm.register(0x0), 0xFF);
    assert_eq!(vm.register(0xA), 0x12);
    assert_eq!(vm.pc(), 0x204);
}

#[test]
fn add_immediate_wraps_and_leaves_the_flag() {
    let mut vm = boot(&[0x60, 0xFF, 0x70, 0x02]);
    run(&mut vm, 2);
    assert_eq!(vm.register(0x0), 0x01);
    assert_eq!(vm.register(0xF), 0x00);
}

#[test]
fn add_immediate_to_the_flag_register_wraps() {
    let mut vm = boot(&[0x6F, 0xFF, 0x7F, 0x02]);
    run(&mut vm, 2);
    assert_eq!(vm.register(0xF), 0x01);
}

#[test]
fn add_immediate_without_overflow() {
    let mut vm = boot(&[0x63, 0x10, 0x73, 0x22]);
    run(&mut vm, 2);
    assert_eq!(vm.register(0x3), 0x32);
}

#[test]
fn add_registers_with_carry() {
    let mut vm = boot(&[0x60, 0xFF, 0x61, 0x01, 0x80, 0x14]);
    run(&mut vm, 3);
    assert_eq!(vm.register(0x0), 0x00);
    assert_eq!(vm.register(0xF), 1);
}

#[test]
fn add_registers_without_carry() {
    let mut vm = boot(&[0x60, 0x01, 0x61, 0x01, 0x80, 0x14]);
    run(&mut vm, 3);
    assert_eq!(vm.register(0x0), 0x02);
    assert_eq!(vm.register(0xF), 0);
}

#[test]
fn add_into_the_flag_register_keeps_the_flag() {
    let mut vm = boot(&[0x6F, 0xF0, 0x61, 0x20, 0x8F, 0x14]);
    run(&mut vm, 3);
    assert_eq!(vm.register(0xF), 1);
}

#[test]
fn subtract_without_borrow() {
    let mut vm = boot(&[0x60, 0x05, 0x61, 0x03, 0x80, 0x15]);
    run(&mut vm, 3);
    assert_eq!(vm.register(0x0), 0x02);
    assert_eq!(vm.register(0xF), 1);
}

#[test]
fn subtract_with_borrow() {
    let mut vm = boot(&[0x60, 0x03, 0x61, 0x05, 0x80, 0x15]);
    run(&mut vm, 3);
    assert_eq!(vm.register(0x0), 0xFE);
    assert_eq!(vm.register(0xF), 0);
}

#[test]
fn subtract_equal_values_sets_the_flag() {
    let mut vm = boot(&[0x60, 0x07, 0x61, 0x07, 0x80, 0x15]);
    run(&mut vm, 3);
    assert_eq!(vm.register(0x0), 0x00);
    assert_eq!(vm.register(0xF), 1);
}

#[test]
fn subtract_from_without_borrow() {
    let mut vm = boot(&[0x60, 0x03, 0x61, 0x05, 0x80, 0x17]);
    run(&mut vm, 3);
    assert_eq!(vm.register(0x0), 0x02);
    assert_eq!(vm.register(0x1), 0x05);
    assert_eq!(vm.register(0xF), 1);
}

#[test]
fn subtract_from_with_borrow() {
    let mut vm = boot(&[0x60, 0x05, 0x61, 0x03, 0x80, 0x17]);
    run(&mut vm, 3);
    assert_eq!(vm.register(0x0), 0xFE);
    assert_eq!(vm.register(0xF), 0);
}

#[test]
fn shift_right_moves_the_low_bit_into_the_flag() {
    let mut vm = boot(&[0x60, 0x05, 0x80, 0x16, 0x80, 0x16]);
    run(&mut vm, 2);
    assert_eq!(vm.register(0x0), 0x02);
    assert_eq!(vm.register(0xF), 1);
    run(&mut vm, 1);
    assert_eq!(vm.register(0x0), 0x01);
    assert_eq!(vm.register(0xF), 0);
}

#[test]
fn shift_right_ignores_the_second_register() {
    let mut vm = boot(&[0x60, 0x08, 0x61, 0xFF, 0x80, 0x16]);
    run(&mut vm, 3);
    assert_eq!(vm.register(0x0), 0x04);
    assert_eq!(vm.register(0x1), 0xFF);
}

#[test]
fn shift_left_moves_the_high_bit_into_the_flag() {
    let mut vm = boot(&[0x60, 0xC1, 0x80, 0x0E, 0x80, 0x0E, 0x80, 0x0E]);
    run(&mut vm, 2);
    assert_eq!(vm.register(0x0), 0x82);
    assert_eq!(vm.register(0xF), 1);
    run(&mut vm, 1);
    assert_eq!(vm.register(0x0), 0x04);
    assert_eq!(vm.register(0xF), 1);
    run(&mut vm, 1);
    assert_eq!(vm.register(0x0), 0x08);
    assert_eq!(vm.register(0xF), 0);
}

#[test]
fn shift_of_the_flag_register_leaves_the_flag() {
    let mut vm = boot(&[0x6F, 0x03, 0x8F, 0x06]);
    run(&mut vm, 2);
    assert_eq!(vm.register(0xF), 1);
}

#[test]
fn move_copies_the_second_register() {
    let mut vm = boot(&[0x61, 0x42, 0x80, 0x10]);
    run(&mut vm, 2);
    assert_eq!(vm.register(0x0), 0x42);
    assert_eq!(vm.register(0x1), 0x42);
}

#[test]
fn bitwise_or_and_xor() {
    let mut vm = boot(&[
        0x60, 0xCC, 0x61, 0xAA, 0x62, 0xCC, 0x63, 0xCC, 0x80, 0x11, 0x82, 0x12, 0x83, 0x13,
    ]);
    run(&mut vm, 7);
    assert_eq!(vm.register(0x0), 0xEE);
    assert_eq!(vm.register(0x2), 0x88);
    assert_eq!(vm.register(0x3), 0x66);
    assert_eq!(vm.register(0xF), 0);
}

#[test]
fn random_is_masked_by_the_immediate() {
    let mut vm = boot(&[0xC0, 0x0F, 0xC1, 0xF0, 0xC2, 0x00]);
    assert_eq!(vm.step(0xAB), Ok(()));
    assert_eq!(vm.register(0x0), 0x0B);
    assert_eq!(vm.step(0xAB), Ok(()));
    assert_eq!(vm.register(0x1), 0xA0);
    assert_eq!(vm.step(0xFF), Ok(()));
    assert_eq!(vm.register(0x2), 0x00);
    assert_eq!(vm.pc(), 0x206);
}

#[test]
fn cycle_draws_its_own_random_byte() {
    let mut vm = boot(&[0xC0, 0x0F, 0xC1, 0x00, 0x62, 0x07]);
    assert_eq!(vm.cycle(), Ok(()));
    assert!(vm.register(0x0) <= 0x0F);
    assert_eq!(vm.cycle(), Ok(()));
    assert_eq!(vm.register(0x1), 0x00);
    assert_eq!(vm.cycle(), Ok(()));
    assert_eq!(vm.register(0x2), 0x07);
    assert_eq!(vm.pc(), 0x206);
}

#[test]
fn random_byte_does_not_matter_to_other_instructions() {
    let mut a = boot(&[0x60, 0x12, 0x70, 0x34]);
    let mut b = boot(&[0x60, 0x12, 0x70, 0x34]);
    for _ in 0..2 {
        assert_eq!(a.step(0x00), Ok(()));
        assert_eq!(b.step(0xFF), Ok(()));
    }
    assert_eq!(a.register(0x0), 0x46);
    assert_eq!(b.register(0x0), 0x46);
}

#[test]
fn index_is_loaded_and_added_to() {
    let mut vm = boot(&[0xA1, 0x23, 0x60, 0x10, 0xF0, 0x1E]);
    run(&mut vm, 3);
    assert_eq!(vm.index(), 0x133);
    assert_eq!(vm.register(0xF), 0);
}

#[test]
fn index_addition_wraps_within_the_address_space() {
    let mut vm = boot(&[0xAF, 0xFF, 0x60, 0x02, 0xF0, 0x1E]);
    run(&mut vm, 3);
    assert_eq!(vm.index(), 0x001);
}

#[test]
fn timers_are_set_and_read() {
    let mut vm = boot(&[0x60, 0x2A, 0xF0, 0x15, 0x61, 0x07, 0xF1, 0x18, 0xF2, 0x07]);
    run(&mut vm, 4);
    assert_eq!(vm.delay_timer(), 0x2A);
    assert_eq!(vm.sound_timer(), 0x07);
    vm.tick_timers();
    run(&mut vm, 1);
    assert_eq!(vm.register(0x2), 0x29);
    assert_eq!(vm.sound_timer(), 0x06);
}
