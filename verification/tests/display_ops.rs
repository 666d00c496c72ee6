use ox_chip8::display::Framebuffer;
use ox_chip8::error::{Chip8Error, Fault};
use ox_chip8::machine::Chip8;

fn boot(program: &[u8]) -> Chip8 {
    let mut vm = Chip8::new();
    vm.init();
    assert_eq!(vm.load_program(program), Ok(()));
    vm
}

fn run(vm: &mut Chip8, cycles: usize) {
    for _ in 0..cycles {
        assert_eq!(vm.step(0), Ok(()));
    }
}

fn lit(display: &Framebuffer) -> Vec<(usize, usize)> {
    let mut found = Vec::new();
    for y in 0..32 {
        for x in 0..64 {
            if display.pixel(x, y) {
                found.push((x, y));
            }
        }
    }
    found
}

#[test]
fn new_framebuffer_is_dark() {
    let display = Framebuffer::new();
    assert_eq!(lit(&display), vec![]);
}

#[test]
fn sprite_bits_land_left_to_right_and_top_to_bottom() {
    let mut display = Framebuffer::new();
    assert!(!display.draw_sprite(3, 2, &[0b1010_0001, 0b0100_0000]));
    assert_eq!(lit(&display), vec![(3, 2), (5, 2), (10, 2), (4, 3)]);
}

#[test]
fn drawing_over_lit_pixels_turns_them_off_and_collides() {
    let mut display = Framebuffer::new();
    assert!(!display.draw_sprite(0, 0, &[0b1100_0000]));
    assert!(display.draw_sprite(1, 0, &[0b1100_0000]));
    assert_eq!(lit(&display), vec![(0, 0), (2, 0)]);
}

#[test]
fn drawing_beside_lit_pixels_does_not_collide() {
    let mut display = Framebuffer::new();
    assert!(!display.draw_sprite(0, 0, &[0b1010_0000]));
    assert!(!display.draw_sprite(0, 0, &[0b0101_0000]));
    assert_eq!(lit(&display), vec![(0, 0), (1, 0), (2, 0), (3, 0)]);
}

#[test]
fn drawing_twice_restores_the_screen() {
    let mut display = Framebuffer::new();
    assert!(!display.draw_sprite(10, 10, &[0xFF, 0x81, 0xFF]));
    let before = lit(&display);
    let sprite = [0x3C, 0xC3, 0x18];
    let first = display.draw_sprite(12, 9, &sprite);
    assert!(first);
    let second = display.draw_sprite(12, 9, &sprite);
    assert!(second);
    assert_eq!(lit(&display), before);
}

#[test]
fn second_drawing_on_a_dark_screen_collides() {
    let mut display = Framebuffer::new();
    assert!(!display.draw_sprite(0, 0, &[0x80]));
    assert!(display.draw_sprite(0, 0, &[0x80]));
    assert_eq!(lit(&display), vec![]);
}

#[test]
fn second_drawing_of_a_sprite_wholly_over_lit_pixels_does_not_collide() {
    let mut display = Framebuffer::new();
    assert!(!display.draw_sprite(0, 0, &[0xF0]));
    assert!(display.draw_sprite(0, 0, &[0x60]));
    assert!(!display.draw_sprite(0, 0, &[0x60]));
    assert_eq!(lit(&display), vec![(0, 0), (1, 0), (2, 0), (3, 0)]);
}

#[test]
fn empty_sprite_and_blank_rows_change_nothing() {
    let mut display = Framebuffer::new();
    assert!(!display.draw_sprite(5, 5, &[]));
    assert!(!display.draw_sprite(5, 5, &[0x00, 0x00]));
    assert_eq!(lit(&display), vec![]);
}

#[test]
fn sprite_wraps_around_both_edges() {
    let mut display = Framebuffer::new();
    assert!(!display.draw_sprite(62, 31, &[0b1111_0000, 0b1000_0000]));
    assert_eq!(lit(&display), vec![(62, 0), (0, 31), (1, 31), (62, 31), (63, 31)]);
}

#[test]
fn start_position_is_taken_modulo_the_screen() {
    let mut a = Framebuffer::new();
    let mut b = Framebuffer::new();
    assert!(!a.draw_sprite(64 + 7, 32 + 3, &[0xA5, 0x5A]));
    assert!(!b.draw_sprite(7, 3, &[0xA5, 0x5A]));
    assert_eq!(lit(&a), lit(&b));
    let mut c = Framebuffer::new();
    assert!(!c.draw_sprite(255, 255, &[0xC0]));
    assert_eq!(lit(&c), vec![(0, 31), (63, 31)]);
}

#[test]
fn tallest_sprite_is_drawn_whole() {
    let mut display = Framebuffer::new();
    let sprite = [0x80u8; 15];
    assert!(!display.draw_sprite(0, 20, &sprite));
    let mut expected: Vec<(usize, usize)> = (0..3).map(|y| (0, y)).collect();
    expected.extend((20..32).map(|y| (0, y)));
    assert_eq!(lit(&display), expected);
}

#[test]
fn clear_turns_every_pixel_off() {
    let mut display = Framebuffer::new();
    assert!(!display.draw_sprite(1, 1, &[0xFF; 8]));
    display.clear();
    assert_eq!(lit(&display), vec![]);
}

#[test]
fn draw_instruction_shows_a_font_glyph() {
    // V0 := 2 (x), V1 := 1 (y), V2 := 0 (digit), I := glyph, draw 5 rows
    let mut vm = boot(&[0x60, 0x02, 0x61, 0x01, 0x62, 0x00, 0xF2, 0x29, 0xD0, 0x15]);
    run(&mut vm, 5);
    assert_eq!(
        lit(vm.display()),
        vec![
            (2, 1),
            (3, 1),
            (4, 1),
            (5, 1),
            (2, 2),
            (5, 2),
            (2, 3),
            (5, 3),
            (2, 4),
            (5, 4),
            (2, 5),
            (3, 5),
            (4, 5),
            (5, 5),
        ]
    );
    assert_eq!(vm.register(0xF), 0);
    assert_eq!(vm.pc(), 0x20A);
}

#[test]
fn draw_instruction_twice_clears_and_reports_collision() {
    let mut vm = boot(&[0x60, 0x3E, 0x61, 0x1F, 0xA0, 0x05, 0xD0, 0x15, 0xD0, 0x15]);
    run(&mut vm, 4);
    assert_eq!(vm.register(0xF), 0);
    assert!(!lit(vm.display()).is_empty());
    run(&mut vm, 1);
    assert_eq!(vm.register(0xF), 1);
    assert_eq!(lit(vm.display()), vec![]);
}

#[test]
fn draw_instruction_sets_the_flag_last() {
    // the sprite is drawn at (VF, V1) as they were, then VF takes the collision flag
    let mut vm = boot(&[0x6F, 0x07, 0x61, 0x00, 0xA0, 0x00, 0xDF, 0x11]);
    run(&mut vm, 4);
    assert_eq!(lit(vm.display()), vec![(7, 0), (8, 0), (9, 0), (10, 0)]);
    assert_eq!(vm.register(0xF), 0);
}

#[test]
fn draw_instruction_with_no_rows_draws_nothing() {
    let mut vm = boot(&[0x6F, 0x05, 0xAF, 0xFF, 0xD0, 0x00]);
    run(&mut vm, 3);
    assert_eq!(lit(vm.display()), vec![]);
    assert_eq!(vm.register(0xF), 0);
    assert_eq!(vm.pc(), 0x206);
}

#[test]
fn draw_instruction_past_the_end_of_memory_is_refused() {
    let mut vm = boot(&[0x6F, 0x05, 0xAF, 0xFE, 0xD0, 0x03]);
    run(&mut vm, 2);
    assert_eq!(
        vm.step(0),
        Err(Fault { error: Chip8Error::OutOfBounds, address: 0x204, opcode: Some(0xD003) })
    );
    assert_eq!(lit(vm.display()), vec![]);
    assert_eq!(vm.register(0xF), 0x05);
    assert_eq!(vm.pc(), 0x204);
}

#[test]
fn draw_instruction_up_to_the_last_byte_succeeds() {
    let mut program = vec![0u8; 0xE00];
    program[..4].copy_from_slice(&[0xAF, 0xFE, 0xD0, 0x02]);
    program[0xDFE] = 0x80;
    program[0xDFF] = 0x40;
    let mut vm = boot(&program);
    run(&mut vm, 2);
    assert_eq!(lit(vm.display()), vec![(0, 0), (1, 1)]);
}

#[test]
fn clear_screen_instruction() {
    let mut vm = boot(&[0xA0, 0x00, 0xD0, 0x05, 0x00, 0xE0]);
    run(&mut vm, 2);
    assert!(!lit(vm.display()).is_empty());
    run(&mut vm, 1);
    assert_eq!(lit(vm.display()), vec![]);
    assert_eq!(vm.pc(), 0x206);
}
