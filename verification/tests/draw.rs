use chip8_core::{Emu, SCREEN_W};

fn boot(program: &[u8]) -> Emu {
    let mut e = Emu::default();
    e.load(&program.to_vec()).unwrap();
    e
}

fn run(e: &mut Emu, steps: usize) {
    for _ in 0..steps {
        e.tick().unwrap();
    }
}

fn pixel(e: &Emu, x: usize, y: usize) -> bool {
    e.get_display()[x + SCREEN_W * y]
}

#[test]
fn draw_sets_pixels_and_wraps_horizontally() {
    // v0 = 60, v1 = 0, i points at the sprite byte 0xFF, draw one row
    let mut e = boot(&[0x60, 0x3C, 0x61, 0x00, 0xA2, 0x0A, 0xD0, 0x11, 0x12, 0x06, 0xFF]);
    run(&mut e, 4);
    for x in [60, 61, 62, 63, 0, 1, 2, 3] {
        assert!(pixel(&e, x, 0));
    }
    for x in 4..60 {
        assert!(!pixel(&e, x, 0));
    }
    for i in SCREEN_W..e.get_display().len() {
        assert!(!e.get_display()[i]);
    }
    // nothing was unset on a blank screen, so no collision is flagged
    assert_eq!(e.reg(0xF), 0);
}

#[test]
fn drawing_twice_clears_and_flags_collision() {
    let mut e = boot(&[0x60, 0x3C, 0x61, 0x00, 0xA2, 0x0A, 0xD0, 0x11, 0x12, 0x06, 0xFF]);
    run(&mut e, 4);
    assert_eq!(e.reg(0xF), 0);
    // jump back and draw the same sprite at the same spot
    run(&mut e, 2);
    assert!(e.get_display().iter().all(|&p| !p));
    assert_eq!(e.reg(0xF), 1);
}

#[test]
fn draw_wraps_vertically() {
    // v0 = 0, v1 = 30, a three-row sprite: rows land on y = 30, 31, 0
    let mut e = boot(&[
        0x60, 0x00, 0x61, 0x1E, 0xA2, 0x0A, 0xD0, 0x13, 0x00, 0x00, 0x80, 0x80, 0x80,
    ]);
    run(&mut e, 4);
    assert!(pixel(&e, 0, 30));
    assert!(pixel(&e, 0, 31));
    assert!(pixel(&e, 0, 0));
    assert!(!pixel(&e, 0, 1));
    assert!(!pixel(&e, 1, 30));
}

#[test]
fn draw_xor_is_per_pixel() {
    // two overlapping rows: 0xFF then 0x0F one pixel lower is no collision;
    // a second 0xFF over the first row clears only its own pixels
    let mut e = boot(&[
        0x60, 0x00, 0x61, 0x00, 0xA2, 0x0E, 0xD0, 0x11, 0xA2, 0x0F, 0xD0, 0x11, 0x00, 0x00,
        0xF0, 0x0F,
    ]);
    run(&mut e, 6);
    // 0xF0 then 0x0F on the same row: together they set all eight columns
    for x in 0..8 {
        assert!(pixel(&e, x, 0));
    }
    assert_eq!(e.reg(0xF), 0);
}

#[test]
fn partial_overlap_flags_collision_and_xors() {
    // 0xFF drawn at x = 0, then 0xFF at x = 4: columns 4..8 collide
    let mut e = boot(&[
        0x60, 0x00, 0x61, 0x00, 0xA2, 0x0C, 0xD0, 0x11, 0x62, 0x04, 0xD2, 0x11, 0xFF,
    ]);
    run(&mut e, 6);
    for x in 0..4 {
        assert!(pixel(&e, x, 0));
    }
    for x in 4..8 {
        assert!(!pixel(&e, x, 0));
    }
    for x in 8..12 {
        assert!(pixel(&e, x, 0));
    }
    assert_eq!(e.reg(0xF), 1);
}

#[test]
fn zero_row_draw_only_clears_the_flag() {
    // leave a collision flag behind, then draw a zero-row sprite
    let mut e = boot(&[
        0x60, 0xFF, 0x61, 0x01, 0x80, 0x14, 0xA2, 0x0A, 0xD0, 0x10,
    ]);
    run(&mut e, 3);
    assert_eq!(e.reg(0xF), 1);
    run(&mut e, 2);
    assert_eq!(e.reg(0xF), 0);
    assert!(e.get_display().iter().all(|&p| !p));
}
