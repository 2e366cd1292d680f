use cpuem::bios::{biosBasicColor, call_to_bios, BiosOutcome};
use cpuem::cam::{CpuCam, CurrentScreenOn};
use cpuem::disk::disk;
use cpuem::font::{add_padding, what_is_char};
use cpuem::ram::RamUnit;
use cpuem::screen::{Screen, RGB};

fn same(a: RGB, b: RGB) -> bool {
    a.red == b.red && a.green == b.green && a.blue == b.blue
}

#[test]
fn screen_writes_under_the_cursor() {
    let mut s = Screen::new();
    let mut cam = CpuCam::new();
    s.update_cursor_pos(3, 4);
    s.write(RGB::new(1, 2, 3), &mut cam);
    assert!(same(s.at(3, 4), RGB::new(1, 2, 3)));
    assert!(same(cam.screen[3][4], RGB::new(1, 2, 3)));
    assert!(cam.wire_cpu_to_screen);
    assert!(same(s.at(4, 3), RGB::new(0, 0, 0)));
    assert_eq!((s.get_cursor_x(), s.get_cursor_y()), (3, 4));
}

#[test]
fn fresh_camera() {
    let cam = CpuCam::new();
    assert_eq!(cam.last_instruction, "---");
    assert_eq!(cam.step_just_done, "None");
    assert!(cam.screen_on == CurrentScreenOn::HalfAndHalf);
    assert_eq!(cam.registers, [0u32; 16]);
}

#[test]
fn camera_setters() {
    let mut cam = CpuCam::new();
    cam.reg_set(3, 9);
    cam.reg_set(16, 9);
    assert_eq!(cam.registers[3], 9);
    cam.ram_set(0x21, 5);
    assert_eq!(cam.ram[1][2], 5);
    assert_eq!(cam.last_ram_write, Some((0x21, 5)));
    cam.ram_read_notify(4);
    assert_eq!(cam.last_ram_read, Some(4));
    cam.key_set(2, true, true);
    cam.key_set(45, true, true);
    assert!(cam.keys_held[2] && cam.keys_pressed[2]);
    cam.set_last_instr("ADD");
    assert_eq!(cam.last_instruction, "ADD");
    cam.end_frame();
    assert_eq!(cam.last_ram_write, None);
    assert_eq!(cam.last_ram_read, None);
    assert!(!cam.wire_cpu_to_ram && !cam.wire_ram_to_cpu);
    assert!(!cam.keys_pressed[2] && cam.keys_held[2]);
    let snap = cam.as_cpu_snapshot();
    assert_eq!(snap.registers[3], 9);
    assert_eq!(cam.as_ram_snapshot().cells[1][2], 5);
}

#[test]
fn font_glyphs() {
    let bang = what_is_char('!');
    assert_eq!(bang, vec![vec![true], vec![true], vec![true], vec![false], vec![false]]);
    let space = what_is_char(' ');
    assert!(space.iter().all(|r| r.len() == 5 && r.iter().all(|p| !p)));
    // characters without a glyph of their own get the checkerboard
    let unknown = what_is_char('Z');
    assert_eq!(unknown[0], vec![true, false, true, false, true]);
    assert_eq!(unknown[1], vec![false, true, false, true, false]);
    assert_eq!(what_is_char('a'), unknown);
    assert_eq!(what_is_char('\u{0}'), unknown);
    assert_eq!(what_is_char(':')[1], vec![true]);
    assert_eq!(
        what_is_char('%'),
        vec![
            vec![true, false, false, false, true],
            vec![false, false, false, true, false],
            vec![false, false, true, false, false],
            vec![false, true, false, false, false],
            vec![true, false, false, false, true],
        ]
    );
    assert_eq!(
        what_is_char('P'),
        vec![
            vec![true, true, true],
            vec![true, false, true],
            vec![true, true, true],
            vec![true, false, false],
            vec![true, false, false],
        ]
    );
}

#[test]
fn every_printable_glyph_up_to_p_is_its_own() {
    let unknown = what_is_char('Z');
    for code in 32u8..=80 {
        let g = what_is_char(code as char);
        assert_ne!(g, unknown, "{:?}", code as char);
        assert_eq!(g.len(), 5);
        let w = g[0].len();
        assert!((1..=5).contains(&w));
        assert!(g.iter().all(|r| r.len() == w));
    }
}

#[test]
fn padding_is_blank() {
    assert_eq!(add_padding(2, 3), vec![vec![false; 3], vec![false; 3]]);
    assert!(add_padding(0, 4).is_empty());
}

#[test]
fn bios_colors() {
    assert!(same(biosBasicColor(0), RGB::new(12, 10, 9)));
    assert!(same(biosBasicColor(4), RGB::new(231, 24, 11)));
    assert!(same(biosBasicColor(15), RGB::new(248, 250, 252)));
    assert!(same(biosBasicColor(16), RGB::new(0, 0, 0)));
}

#[test]
fn int_0a_draws_a_glyph_and_moves_the_cursor() {
    let (mut cam, mut s, mut d, mut ram) = (CpuCam::new(), Screen::new(), disk::new(), RamUnit::new());
    // '!' is one pixel wide: five rows, ink in colour 4 (red), paper in colour 2 (green)
    let out = call_to_bios(10, '!' as u32, 0x42, 0, &mut cam, &mut s, &mut d, &mut ram);
    assert!(out == BiosOutcome::Served);
    let red = biosBasicColor(4);
    let green = biosBasicColor(2);
    assert!(same(s.at(0, 0), red));
    assert!(same(s.at(1, 1), red));
    assert!(same(s.at(2, 2), red));
    assert!(same(s.at(3, 3), green));
    assert!(same(s.at(4, 4), green));
    assert!(same(s.at(0, 1), RGB::new(0, 0, 0)));
    assert_eq!((s.get_cursor_x(), s.get_cursor_y()), (5, 5));
    assert!(same(cam.screen[2][2], red));
}

#[test]
fn int_0a_wide_glyph_steps_rows() {
    let (mut cam, mut s, mut d, mut ram) = (CpuCam::new(), Screen::new(), disk::new(), RamUnit::new());
    s.update_cursor_pos(10, 20);
    // '"' is three pixels wide: row i goes to column 10 + i, rows 20 + 3i ..
    call_to_bios(10, '"' as u32, 0x70, 0, &mut cam, &mut s, &mut d, &mut ram);
    let ink = biosBasicColor(7);
    let paper = biosBasicColor(0);
    assert!(same(s.at(10, 20), ink));
    assert!(same(s.at(10, 21), paper));
    assert!(same(s.at(10, 22), ink));
    assert!(same(s.at(11, 23), ink));
    assert!(same(s.at(12, 26), paper));
    assert_eq!((s.get_cursor_x(), s.get_cursor_y()), (15, 35));
}

#[test]
fn int_0b_fills_the_screen_and_keeps_the_cursor() {
    let (mut cam, mut s, mut d, mut ram) = (CpuCam::new(), Screen::new(), disk::new(), RamUnit::new());
    s.update_cursor_pos(7, 9);
    call_to_bios(11, 1, 0, 0, &mut cam, &mut s, &mut d, &mut ram);
    let blue = biosBasicColor(1);
    for x in 0..255u8 {
        for y in 0..255u8 {
            assert!(same(s.at(x, y), blue));
        }
    }
    assert!(same(cam.screen[254][254], blue));
    assert_eq!((s.get_cursor_x(), s.get_cursor_y()), (7, 9));
}

#[test]
fn int_0d_and_0e_move_bytes_between_disk_and_ram() {
    let (mut cam, mut s, mut d, mut ram) = (CpuCam::new(), Screen::new(), disk::new(), RamUnit::new());
    ram.write(3, 0x0102_0304);
    ram.write(4, 0x1FF);
    ram.write(5, 7);
    // INT 0E: three RAM locations from 3 go, low byte each, to the disk from 100
    call_to_bios(14, 3, 3, 100, &mut cam, &mut s, &mut d, &mut ram);
    assert_eq!((d.read_byte(100), d.read_byte(101), d.read_byte(102)), (0x04, 0xFF, 0x07));
    assert_eq!(d.read_byte(103), 0);
    assert_eq!(d.read(100), 0x04FF_0700);
    // INT 0D: three disk bytes from 100 go to RAM from 200, one byte per location
    call_to_bios(13, 3, 100, 200, &mut cam, &mut s, &mut d, &mut ram);
    assert_eq!((ram.fetch(200), ram.fetch(201), ram.fetch(202)), (4, 255, 7));
    assert_eq!(ram.fetch(203), 0);
    assert_eq!(ram.fetch(199), 0);
    // zero transfers change nothing
    call_to_bios(13, 0, 0, 200, &mut cam, &mut s, &mut d, &mut ram);
    assert_eq!(ram.fetch(200), 4);
    call_to_bios(14, 0, 0, 100, &mut cam, &mut s, &mut d, &mut ram);
    assert_eq!(d.read_byte(100), 0x04);
}

#[test]
fn int_0d_reaches_the_last_ram_location_and_disk_byte() {
    let (mut cam, mut s, mut d, mut ram) = (CpuCam::new(), Screen::new(), disk::new(), RamUnit::new());
    ram.write(255, 0xAB);
    call_to_bios(14, 1, 255, 65535, &mut cam, &mut s, &mut d, &mut ram);
    assert_eq!(d.read_byte(65535), 0xAB);
    call_to_bios(13, 1, 65535, 0, &mut cam, &mut s, &mut d, &mut ram);
    assert_eq!(ram.fetch(0), 0xAB);
}

#[test]
fn int_0a_takes_its_arguments_modulo_255() {
    let (mut cam, mut s, mut d, mut ram) = (CpuCam::new(), Screen::new(), disk::new(), RamUnit::new());
    // 255 + 33 is '!', 255 + 0x42 is colour byte 0x42
    call_to_bios(10, 255 + 33, 255 + 0x42, 0, &mut cam, &mut s, &mut d, &mut ram);
    assert!(same(s.at(0, 0), biosBasicColor(4)));
    assert!(same(s.at(3, 3), biosBasicColor(2)));
    assert_eq!((s.get_cursor_x(), s.get_cursor_y()), (5, 5));
    // 255 is code 0, which has no glyph: the five-wide checkerboard
    call_to_bios(10, 255, 0x70, 0, &mut cam, &mut s, &mut d, &mut ram);
    assert_eq!((s.get_cursor_x(), s.get_cursor_y()), (10, 30));
    assert!(same(s.at(5, 5), biosBasicColor(7)));
    assert!(same(s.at(5, 6), biosBasicColor(0)));
}

#[test]
fn other_interrupts_are_out_of_range() {
    let (mut cam, mut s, mut d, mut ram) = (CpuCam::new(), Screen::new(), disk::new(), RamUnit::new());
    assert!(call_to_bios(9, 0, 0, 0, &mut cam, &mut s, &mut d, &mut ram) == BiosOutcome::OutOfRange);
    assert!(call_to_bios(15, 0, 0, 0, &mut cam, &mut s, &mut d, &mut ram) == BiosOutcome::OutOfRange);
    assert!(call_to_bios(12, 0, 0, 0, &mut cam, &mut s, &mut d, &mut ram) == BiosOutcome::Served);
}
