//! The BIOS: the interrupts a program raises with `INT`, acting on the screen, RAM and
//! disk with arguments taken from R1, R2 and R3.
use vstd::prelude::*;
use crate::screen::{RGB, Screen, ScreenView, filled, is_grid};
use crate::cam::{CpuCam, CamView};
use crate::disk::{disk, disk_size, lemma_disk_len};
use crate::ram::RamUnit;
use crate::font::{glyph, what_is_char, lemma_glyph_shape};

verus! {

/// The sixteen BIOS colours; any other number is black.
pub open spec fn bios_color(n: u8) -> RGB {
    if n == 0 {
        RGB { red: 12, green: 10, blue: 9 }
    } else if n == 1 {
        RGB { red: 20, green: 71, blue: 230 }
    } else if n == 2 {
        RGB { red: 49, green: 201, blue: 80 }
    } else if n == 3 {
        RGB { red: 83, green: 234, blue: 253 }
    } else if n == 4 {
        RGB { red: 231, green: 24, blue: 11 }
    } else if n == 5 {
        RGB { red: 127, green: 34, blue: 254 }
    } else if n == 6 {
        RGB { red: 255, green: 137, blue: 4 }
    } else if n == 7 {
        RGB { red: 248, green: 250, blue: 252 }
    } else if n == 8 {
        RGB { red: 144, green: 161, blue: 185 }
    } else if n == 9 {
        RGB { red: 83, green: 234, blue: 253 }
    } else if n == 10 {
        RGB { red: 154, green: 230, blue: 48 }
    } else if n == 11 {
        RGB { red: 83, green: 234, blue: 253 }
    } else if n == 12 {
        RGB { red: 251, green: 44, blue: 54 }
    } else if n == 13 {
        RGB { red: 237, green: 106, blue: 255 }
    } else if n == 14 {
        RGB { red: 255, green: 240, blue: 133 }
    } else if n == 15 {
        RGB { red: 248, green: 250, blue: 252 }
    } else {
        RGB { red: 0, green: 0, blue: 0 }
    }
}

/// The colour numbered `getColor`: black, blue, green, bright blue, red, purple, orange,
/// white, grey, bright blue, bright green, bright cyan, bright red, bright purple, yellow,
/// bright white for 0 to 15, and plain black for anything else.
pub fn biosBasicColor(getColor: u8) -> (c: RGB)
    ensures
        c == bios_color(getColor),
{
    match getColor {
        0 => RGB { red: 12, green: 10, blue: 9 },
        1 => RGB { red: 20, green: 71, blue: 230 },
        2 => RGB { red: 49, green: 201, blue: 80 },
        3 => RGB { red: 83, green: 234, blue: 253 },
        4 => RGB { red: 231, green: 24, blue: 11 },
        5 => RGB { red: 127, green: 34, blue: 254 },
        6 => RGB { red: 255, green: 137, blue: 4 },
        7 => RGB { red: 248, green: 250, blue: 252 },
        8 => RGB { red: 144, green: 161, blue: 185 },
        9 => RGB { red: 83, green: 234, blue: 253 },
        10 => RGB { red: 154, green: 230, blue: 48 },
        11 => RGB { red: 83, green: 234, blue: 253 },
        12 => RGB { red: 251, green: 44, blue: 54 },
        13 => RGB { red: 237, green: 106, blue: 255 },
        14 => RGB { red: 255, green: 240, blue: 133 },
        15 => RGB { red: 248, green: 250, blue: 252 },
        _ => RGB { red: 0, green: 0, blue: 0 },
    }
}

/// The character INT 0A draws for R1: the character whose code is R1 modulo 255.
pub open spec fn char_for(reg1: u32) -> char {
    ((reg1 % 255) as u8) as char
}

/// The colour byte of INT 0A: R2 modulo 255.
pub open spec fn color_byte(reg2: u32) -> u8 {
    (reg2 % 255) as u8
}

/// Whether pixel `(x, y)` is among the first `rows` full rows plus `cols` cells of row
/// `rows` of glyph `g` drawn from cursor `(cx, cy)`: glyph row `i` goes to column `cx + i`,
/// its cells to the rows that follow on from where the previous glyph row ended.
pub open spec fn glyph_drawn(g: Seq<Seq<bool>>, cx: int, cy: int, rows: int, cols: int, x: int, y: int) -> bool {
    let w = g[0].len() as int;
    let i = x - cx;
    let j = y - cy - i * w;
    0 <= i && 0 <= j && j < w && (i < rows || (i == rows && j < cols))
}

/// `pixels` with part of glyph `g` drawn (ink in `fg`, the rest of its box in `bg`).
pub open spec fn draw_glyph_part(
    pixels: Seq<Seq<RGB>>,
    cx: int,
    cy: int,
    g: Seq<Seq<bool>>,
    fg: RGB,
    bg: RGB,
    rows: int,
    cols: int,
) -> Seq<Seq<RGB>> {
    Seq::new(
        255,
        |x: int|
            Seq::new(
                255,
                |y: int|
                    if glyph_drawn(g, cx, cy, rows, cols, x, y) {
                        if g[x - cx][y - cy - (x - cx) * (g[0].len() as int)] {
                            fg
                        } else {
                            bg
                        }
                    } else {
                        pixels[x][y]
                    },
            ),
    )
}

/// `pixels` with all of glyph `g` drawn from cursor `(cx, cy)`.
pub open spec fn draw_glyph(pixels: Seq<Seq<RGB>>, cx: int, cy: int, g: Seq<Seq<bool>>, fg: RGB, bg: RGB) -> Seq<Seq<RGB>> {
    draw_glyph_part(pixels, cx, cy, g, fg, bg, g.len() as int, 0)
}

/// `pixels` with the first `rows` columns, and `cols` cells of column `rows`, set to `c`.
pub open spec fn fill_part(pixels: Seq<Seq<RGB>>, c: RGB, rows: int, cols: int) -> Seq<Seq<RGB>> {
    Seq::new(
        255,
        |x: int|
            Seq::new(
                255,
                |y: int|
                    if x < rows || (x == rows && y < cols) {
                        c
                    } else {
                        pixels[x][y]
                    },
            ),
    )
}

/// What an interrupt did.
#[derive(Copy, Clone, PartialEq, Eq, Structural)]
pub enum BiosOutcome {
    /// The interrupt number is one the BIOS serves (0A to 0E).
    Served,
    /// The interrupt number is outside 0A..=0E; nothing happened.
    OutOfRange,
}

/// The foreground colour of INT 0A: the top nibble of the colour byte.
pub open spec fn int_fg(reg2: u32) -> RGB {
    bios_color(color_byte(reg2) / 16)
}

/// The background colour of INT 0A: the bottom nibble of the colour byte.
pub open spec fn int_bg(reg2: u32) -> RGB {
    bios_color(color_byte(reg2) % 16)
}

/// The inputs on which an interrupt completes: the glyph of INT 0A fits on the screen
/// from the cursor, and the R1 locations that INT 0D / 0E move lie in RAM and on the disk.
pub open spec fn bios_ok(n: u8, reg1: u32, reg2: u32, reg3: u32, screen: ScreenView) -> bool {
    if n == 10 {
        let g = glyph(char_for(reg1));
        screen.cursor_x + 5 <= 255 && screen.cursor_y + 5 * g[0].len() <= 255
    } else if n == 13 {
        (reg3 as u8) + reg1 <= 256 && (reg2 as u16) + reg1 <= disk_size()
    } else if n == 14 {
        (reg2 as u8) + reg1 <= 256 && (reg3 as u16) + reg1 <= disk_size()
    } else {
        true
    }
}

/// The screen after the interrupt.
pub open spec fn bios_screen(n: u8, reg1: u32, reg2: u32, reg3: u32, screen: ScreenView) -> ScreenView {
    if n == 10 {
        let g = glyph(char_for(reg1));
        ScreenView {
            pixels: draw_glyph(screen.pixels, screen.cursor_x as int, screen.cursor_y as int, g, int_fg(reg2), int_bg(reg2)),
            cursor_x: (screen.cursor_x + 5) as u8,
            cursor_y: (screen.cursor_y + 5 * g[0].len()) as u8,
        }
    } else if n == 11 {
        ScreenView { pixels: filled(bios_color(reg1 as u8)), ..screen }
    } else {
        screen
    }
}

/// The camera after the interrupt.
pub open spec fn bios_cam(n: u8, reg1: u32, reg2: u32, reg3: u32, screen: ScreenView, cam: CamView) -> CamView {
    if n == 10 {
        let g = glyph(char_for(reg1));
        CamView {
            screen: draw_glyph(cam.screen, screen.cursor_x as int, screen.cursor_y as int, g, int_fg(reg2), int_bg(reg2)),
            wire_cpu_to_screen: true,
            ..cam
        }
    } else if n == 11 {
        CamView { screen: filled(bios_color(reg1 as u8)), wire_cpu_to_screen: true, ..cam }
    } else {
        cam
    }
}

/// `ram` with the first `count` bytes of the disk from `from` copied, one per location,
/// to the locations from `at` on.
pub open spec fn copy_to_ram(ram: Seq<u32>, at: int, dsk: Seq<u8>, from: int, count: int) -> Seq<u32> {
    Seq::new(
        ram.len(),
        |a: int|
            if at <= a && a < at + count {
                dsk[from + (a - at)] as u32
            } else {
                ram[a]
            },
    )
}

/// `dsk` with the low bytes of the first `count` RAM locations from `from` copied to the
/// disk from `at` on.
pub open spec fn copy_to_disk(dsk: Seq<u8>, at: int, ram: Seq<u32>, from: int, count: int) -> Seq<u8> {
    Seq::new(
        dsk.len(),
        |a: int|
            if at <= a && a < at + count {
                (ram[from + (a - at)] % 256) as u8
            } else {
                dsk[a]
            },
    )
}

/// RAM after the interrupt: INT 0D moves R1 bytes from the disk at R2 into RAM at R3, one
/// byte per RAM location.
pub open spec fn bios_ram(n: u8, reg1: u32, reg2: u32, reg3: u32, ram: Seq<u32>, dsk: Seq<u8>) -> Seq<u32> {
    if n == 13 {
        copy_to_ram(ram, (reg3 as u8) as int, dsk, (reg2 as u16) as int, reg1 as int)
    } else {
        ram
    }
}

/// The disk after the interrupt: INT 0E moves R1 RAM locations from R2 onto the disk at R3,
/// the low byte of each location to one disk byte.
pub open spec fn bios_disk(n: u8, reg1: u32, reg2: u32, reg3: u32, ram: Seq<u32>, dsk: Seq<u8>) -> Seq<u8> {
    if n == 14 {
        copy_to_disk(dsk, (reg3 as u16) as int, ram, (reg2 as u8) as int, reg1 as int)
    } else {
        dsk
    }
}

/// Whether the BIOS serves interrupt `n`.
pub open spec fn bios_outcome(n: u8) -> BiosOutcome {
    if 10 <= n && n <= 14 {
        BiosOutcome::Served
    } else {
        BiosOutcome::OutOfRange
    }
}

/// Draws glyph `g` from the cursor: glyph row `i` in screen column `cursor_x + i`, each
/// cell one screen row further down, ink in `fg` and the rest in `bg`.
fn draw_char(g: &Vec<Vec<bool>>, fg: RGB, bg: RGB, camera: &mut CpuCam, screen: &mut Screen)
    requires
        g.deep_view().len() == 5,
        1 <= g.deep_view()[0].len() <= 5,
        forall|i: int| 0 <= i < 5 ==> #[trigger] g.deep_view()[i].len() == g.deep_view()[0].len(),
        old(screen)@.cursor_x + 5 <= 255,
        old(screen)@.cursor_y + 5 * g.deep_view()[0].len() <= 255,
        is_grid(old(screen)@.pixels),
        is_grid(old(camera)@.screen),
    ensures
        final(screen)@ =~~= (ScreenView {
            pixels: draw_glyph(old(screen)@.pixels, old(screen)@.cursor_x as int, old(screen)@.cursor_y as int, g.deep_view(), fg, bg),
            cursor_x: (old(screen)@.cursor_x + 5) as u8,
            cursor_y: (old(screen)@.cursor_y + 5 * g.deep_view()[0].len()) as u8,
        }),
        final(camera)@ =~~= (CamView {
            screen: draw_glyph(old(camera)@.screen, old(screen)@.cursor_x as int, old(screen)@.cursor_y as int, g.deep_view(), fg, bg),
            wire_cpu_to_screen: true,
            ..old(camera)@
        }),
{
    let ghost gv = g.deep_view();
    let ghost cx = screen@.cursor_x as int;
    let ghost cy = screen@.cursor_y as int;
    let ghost w = gv[0].len() as int;
    let ghost px0 = screen@.pixels;
    let ghost cam0 = camera@;
    let h = g.len();
    let mut i: usize = 0;
    assert(draw_glyph_part(px0, cx, cy, gv, fg, bg, 0, 0) =~~= px0);
    assert(draw_glyph_part(cam0.screen, cx, cy, gv, fg, bg, 0, 0) =~~= cam0.screen);
    while i < h
        invariant
            h == 5,
            0 <= i <= h,
            gv == g.deep_view(),
            gv.len() == 5,
            1 <= w <= 5,
            w == gv[0].len(),
            forall|k: int| 0 <= k < 5 ==> #[trigger] gv[k].len() == w,
            cx + 5 <= 255,
            cy + 5 * w <= 255,
            screen@.cursor_x == cx + i,
            screen@.cursor_y == cy + i * w,
            screen@.pixels =~~= draw_glyph_part(px0, cx, cy, gv, fg, bg, i as int, 0),
            camera@ =~~= (CamView {
                screen: draw_glyph_part(cam0.screen, cx, cy, gv, fg, bg, i as int, 0),
                wire_cpu_to_screen: cam0.wire_cpu_to_screen || i > 0,
                ..cam0
            }),
        decreases h - i,
    {
        let row = &g[i];
        let rw = row.len();
        assert(gv[i as int] =~= row@);
        let mut j: usize = 0;
        assert(i * w + w <= 5 * w) by (nonlinear_arith)
            requires
                i < 5,
                w >= 1,
        ;
        while j < rw
            invariant
                h == 5,
                0 <= i < h,
                0 <= j <= rw,
                rw == w,
                rw == row@.len(),
                row@ == gv[i as int],
                gv == g.deep_view(),
                gv.len() == 5,
                1 <= w <= 5,
                w == gv[0].len(),
                forall|k: int| 0 <= k < 5 ==> #[trigger] gv[k].len() == w,
                cx + 5 <= 255,
                cy + 5 * w <= 255,
                i * w + w <= 5 * w,
                screen@.cursor_x == cx + i,
                screen@.cursor_y == cy + i * w + j,
                screen@.pixels =~~= draw_glyph_part(px0, cx, cy, gv, fg, bg, i as int, j as int),
                camera@ =~~= (CamView {
                    screen: draw_glyph_part(cam0.screen, cx, cy, gv, fg, bg, i as int, j as int),
                    wire_cpu_to_screen: cam0.wire_cpu_to_screen || i > 0 || j > 0,
                    ..cam0
                }),
            decreases rw - j,
        {
            let ink = row[j];
            let color = if ink {
                fg
            } else {
                bg
            };
            let ghost x = cx + i;
            let ghost y = cy + i * w + j;
            let ghost before = screen@.pixels;
            let ghost cam_before = camera@.screen;
            screen.write(color, camera);
            proof {
                assert(gv[i as int][j as int] == ink);
                assert forall|a: int, b: int| 0 <= a < 255 && 0 <= b < 255 implies
                    #[trigger] draw_glyph_part(px0, cx, cy, gv, fg, bg, i as int, j + 1)[a][b]
                    == crate::screen::paint(before, x, y, color)[a][b] by {
                    if a == x && b == y {
                        assert(glyph_drawn(gv, cx, cy, i as int, j + 1, a, b));
                    }
                }
                assert forall|a: int, b: int| 0 <= a < 255 && 0 <= b < 255 implies
                    #[trigger] draw_glyph_part(cam0.screen, cx, cy, gv, fg, bg, i as int, j + 1)[a][b]
                    == crate::screen::paint(cam_before, x, y, color)[a][b] by {
                    if a == x && b == y {
                        assert(glyph_drawn(gv, cx, cy, i as int, j + 1, a, b));
                    }
                }
                assert(screen@.pixels =~~= draw_glyph_part(px0, cx, cy, gv, fg, bg, i as int, j + 1));
                assert(camera@.screen =~~= draw_glyph_part(cam0.screen, cx, cy, gv, fg, bg, i as int, j + 1));
            }
            let next_y = screen.get_cursor_y() + 1;
            screen.update_cursor_pos(screen.get_cursor_x(), next_y);
            j += 1;
        }
        proof {
            assert((i + 1) * w == i * w + w) by (nonlinear_arith);
            assert(draw_glyph_part(px0, cx, cy, gv, fg, bg, i as int, w) =~~= draw_glyph_part(px0, cx, cy, gv, fg, bg, i + 1, 0));
            assert(draw_glyph_part(cam0.screen, cx, cy, gv, fg, bg, i as int, w) =~~= draw_glyph_part(cam0.screen, cx, cy, gv, fg, bg, i + 1, 0));
        }
        let next_x = screen.get_cursor_x() + 1;
        screen.update_cursor_pos(next_x, screen.get_cursor_y());
        i += 1;
    }
}

/// Paints the whole screen in `c`, leaving the cursor where it was.
fn fill_screen(c: RGB, camera: &mut CpuCam, screen: &mut Screen)
    requires
        is_grid(old(screen)@.pixels),
        is_grid(old(camera)@.screen),
    ensures
        final(screen)@ =~~= (ScreenView { pixels: filled(c), ..old(screen)@ }),
        final(camera)@ =~~= (CamView { screen: filled(c), wire_cpu_to_screen: true, ..old(camera)@ }),
{
    let restore_x = screen.get_cursor_x();
    let restore_y = screen.get_cursor_y();
    let ghost px0 = screen@.pixels;
    let ghost cam0 = camera@;
    assert(fill_part(px0, c, 0, 0) =~~= px0);
    assert(fill_part(cam0.screen, c, 0, 0) =~~= cam0.screen);
    let mut row: u8 = 0;
    while row < 255
        invariant
            0 <= row <= 255,
            screen@.pixels =~~= fill_part(px0, c, row as int, 0),
            camera@ =~~= (CamView {
                screen: fill_part(cam0.screen, c, row as int, 0),
                wire_cpu_to_screen: cam0.wire_cpu_to_screen || row > 0,
                ..cam0
            }),
        decreases 255 - row,
    {
        screen.update_cursor_pos(row, 0);
        let mut tile: u8 = 0;
        while tile < 255
            invariant
                0 <= row < 255,
                0 <= tile <= 255,
                screen@.cursor_x == row,
                screen@.cursor_y == tile,
                screen@.pixels =~~= fill_part(px0, c, row as int, tile as int),
                camera@ =~~= (CamView {
                    screen: fill_part(cam0.screen, c, row as int, tile as int),
                    wire_cpu_to_screen: cam0.wire_cpu_to_screen || row > 0 || tile > 0,
                    ..cam0
                }),
            decreases 255 - tile,
        {
            let ghost before = screen@.pixels;
            let ghost cam_before = camera@.screen;
            screen.write(c, camera);
            assert(screen@.pixels =~~= fill_part(px0, c, row as int, tile + 1));
            assert(camera@.screen =~~= fill_part(cam0.screen, c, row as int, tile + 1));
            tile += 1;
            screen.update_cursor_pos(row, tile);
        }
        assert(fill_part(px0, c, row as int, 255) =~~= fill_part(px0, c, row + 1, 0));
        assert(fill_part(cam0.screen, c, row as int, 255) =~~= fill_part(cam0.screen, c, row + 1, 0));
        row += 1;
    }
    assert(fill_part(px0, c, 255, 0) =~~= filled(c));
    assert(fill_part(cam0.screen, c, 255, 0) =~~= filled(c));
    screen.update_cursor_pos(restore_x, restore_y);
}

/// Serves interrupt `interruptByte` with arguments R1, R2, R3:
/// - 0A draws the character with code R1 modulo 255 at the cursor in the colours of R2
///   modulo 255 (top nibble ink, bottom nibble background);
/// - 0B paints the whole screen in the colour numbered by R1's low byte, cursor unchanged;
/// - 0C does nothing;
/// - 0D moves R1 bytes from the disk at R2 into RAM at R3, one byte per location;
/// - 0E moves the low bytes of R1 RAM locations from R2 onto the disk at R3;
/// - any other number is out of range and changes nothing.
pub fn call_to_bios(
    interruptByte: u8,
    reg1: u32,
    reg2: u32,
    reg3: u32,
    camera: &mut CpuCam,
    screen: &mut Screen,
    disk: &mut disk,
    ram: &mut RamUnit,
) -> (outcome: BiosOutcome)
    requires
        bios_ok(interruptByte, reg1, reg2, reg3, old(screen)@),
    ensures
        outcome == bios_outcome(interruptByte),
        final(screen)@ =~~= bios_screen(interruptByte, reg1, reg2, reg3, old(screen)@),
        final(camera)@ =~~= bios_cam(interruptByte, reg1, reg2, reg3, old(screen)@, old(camera)@),
        final(ram)@ == bios_ram(interruptByte, reg1, reg2, reg3, old(ram)@, old(disk)@),
        final(disk)@ == bios_disk(interruptByte, reg1, reg2, reg3, old(ram)@, old(disk)@),
        final(disk).file() == old(disk).file(),
{
    proof {
        crate::screen::lemma_screen_shape(*screen);
        crate::screen::lemma_grid_view_shape(camera.screen);
        lemma_disk_len(*disk);
        ram.lemma_len();
    }
    if interruptByte == 10 {
        let code: u8 = (reg1 % 255) as u8;
        let charReq: char = code as char;
        assert(charReq == char_for(reg1));
        let byte2: u8 = (reg2 % 255) as u8;
        let foreground_color = biosBasicColor(byte2 / 16);
        let background_color = biosBasicColor(byte2 % 16);
        let writeVec = what_is_char(charReq);
        proof {
            lemma_glyph_shape(charReq);
        }
        draw_char(&writeVec, foreground_color, background_color, camera, screen);
        BiosOutcome::Served
    } else if interruptByte == 11 {
        let colorReq = biosBasicColor(#[verifier::truncate] (reg1 as u8));
        fill_screen(colorReq, camera, screen);
        BiosOutcome::Served
    } else if interruptByte == 12 {
        BiosOutcome::Served
    } else if interruptByte == 13 {
        let position_of_reader: u16 = #[verifier::truncate] (reg2 as u16);
        let ram_write_at: u8 = #[verifier::truncate] (reg3 as u8);
        let read_amount: u32 = reg1;
        let mut moved: u32 = 0;
        assert(copy_to_ram(old(ram)@, ram_write_at as int, old(disk)@, position_of_reader as int, 0) =~= old(ram)@);
        while moved < read_amount
            invariant
                0 <= moved <= read_amount,
                read_amount == reg1,
                ram_write_at + reg1 <= 256,
                position_of_reader + reg1 <= disk_size(),
                disk@ == old(disk)@,
                old(disk)@.len() == disk_size(),
                old(ram)@.len() == 256,
                ram@ == copy_to_ram(old(ram)@, ram_write_at as int, old(disk)@, position_of_reader as int, moved as int),
            decreases read_amount - moved,
        {
            let b = disk.read_byte(position_of_reader + moved as u16);
            let ghost before = ram@;
            ram.write(ram_write_at + moved as u8, b as u32);
            assert(ram@ =~= copy_to_ram(old(ram)@, ram_write_at as int, old(disk)@, position_of_reader as int, moved + 1));
            moved += 1;
        }
        BiosOutcome::Served
    } else if interruptByte == 14 {
        let position_of_reader: u8 = #[verifier::truncate] (reg2 as u8);
        let position_of_writer: u16 = #[verifier::truncate] (reg3 as u16);
        let read_amount: u32 = reg1;
        let mut moved: u32 = 0;
        assert(copy_to_disk(old(disk)@, position_of_writer as int, old(ram)@, position_of_reader as int, 0) =~= old(disk)@);
        while moved < read_amount
            invariant
                0 <= moved <= read_amount,
                read_amount == reg1,
                position_of_reader + reg1 <= 256,
                position_of_writer + reg1 <= disk_size(),
                ram@ == old(ram)@,
                old(ram)@.len() == 256,
                old(disk)@.len() == disk_size(),
                disk.file() == old(disk).file(),
                disk@ == copy_to_disk(old(disk)@, position_of_writer as int, old(ram)@, position_of_reader as int, moved as int),
            decreases read_amount - moved,
        {
            let v = ram.fetch(position_of_reader + moved as u8);
            disk.write_byte(position_of_writer + moved as u16, (v % 256) as u8);
            assert(disk@ =~= copy_to_disk(old(disk)@, position_of_writer as int, old(ram)@, position_of_reader as int, moved + 1));
            moved += 1;
        }
        BiosOutcome::Served
    } else {
        BiosOutcome::OutOfRange
    }
}

} // verus!
