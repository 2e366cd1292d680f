//! The 255 × 255 pixel screen and its write cursor.
use vstd::prelude::*;
use crate::cam::{CpuCam, CamView};

verus! {

/// A 24-bit colour.
#[derive(Copy, Clone)]
pub struct RGB {
    pub red: u8,
    pub green: u8,
    pub blue: u8,
}

impl RGB {
    /// The colour with the given channels.
    pub fn new(r: u8, g: u8, b: u8) -> (c: Self)
        ensures
            c == (RGB { red: r, green: g, blue: b }),
    {
        Self { red: r, green: g, blue: b }
    }
}

/// Black.
pub open spec fn black() -> RGB {
    RGB { red: 0, green: 0, blue: 0 }
}

/// A 255 × 255 grid of one colour.
pub open spec fn filled(c: RGB) -> Seq<Seq<RGB>> {
    Seq::new(255, |x: int| Seq::new(255, |y: int| c))
}

/// `pixels` with the pixel at column `x`, row `y` set to `c`.
pub open spec fn paint(pixels: Seq<Seq<RGB>>, x: int, y: int, c: RGB) -> Seq<Seq<RGB>> {
    pixels.update(x, pixels[x].update(y, c))
}

/// A 255 × 255 array of pixels as nested sequences.
pub open spec fn grid_view(g: [[RGB; 255]; 255]) -> Seq<Seq<RGB>> {
    Seq::new(255, |x: int| g[x]@)
}

/// The screen's pixels and cursor.
#[verifier::ext_equal]
pub struct ScreenView {
    pub pixels: Seq<Seq<RGB>>,
    pub cursor_x: u8,
    pub cursor_y: u8,
}

/// The screen: pixels indexed `[x][y]`, plus the cursor where the next write lands.
pub struct Screen {
    position: [[RGB; 255]; 255],
    cursorX: u8,
    cursorY: u8,
}

impl View for Screen {
    type V = ScreenView;

    closed spec fn view(&self) -> ScreenView {
        ScreenView { pixels: grid_view(self.position), cursor_x: self.cursorX, cursor_y: self.cursorY }
    }
}

/// Writing one pixel of a 255 × 255 array changes its view by `paint`.
pub proof fn lemma_grid_paint(before: [[RGB; 255]; 255], after: [[RGB; 255]; 255], x: int, y: int, c: RGB)
    requires
        0 <= x < 255,
        0 <= y < 255,
        after[x]@ == before[x]@.update(y, c),
        forall|i: int| 0 <= i < 255 && i != x ==> #[trigger] after[i] == before[i],
    ensures
        grid_view(after) =~~= paint(grid_view(before), x, y, c),
{
    assert forall|i: int| 0 <= i < 255 implies #[trigger] grid_view(after)[i] =~= paint(
        grid_view(before),
        x,
        y,
        c,
    )[i] by {
        if i != x {
            assert(after[i] == before[i]);
        }
    }
}

/// A 255 × 255 grid.
pub open spec fn is_grid(p: Seq<Seq<RGB>>) -> bool {
    p.len() == 255 && forall|x: int| 0 <= x < 255 ==> #[trigger] p[x].len() == 255
}

/// Every array of pixels views as a 255 × 255 grid.
pub proof fn lemma_grid_view_shape(g: [[RGB; 255]; 255])
    ensures
        is_grid(grid_view(g)),
{
}

/// A screen's pixels always form a 255 × 255 grid.
pub proof fn lemma_screen_shape(s: Screen)
    ensures
        is_grid(s@.pixels),
{
}

impl Screen {
    /// Width of the screen.
    pub const WIDTH: usize = 255;

    /// Height of the screen.
    pub const HEIGHT: usize = 255;

    /// A black screen with the cursor at the origin.
    pub fn new() -> (s: Self)
        ensures
            s@.pixels =~~= filled(black()),
            s@.cursor_x == 0,
            s@.cursor_y == 0,
    {
        let color_black = RGB::new(0, 0, 0);
        let s = Self { position: [[color_black; 255]; 255], cursorX: 0, cursorY: 0 };
        assert(grid_view(s.position) =~~= filled(black()));
        s
    }

    /// Paints the pixel under the cursor, on the screen and on the camera's copy. The
    /// cursor must lie on the screen.
    pub fn write(&mut self, passedColor: RGB, camera: &mut CpuCam)
        requires
            old(self)@.cursor_x < 255,
            old(self)@.cursor_y < 255,
        ensures
            final(self)@ == (ScreenView {
                pixels: paint(
                    old(self)@.pixels,
                    old(self)@.cursor_x as int,
                    old(self)@.cursor_y as int,
                    passedColor,
                ),
                ..old(self)@
            }),
            final(camera)@ == (CamView {
                screen: paint(
                    old(camera)@.screen,
                    old(self)@.cursor_x as int,
                    old(self)@.cursor_y as int,
                    passedColor,
                ),
                wire_cpu_to_screen: true,
                ..old(camera)@
            }),
    {
        let ghost before = self.position;
        self.position[self.cursorX as usize][self.cursorY as usize] = passedColor;
        proof {
            lemma_grid_paint(before, self.position, self.cursorX as int, self.cursorY as int, passedColor);
        }
        camera.screen_set(self.cursorX, self.cursorY, passedColor);
    }

    /// Moves the cursor.
    pub fn update_cursor_pos(&mut self, x: u8, y: u8)
        ensures
            final(self)@ == (ScreenView { cursor_x: x, cursor_y: y, ..old(self)@ }),
    {
        self.cursorX = x;
        self.cursorY = y;
    }

    /// Column of the cursor.
    pub fn get_cursor_x(&self) -> (x: u8)
        ensures
            x == self@.cursor_x,
    {
        self.cursorX
    }

    /// Row of the cursor.
    pub fn get_cursor_y(&self) -> (y: u8)
        ensures
            y == self@.cursor_y,
    {
        self.cursorY
    }

    /// The pixel at column `x`, row `y`, which must lie on the screen.
    pub fn at(&self, x: u8, y: u8) -> (c: RGB)
        requires
            x < 255,
            y < 255,
        ensures
            c == self@.pixels[x as int][y as int],
    {
        self.position[x as usize][y as usize]
    }
}

} // verus!
