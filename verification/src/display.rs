//! The display: a grid of 64 by 32 pixels, each on or off.
//!
//! A sprite is drawn by flipping pixels, never by setting them, and what
//! falls off one edge of the grid comes back at the other.

use vstd::prelude::*;

verus! {

/// The number of pixels in a row.
pub const WIDTH: usize = 64;

/// The number of rows.
pub const HEIGHT: usize = 32;

/// The number of pixels of the grid.
pub const PIXELS: usize = 2048;

/// A rectangle of the window, in the window's own units.
#[derive(Copy, Clone, Debug, PartialEq, Eq, Structural)]
pub struct PixelRect {
    pub x: u32,
    pub y: u32,
    pub width: u32,
    pub height: u32,
}

/// What a display holds: its pixels row by row, whether they have changed
/// since they were last handed out, and the size of the window they are
/// shown in.
pub struct DisplayState {
    pub pixels: Seq<bool>,
    pub update_pending: bool,
    pub width: u32,
    pub height: u32,
}

/// A display, and the size of the window that it is shown in.
pub struct Display {
    width: u32,
    height: u32,
    pixels: Vec<bool>,
    update_pending: bool,
}

/// The place in the grid, counted row by row, of the pixel in column `x` of
/// row `y`.
pub open spec fn cell(x: int, y: int) -> int {
    y * 64 + x
}

/// Whether `row` has a pixel in `column`, where column 0 is the leftmost and
/// stands in the byte's top bit.
pub open spec fn sprite_bit(row: u8, column: int) -> bool {
    0 <= column < 8 && row & (0x80u8 >> (column as u8)) != 0
}

/// Whether a sprite row drawn with its left end at column `x` of row `y`
/// covers the pixel in column `px` of row `py`. Both coordinates wrap round
/// the grid.
pub open spec fn row_covers(x: int, y: int, row: u8, px: int, py: int) -> bool {
    py == y % 32 && sprite_bit(row, (px - x) % 64)
}

/// Whether drawing `sprite` at (`x`, `y`) leaves the pixel at (`px`, `py`)
/// flipped: whether an odd number of its rows cover that pixel.
pub open spec fn toggled(x: int, y: int, sprite: Seq<u8>, px: int, py: int) -> bool
    decreases sprite.len(),
{
    if sprite.len() == 0 {
        false
    } else {
        toggled(x, y, sprite.drop_last(), px, py) != row_covers(
            x,
            y + sprite.len() - 1,
            sprite.last(),
            px,
            py,
        )
    }
}

/// The grid after `sprite` was drawn on `grid` at (`x`, `y`).
pub open spec fn drawn(grid: Seq<bool>, x: int, y: int, sprite: Seq<u8>) -> Seq<bool> {
    Seq::new(grid.len(), |k: int| grid[k] != toggled(x, y, sprite, k % 64, k / 64))
}

/// Whether drawing the row `row` at (`x`, `y`) on `grid` turns a pixel off.
pub open spec fn row_erases(grid: Seq<bool>, x: int, y: int, row: u8) -> bool {
    exists|k: int|
        0 <= k < grid.len() && #[trigger] grid[k] && row_covers(x, y, row, k % 64, k / 64)
}

/// Whether drawing `sprite` at (`x`, `y`) on `grid`, row after row, turns a
/// pixel off at any moment.
pub open spec fn erases(grid: Seq<bool>, x: int, y: int, sprite: Seq<u8>) -> bool
    decreases sprite.len(),
{
    if sprite.len() == 0 {
        false
    } else {
        erases(grid, x, y, sprite.drop_last()) || row_erases(
            drawn(grid, x, y, sprite.drop_last()),
            x,
            y + sprite.len() - 1,
            sprite.last(),
        )
    }
}

/// The rectangles that show the lit pixels among the first `n` of `pixels`,
/// in the order of the grid, where one pixel takes `pixel_width` by
/// `pixel_height` of the window.
pub open spec fn lit_rects(pixels: Seq<bool>, n: int, pixel_width: u32, pixel_height: u32) -> Seq<
    PixelRect,
>
    decreases n,
{
    if n <= 0 {
        Seq::empty()
    } else {
        let k = n - 1;
        let before = lit_rects(pixels, k, pixel_width, pixel_height);
        if pixels[k] {
            before.push(
                PixelRect {
                    x: ((k % 64) * pixel_width) as u32,
                    y: ((k / 64) * pixel_height) as u32,
                    width: pixel_width,
                    height: pixel_height,
                },
            )
        } else {
            before
        }
    }
}

/// The one pixel of row `y` that stands `j` columns to the right of column
/// `x`, wrapping round, is the one in column `(x + j) % 64`.
proof fn lemma_place(x: int, y: int, j: int, k: int)
    requires
        0 <= x < 256,
        0 <= y < 32,
        0 <= j < 64,
        0 <= k < 2048,
    ensures
        (k / 64 == y && (k % 64 - x) % 64 == j) <==> k == y * 64 + (x + j) % 64,
        0 <= (k % 64 - x) % 64 < 64,
{
}

impl View for Display {
    type V = DisplayState;

    closed spec fn view(&self) -> DisplayState {
        DisplayState {
            pixels: self.pixels@,
            update_pending: self.update_pending,
            width: self.width,
            height: self.height,
        }
    }
}

impl Display {
    /// A display holds one state for each pixel of the grid.
    pub open spec fn wf(&self) -> bool {
        self@.pixels.len() == 2048
    }

    /// A dark display for a window of `width` by `height`.
    pub fn new(width: u32, height: u32) -> (display: Display)
        ensures
            display.wf(),
            display@.pixels == Seq::new(2048, |k: int| false),
            !display@.update_pending,
            display@.width == width,
            display@.height == height,
    {
        let mut pixels: Vec<bool> = Vec::new();
        let mut k: usize = 0;
        while k < PIXELS
            invariant
                k <= PIXELS,
                pixels@ == Seq::new(k as nat, |k: int| false),
            decreases PIXELS - k,
        {
            pixels.push(false);
            k = k + 1;
            assert(pixels@ =~= Seq::new(k as nat, |k: int| false));
        }
        Display { width, height, pixels, update_pending: false }
    }

    /// Whether the pixel in column `x` of row `y` is on; `false` outside the
    /// grid.
    pub fn pixel(&self, x: usize, y: usize) -> (on: bool)
        requires
            self.wf(),
        ensures
            on == (x < 64 && y < 32 && self@.pixels[cell(x as int, y as int)]),
    {
        if x < WIDTH && y < HEIGHT {
            self.pixels[y * WIDTH + x]
        } else {
            false
        }
    }

    /// Whether the pixels have changed since `update` last handed them out.
    pub fn update_pending(&self) -> (pending: bool)
        ensures
            pending == self@.update_pending,
    {
        self.update_pending
    }

    /// Turns every pixel off.
    pub fn clear(&mut self)
        requires
            old(self).wf(),
        ensures
            final(self).wf(),
            final(self)@.pixels == Seq::new(2048, |k: int| false),
            final(self)@.update_pending,
            final(self)@.width == old(self)@.width,
            final(self)@.height == old(self)@.height,
    {
        let mut k: usize = 0;
        while k < PIXELS
            invariant
                k <= PIXELS,
                self.pixels@.len() == 2048,
                self.width == old(self).width,
                self.height == old(self).height,
                forall|i: int| 0 <= i < k ==> !self.pixels@[i],
            decreases PIXELS - k,
        {
            self.pixels.set(k, false);
            k = k + 1;
        }
        self.update_pending = true;
        assert(self.pixels@ =~= Seq::new(2048, |k: int| false));
    }

    /// Flips the pixels that `row` covers when its left end stands in column
    /// `x` of row `y`, and says whether that turned a pixel off.
    fn draw_row(&mut self, x: u8, y: usize, row: u8) -> (erased: bool)
        requires
            old(self).wf(),
            y < 32,
        ensures
            final(self).wf(),
            final(self)@.pixels == Seq::new(
                2048,
                |k: int|
                    old(self)@.pixels[k] != row_covers(x as int, y as int, row, k % 64, k / 64),
            ),
            erased == row_erases(old(self)@.pixels, x as int, y as int, row),
            final(self)@.update_pending == old(self)@.update_pending,
            final(self)@.width == old(self)@.width,
            final(self)@.height == old(self)@.height,
    {
        let ghost before = self.pixels@;
        let mut erased = false;
        let mut mask: u8 = 0x80;
        let mut j: usize = 0;
        assert(0x80u8 >> 0u8 == 0x80u8) by (bit_vector);
        while j < 8
            invariant
                j <= 8,
                y < 32,
                j < 8 ==> mask == 0x80u8 >> (j as u8),
                before.len() == 2048,
                self.pixels@.len() == 2048,
                self.update_pending == old(self).update_pending,
                self.width == old(self).width,
                self.height == old(self).height,
                forall|k: int|
                    0 <= k < 2048 ==> #[trigger] self.pixels@[k] == (before[k] != (row_covers(
                        x as int,
                        y as int,
                        row,
                        k % 64,
                        k / 64,
                    ) && (k % 64 - x) % 64 < j)),
                erased == (exists|k: int|
                    0 <= k < 2048 && #[trigger] before[k] && row_covers(
                        x as int,
                        y as int,
                        row,
                        k % 64,
                        k / 64,
                    ) && (k % 64 - x) % 64 < j),
            decreases 8 - j,
        {
            let column: usize = (x as usize + j) % WIDTH;
            let place: usize = y * WIDTH + column;
            let ghost shown = self.pixels@;
            let lit = row & mask != 0;
            if lit {
                let on = self.pixels[place];
                if on {
                    erased = true;
                }
                self.pixels.set(place, !on);
            }
            proof {
                let m = mask;
                let c = j as u8;
                assert(c < 7 ==> m >> 1 == 0x80u8 >> ((c + 1) as u8)) by (bit_vector)
                    requires
                        c < 8,
                        m == 0x80u8 >> c,
                ;
                assert(lit == sprite_bit(row, j as int));
                assert forall|k: int| 0 <= k < 2048 implies #[trigger] self.pixels@[k] == (before[k]
                    != (row_covers(x as int, y as int, row, k % 64, k / 64) && (k % 64 - x) % 64 < j
                    + 1)) by {
                    lemma_place(x as int, y as int, j as int, k);
                    assert(shown[k] == (before[k] != (row_covers(
                        x as int,
                        y as int,
                        row,
                        k % 64,
                        k / 64,
                    ) && (k % 64 - x) % 64 < j)));
                }
                lemma_place(x as int, y as int, j as int, place as int);
                assert(shown[place as int] == before[place as int]);
                if erased {
                    if lit && shown[place as int] {
                        assert(before[place as int] && row_covers(
                            x as int,
                            y as int,
                            row,
                            place as int % 64,
                            place as int / 64,
                        ) && (place as int % 64 - x) % 64 < j + 1);
                    }
                } else {
                    assert forall|k: int| 0 <= k < 2048 && #[trigger] before[k] implies !(
                    row_covers(x as int, y as int, row, k % 64, k / 64) && (k % 64 - x) % 64 < j
                        + 1) by {
                        lemma_place(x as int, y as int, j as int, k);
                    }
                }
            }
            mask = mask >> 1;
            j = j + 1;
        }
        assert(self.pixels@ =~= Seq::new(
            2048,
            |k: int| before[k] != row_covers(x as int, y as int, row, k % 64, k / 64),
        ));
        erased
    }

    /// Draws `sprite` with its top left corner in column `x` of row `y`: each
    /// byte is a row of eight pixels, the top bit leftmost, and each pixel of
    /// the sprite flips the pixel of the grid under it. Says whether any
    /// pixel went from on to off.
    pub fn draw(&mut self, x: u8, y: u8, sprite: &[u8]) -> (collision: bool)
        requires
            old(self).wf(),
        ensures
            final(self).wf(),
            final(self)@.pixels == drawn(old(self)@.pixels, x as int, y as int, sprite@),
            collision == erases(old(self)@.pixels, x as int, y as int, sprite@),
            final(self)@.update_pending,
            final(self)@.width == old(self)@.width,
            final(self)@.height == old(self)@.height,
    {
        let ghost start = self.pixels@;
        let mut collision = false;
        let mut i: usize = 0;
        assert(self.pixels@ =~= drawn(start, x as int, y as int, sprite@.take(0)));
        while i < sprite.len()
            invariant
                i <= sprite.len(),
                start.len() == 2048,
                self.wf(),
                self.width == old(self).width,
                self.height == old(self).height,
                self.pixels@ == drawn(start, x as int, y as int, sprite@.take(i as int)),
                collision == erases(start, x as int, y as int, sprite@.take(i as int)),
            decreases sprite.len() - i,
        {
            let row = sprite[i];
            let line: usize = (y as usize % HEIGHT + i % HEIGHT) % HEIGHT;
            let ghost shown = self.pixels@;
            let erased = self.draw_row(x, line, row);
            collision = collision || erased;
            proof {
                let rows = sprite@.take(i + 1);
                assert(rows.drop_last() =~= sprite@.take(i as int));
                assert(rows.last() == row);
                assert(line == (y + i) % 32);
                assert forall|px: int, py: int|
                    row_covers(x as int, line as int, row, px, py) == row_covers(
                        x as int,
                        y + i,
                        row,
                        px,
                        py,
                    ) by {}
                assert(self.pixels@ =~= drawn(start, x as int, y as int, rows));
                assert(row_erases(shown, x as int, line as int, row) == row_erases(
                    shown,
                    x as int,
                    y + i,
                    row,
                ));
            }
            i = i + 1;
        }
        assert(sprite@.take(i as int) =~= sprite@);
        self.update_pending = true;
        collision
    }

    /// Hands out what is to be shown, if the pixels have changed since the
    /// last call: one rectangle for each lit pixel, row by row, where a pixel
    /// takes a 64th of the window's width and a 32nd of its height. The
    /// window is to be cleared before they are filled in.
    pub fn update(&mut self) -> (rects: Option<Vec<PixelRect>>)
        requires
            old(self).wf(),
        ensures
            final(self).wf(),
            final(self)@.pixels == old(self)@.pixels,
            final(self)@.width == old(self)@.width,
            final(self)@.height == old(self)@.height,
            !final(self)@.update_pending,
            old(self)@.update_pending ==> rects is Some && rects->Some_0@ == lit_rects(
                old(self)@.pixels,
                2048,
                (old(self)@.width / 64) as u32,
                (old(self)@.height / 32) as u32,
            ),
            !old(self)@.update_pending ==> rects is None,
    {
        if !self.update_pending {
            return None;
        }
        let height_scale: u32 = self.height / 32;
        let width_scale: u32 = self.width / 64;
        let mut rects: Vec<PixelRect> = Vec::new();
        let mut k: usize = 0;
        while k < PIXELS
            invariant
                k <= PIXELS,
                self.wf(),
                height_scale == self.height / 32,
                width_scale == self.width / 64,
                rects@ == lit_rects(self.pixels@, k as int, width_scale, height_scale),
            decreases PIXELS - k,
        {
            if self.pixels[k] {
                let column: u32 = (k % WIDTH) as u32;
                let line: u32 = (k / WIDTH) as u32;
                assert(column * width_scale <= 63 * width_scale) by (nonlinear_arith)
                    requires
                        column <= 63,
                ;
                assert(line * height_scale <= 31 * height_scale) by (nonlinear_arith)
                    requires
                        line <= 31,
                ;
                rects.push(
                    PixelRect {
                        x: column * width_scale,
                        y: line * height_scale,
                        width: width_scale,
                        height: height_scale,
                    },
                );
            }
            k = k + 1;
        }
        self.update_pending = false;
        Some(rects)
    }
}

/// Drawing the same sprite twice at the same place leaves the grid as it
/// was: every pixel that the first drawing flipped is flipped back.
pub proof fn lemma_draw_twice(grid: Seq<bool>, x: int, y: int, sprite: Seq<u8>)
    ensures
        drawn(drawn(grid, x, y, sprite), x, y, sprite) == grid,
{
    assert(drawn(drawn(grid, x, y, sprite), x, y, sprite) =~= grid);
}

/// A sprite of at most 32 rows covers each pixel with at most one of its
/// rows, the one that lies as far below the sprite's top as the pixel does,
/// wrapping round. The pixel is flipped exactly if that row has a pixel in
/// the column that lies as far right of the sprite's left end.
pub proof fn lemma_toggled_once(x: int, y: int, sprite: Seq<u8>, px: int, py: int)
    requires
        sprite.len() <= 32,
        0 <= py < 32,
    ensures
        toggled(x, y, sprite, px, py) == ((py - y) % 32 < sprite.len() && sprite_bit(
            sprite[(py - y) % 32],
            (px - x) % 64,
        )),
    decreases sprite.len(),
{
    if sprite.len() > 0 {
        lemma_toggled_once(x, y, sprite.drop_last(), px, py);
        let i = sprite.len() - 1;
        assert((py == (y + i) % 32) == ((py - y) % 32 == i));
    }
}

} // verus!
