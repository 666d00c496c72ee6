//! The 64x32 monochrome framebuffer and the XOR sprite blit.

use vstd::prelude::*;

verus! {

/// Pixels per row.
pub const WIDTH: usize = 64;

/// Rows of pixels.
pub const HEIGHT: usize = 32;

/// Pixels on the screen, stored row by row.
pub const PIXEL_COUNT: usize = 2048;

/// The tallest sprite an instruction can name.
pub const MAX_SPRITE_ROWS: usize = 15;

/// Bit `col` of a sprite row, the leftmost pixel being column 0.
pub open spec fn row_bit(row: u8, col: int) -> bool {
    (row >> ((7 - col) as u8)) & 1u8 == 1u8
}

/// Whether the sprite has a set bit in row `row`, column `col`. Outside the
/// sprite's eight columns and its rows there is none.
pub open spec fn sprite_bit(sprite: Seq<u8>, row: int, col: int) -> bool {
    0 <= row < sprite.len() && 0 <= col < 8 && row_bit(sprite[row], col)
}

/// Whether a sprite drawn at `(x, y)` has a set bit on the pixel `(px, py)`.
/// The sprite's top left corner lies at `(x mod 64, y mod 32)`, and what
/// runs over the right or the lower edge comes back in on the other side.
pub open spec fn sprite_covers(sprite: Seq<u8>, x: int, y: int, px: int, py: int) -> bool {
    sprite_bit(sprite, (py - y) % (HEIGHT as int), (px - x) % (WIDTH as int))
}

/// Whether a sprite drawn at `(x, y)` has a set bit on the pixel stored at
/// index `p`, which is the pixel in column `p mod 64` of row `p / 64`.
pub open spec fn flips(sprite: Seq<u8>, x: int, y: int, p: int) -> bool {
    sprite_covers(sprite, x, y, p % (WIDTH as int), p / (WIDTH as int))
}

/// The screen after the sprite is drawn at `(x, y)`: every pixel under a set
/// bit of the sprite is flipped, every other pixel stays.
pub open spec fn drawn(pixels: Seq<bool>, sprite: Seq<u8>, x: int, y: int) -> Seq<bool> {
    Seq::new(pixels.len(), |p: int| pixels[p] != flips(sprite, x, y, p))
}

/// Whether drawing the sprite at `(x, y)` turns a lit pixel off.
pub open spec fn collides(pixels: Seq<bool>, sprite: Seq<u8>, x: int, y: int) -> bool {
    exists|p: int| 0 <= p < pixels.len() && #[trigger] pixels[p] && flips(sprite, x, y, p)
}

/// A screen with every pixel off.
pub open spec fn blank_screen() -> Seq<bool> {
    Seq::new(PIXEL_COUNT as nat, |p: int| false)
}

/// Whether the sprite bit over the pixel at index `p` is set and is reached before the
/// blit, going row by row and left to right, arrives at `(row, col)`.
spec fn flips_before(sprite: Seq<u8>, x: int, y: int, p: int, row: int, col: int) -> bool {
    let r = (p / 64 - y) % 32;
    let c = (p % 64 - x) % 64;
    sprite_bit(sprite, r, c) && (r < row || (r == row && c < col))
}

/// The framebuffer. Its view is the sequence of its 2048 pixels, row by
/// row, `true` for a lit pixel.
pub struct Framebuffer {
    pixels: [bool; 2048],
}

impl View for Framebuffer {
    type V = Seq<bool>;

    closed spec fn view(&self) -> Seq<bool> {
        self.pixels@
    }
}

impl Framebuffer {
    /// Every framebuffer has 2048 pixels.
    pub proof fn lemma_size(&self)
        ensures
            self@.len() == PIXEL_COUNT,
    {
    }

    /// A framebuffer with every pixel off.
    pub fn new() -> (f: Framebuffer)
        ensures
            f@ == blank_screen(),
    {
        let f = Framebuffer { pixels: [false; 2048] };
        assert(f@ =~= blank_screen());
        f
    }

    /// Turns every pixel off.
    pub fn clear(&mut self)
        ensures
            final(self)@ == blank_screen(),
    {
        self.pixels = [false; 2048];
        assert(self@ =~= blank_screen());
    }

    /// Whether the pixel in column `x` of row `y` is lit.
    pub fn pixel(&self, x: usize, y: usize) -> (lit: bool)
        requires
            x < WIDTH,
            y < HEIGHT,
        ensures
            lit == self@[y * WIDTH + x],
    {
        self.pixels[y * WIDTH + x]
    }

    /// Draws `sprite`, one byte per row, with its top left corner at
    /// `(x mod 64, y mod 32)`, flipping the pixels under its set bits.
    /// Returns whether a lit pixel was turned off.
    pub fn draw_sprite(&mut self, x: u8, y: u8, sprite: &[u8]) -> (collision: bool)
        requires
            sprite@.len() <= MAX_SPRITE_ROWS,
        ensures
            final(self)@ == drawn(old(self)@, sprite@, x as int, y as int),
            collision == collides(old(self)@, sprite@, x as int, y as int),
    {
        let ghost before = self@;
        let x0: usize = (x % 64) as usize;
        let y0: usize = (y % 32) as usize;
        let rows: usize = sprite.len();
        let mut collision = false;
        let mut row: usize = 0;
        while row < rows
            invariant
                row <= rows,
                rows == sprite@.len(),
                rows <= MAX_SPRITE_ROWS,
                x0 == x % 64,
                y0 == y % 32,
                before.len() == PIXEL_COUNT,
                self@.len() == PIXEL_COUNT,
                forall|p: int|
                    0 <= p < PIXEL_COUNT ==> #[trigger] self@[p] == (before[p] != flips_before(sprite@, x as int, y as int, p, row as int, 0)),
                collision == exists|p: int|
                    0 <= p < PIXEL_COUNT && #[trigger] before[p] && flips_before(sprite@, x as int, y as int, p, row as int, 0),
            decreases rows - row,
        {
            let bits: u8 = sprite[row];
            let py: usize = (y0 + row) % 32;
            let mut col: u8 = 0;
            while col < 8
                invariant
                    col <= 8,
                    row < rows,
                    rows == sprite@.len(),
                    rows <= MAX_SPRITE_ROWS,
                    bits == sprite@[row as int],
                    x0 == x % 64,
                    y0 == y % 32,
                    py == (y0 + row) % 32,
                    before.len() == PIXEL_COUNT,
                    self@.len() == PIXEL_COUNT,
                    forall|p: int|
                        0 <= p < PIXEL_COUNT ==> #[trigger] self@[p] == (before[p]
                            != flips_before(sprite@, x as int, y as int, p, row as int, col as int)),
                    collision == exists|p: int|
                        0 <= p < PIXEL_COUNT && #[trigger] before[p] && flips_before(sprite@, x as int, y as int, p, row as int, col as int),
                decreases 8 - col,
            {
                let ghost mid = self@;
                let ghost was = collision;
                let px: usize = (x0 + col as usize) % 64;
                let idx: usize = py * 64 + px;
                if (bits >> (7 - col)) & 1u8 == 1u8 {
                    if self.pixels[idx] {
                        collision = true;
                    }
                    self.pixels[idx] = !self.pixels[idx];
                }
                proof {
                    lemma_blit_step(
                        before,
                        mid,
                        self@,
                        sprite@,
                        x as int,
                        y as int,
                        row as int,
                        col as int,
                        was,
                        collision,
                    );
                }
                col = col + 1;
            }
            proof {
                lemma_row_done(sprite@, x as int, y as int, row as int);
            }
            row = row + 1;
        }
        proof {
            lemma_blit_done(before, self@, sprite@, x as int, y as int, collision);
        }
        collision
    }
}

/// The pixel index that the blit touches at `(row, col)`.
spec fn target(x: int, y: int, row: int, col: int) -> int {
    ((y % 32 + row) % 32) * 64 + (x % 64 + col) % 64
}

/// Going `r` rows down from row `y mod 32`, with wrap-around, arrives at
/// row `a` just when `a` lies `r` rows below `y`, modulo 32.
proof fn lemma_wrap_rows(a: int, y: int, r: int)
    requires
        0 <= a < 32,
        0 <= r < 32,
        0 <= y < 256,
    ensures
        (a - y) % 32 == r <==> a == (y % 32 + r) % 32,
{
}

/// Going `c` columns right from column `x mod 64`, with wrap-around,
/// arrives at column `b` just when `b` lies `c` columns right of `x`,
/// modulo 64.
proof fn lemma_wrap_columns(b: int, x: int, c: int)
    requires
        0 <= b < 64,
        0 <= c < 64,
        0 <= x < 256,
    ensures
        (b - x) % 64 == c <==> b == (x % 64 + c) % 64,
{
}

/// The blit's target at `(row, col)` is the one pixel whose sprite bit is
/// the one in row `row`, column `col`.
proof fn lemma_target(x: int, y: int, row: int, col: int, p: int)
    requires
        0 <= x < 256,
        0 <= y < 256,
        0 <= row < 32,
        0 <= col < 64,
        0 <= p < 2048,
    ensures
        0 <= target(x, y, row, col) < 2048,
        p == target(x, y, row, col) <==> ((p / 64 - y) % 32 == row && (p % 64 - x) % 64 == col),
{
    let a = (y % 32 + row) % 32;
    let b = (x % 64 + col) % 64;
    assert(p == a * 64 + b <==> (p / 64 == a && p % 64 == b));
    lemma_wrap_rows(p / 64, y, row);
    lemma_wrap_columns(p % 64, x, col);
}

/// One step of the inner loop keeps both loop invariants.
proof fn lemma_blit_step(
    before: Seq<bool>,
    mid: Seq<bool>,
    after: Seq<bool>,
    sprite: Seq<u8>,
    x: int,
    y: int,
    row: int,
    col: int,
    was: bool,
    now: bool,
)
    requires
        0 <= x < 256,
        0 <= y < 256,
        0 <= row < sprite.len() <= 15,
        0 <= col < 8,
        before.len() == 2048,
        mid.len() == 2048,
        forall|p: int|
            0 <= p < 2048 ==> #[trigger] mid[p] == (before[p] != flips_before(sprite, x, y, p, row, col)),
        was == exists|p: int|
            0 <= p < 2048 && #[trigger] before[p] && flips_before(sprite, x, y, p, row, col),
        after == if row_bit(sprite[row], col) {
            mid.update(target(x, y, row, col), !mid[target(x, y, row, col)])
        } else {
            mid
        },
        now == (was || (row_bit(sprite[row], col) && mid[target(x, y, row, col)])),
    ensures
        forall|p: int|
            0 <= p < 2048 ==> #[trigger] after[p] == (before[p] != flips_before(sprite, x, y, p, row, col + 1)),
        now == exists|p: int|
            0 <= p < 2048 && #[trigger] before[p] && flips_before(sprite, x, y, p, row, col + 1),
{
    let t = target(x, y, row, col);
    assert forall|p: int| 0 <= p < 2048 implies (flips_before(sprite, x, y, p, row, col + 1) == (flips_before(sprite, x, y, p, row, col) || (p == t && row_bit(
        sprite[row],
        col,
    )))) && !(p == t && flips_before(sprite, x, y, p, row, col)) by {
        lemma_target(x, y, row, col, p);
    }
    lemma_target(x, y, row, col, 0);
    assert forall|p: int| 0 <= p < 2048 implies #[trigger] after[p] == (before[p]
        != flips_before(sprite, x, y, p, row, col + 1)) by {
        assert(mid[p] == (before[p] != flips_before(sprite, x, y, p, row, col)));
    }
    let goal = exists|p: int|
        0 <= p < 2048 && #[trigger] before[p] && flips_before(sprite, x, y, p, row, col + 1);
    if now {
        if was {
            let p = choose|p: int|
                0 <= p < 2048 && #[trigger] before[p] && flips_before(sprite, x, y, p, row, col);
            assert(before[p] && flips_before(sprite, x, y, p, row, col + 1));
        } else {
            assert(mid[t] == (before[t] != flips_before(sprite, x, y, t, row, col)));
            assert(before[t] && flips_before(sprite, x, y, t, row, col + 1));
        }
        assert(goal);
    } else {
        if goal {
            let p = choose|p: int|
                0 <= p < 2048 && #[trigger] before[p] && flips_before(sprite, x, y, p, row, col + 1);
            assert(mid[t] == (before[t] != flips_before(sprite, x, y, t, row, col)));
            assert(before[p] && flips_before(sprite, x, y, p, row, col));
            assert(false);
        }
    }
}

/// What is reached before the end of a row is what is reached before the
/// start of the next.
proof fn lemma_row_done(sprite: Seq<u8>, x: int, y: int, row: int)
    ensures
        forall|p: int|
            flips_before(sprite, x, y, p, row, 8) == #[trigger] flips_before(
                sprite,
                x,
                y,
                p,
                row + 1,
                0,
            ),
{
}

/// Once the blit has passed the last row, it has drawn the sprite.
proof fn lemma_blit_done(
    before: Seq<bool>,
    after: Seq<bool>,
    sprite: Seq<u8>,
    x: int,
    y: int,
    collision: bool,
)
    requires
        before.len() == 2048,
        after.len() == 2048,
        forall|p: int|
            0 <= p < 2048 ==> #[trigger] after[p] == (before[p] != flips_before(sprite, x, y, p, sprite.len() as int, 0)),
        collision == exists|p: int|
            0 <= p < 2048 && #[trigger] before[p] && flips_before(sprite, x, y, p, sprite.len() as int, 0),
    ensures
        after == drawn(before, sprite, x, y),
        collision == collides(before, sprite, x, y),
{
    assert forall|p: int|
        flips_before(sprite, x, y, p, sprite.len() as int, 0) == #[trigger] flips(
            sprite,
            x,
            y,
            p,
        ) by {}
    assert(after =~= drawn(before, sprite, x, y));
    let a = exists|p: int|
        0 <= p < 2048 && #[trigger] before[p] && flips_before(sprite, x, y, p, sprite.len() as int, 0);
    let b = collides(before, sprite, x, y);
    if a {
        let p = choose|p: int|
            0 <= p < 2048 && #[trigger] before[p] && flips_before(sprite, x, y, p, sprite.len() as int, 0);
        assert(before[p] && flips(sprite, x, y, p));
    }
    if b {
        let p = choose|p: int|
            0 <= p < before.len() && #[trigger] before[p] && flips(sprite, x, y, p);
        assert(before[p] && flips_before(sprite, x, y, p, sprite.len() as int, 0));
    }
}

} // verus!
