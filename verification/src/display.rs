//! The monochrome display: a grid of pixels on which sprites are drawn by
//! exclusive or.

use vstd::prelude::*;
use crate::types::Val;

verus! {

/// Number of pixel columns.
pub const WIDTH: usize = 64;

/// Number of pixel rows.
pub const HEIGHT: usize = 32;

/// Whether bit `shift` of `byte` is set, bit 0 being the least significant.
pub open spec fn bit_of(byte: u8, shift: u8) -> bool {
    (byte >> shift) & 1u8 == 1u8
}

/// Whether a sprite placed with its top left corner at column `x`, row `y`
/// covers the pixel at (`col`, `row`) with a set bit. Each sprite byte is one
/// row of eight pixels, its most significant bit leftmost.
pub open spec fn sprite_bit(sprite: Seq<u8>, x: int, y: int, col: int, row: int) -> bool {
    0 <= col - x < 8 && 0 <= row - y < sprite.len() && bit_of(sprite[row - y], (7 - (col - x)) as u8)
}

/// Whether the sprite covers the pixel with index `i` of the grid, the pixels
/// being numbered row by row.
pub open spec fn sprite_covers(sprite: Seq<u8>, x: int, y: int, i: int) -> bool {
    sprite_bit(sprite, x, y, i % 64, i / 64)
}

/// The grid after a sprite is drawn on `pixels`: every pixel of the grid that
/// a set sprite bit covers is flipped, and nothing else changes. Sprite bits
/// that fall outside the grid have no pixel and are dropped.
pub open spec fn drawn(pixels: Seq<bool>, x: int, y: int, sprite: Seq<u8>) -> Seq<bool> {
    Seq::new(2048, |i: int| pixels[i] != sprite_covers(sprite, x, y, i))
}

/// Whether drawing the sprite on `pixels` turns some lit pixel off.
pub open spec fn collides(pixels: Seq<bool>, x: int, y: int, sprite: Seq<u8>) -> bool {
    exists|i: int| 0 <= i < 2048 && #[trigger] pixels[i] && sprite_covers(sprite, x, y, i)
}

/// Whether the drawing loop has already handled pixel `i` when it stands at
/// sprite row `r`, sprite column `c`.
pub open spec fn visited(x: int, y: int, r: int, c: int, i: int) -> bool {
    i / 64 - y < r || (i / 64 - y == r && i % 64 - x < c)
}

/// A grid of 64 by 32 pixels. Its view is the sequence of its pixels row by
/// row, `true` for a lit pixel: the pixel at column `x`, row `y` has index
/// `64 * y + x`.
pub struct Display {
    pixels: [bool; 2048],
}

impl View for Display {
    type V = Seq<bool>;

    closed spec fn view(&self) -> Seq<bool> {
        self.pixels@
    }
}

impl Display {
    /// The view always has one entry for each pixel.
    pub proof fn lemma_len(&self)
        ensures
            self@.len() == 2048,
    {
    }

    /// A blank display.
    pub fn new() -> (d: Display)
        ensures
            d@ == Seq::new(2048, |i: int| false),
    {
        let d = Display { pixels: [false; 2048] };
        assert(d@ =~= Seq::new(2048, |i: int| false));
        d
    }

    /// Turns every pixel off.
    pub fn clear(&mut self)
        ensures
            final(self)@ == Seq::new(2048, |i: int| false),
    {
        self.pixels = [false; 2048];
        assert(self@ =~= Seq::new(2048, |i: int| false));
    }

    /// Whether the pixel at column `x`, row `y` is lit.
    pub fn is_set(&self, x: usize, y: usize) -> (lit: bool)
        requires
            x < 64,
            y < 32,
        ensures
            lit == self@[64 * y + x],
    {
        self.pixels[64 * y + x]
    }

    /// A copy of the whole grid, row by row, for rendering.
    pub fn snapshot(&self) -> (grid: [bool; 2048])
        ensures
            grid@ == self@,
    {
        self.pixels
    }

    /// Draws `sprite` with its top left corner at column `x`, row `y`, by
    /// exclusive or, clipped at the right and bottom edges. Returns whether
    /// any lit pixel was turned off.
    pub fn draw(&mut self, x: Val, y: Val, sprite: &[u8]) -> (collision: bool)
        ensures
            final(self)@ == drawn(old(self)@, x.0 as int, y.0 as int, sprite@),
            collision == collides(old(self)@, x.0 as int, y.0 as int, sprite@),
    {
        let mut collision = false;
        let x0: usize = x.0 as usize;
        let y0: usize = y.0 as usize;
        let ghost before = self@;
        let ghost xi = x.0 as int;
        let ghost yi = y.0 as int;
        let mut r: usize = 0;
        while r < sprite.len() && y0 + r < HEIGHT
            invariant
                x0 == x.0,
                y0 == y.0,
                xi == x.0,
                yi == y.0,
                before.len() == 2048,
                r <= sprite.len(),
                r <= 32,
                forall|i: int|
                    0 <= i < 2048 ==> #[trigger] self.pixels@[i] == (before[i] != (sprite_covers(
                        sprite@,
                        xi,
                        yi,
                        i,
                    ) && visited(xi, yi, r as int, 0, i))),
                collision <==> exists|i: int|
                    0 <= i < 2048 && #[trigger] before[i] && sprite_covers(sprite@, xi, yi, i) && visited(
                        xi,
                        yi,
                        r as int,
                        0,
                        i,
                    ),
            decreases sprite.len() - r,
        {
            let byte: u8 = sprite[r];
            let mut c: usize = 0;
            while c < 8 && x0 + c < WIDTH
                invariant
                    x0 == x.0,
                    y0 == y.0,
                    xi == x.0,
                    yi == y.0,
                    before.len() == 2048,
                    r < sprite.len(),
                    y0 + r < 32,
                    byte == sprite@[r as int],
                    c <= 8,
                    forall|i: int|
                        0 <= i < 2048 ==> #[trigger] self.pixels@[i] == (before[i] != (sprite_covers(
                            sprite@,
                            xi,
                            yi,
                            i,
                        ) && visited(xi, yi, r as int, c as int, i))),
                    collision <==> exists|i: int|
                        0 <= i < 2048 && #[trigger] before[i] && sprite_covers(sprite@, xi, yi, i)
                            && visited(xi, yi, r as int, c as int, i),
                decreases 8 - c,
            {
                let shift: u8 = (7 - c) as u8;
                let bit: bool = (byte >> shift) & 1u8 == 1u8;
                let idx: usize = (y0 + r) * WIDTH + (x0 + c);
                let lit: bool = self.pixels[idx];
                self.pixels[idx] = lit != bit;
                collision = collision || (lit && bit);
                proof {
                    assert forall|i: int| 0 <= i < 2048 implies (visited(xi, yi, r as int, c + 1, i)
                        <==> visited(xi, yi, r as int, c as int, i) || i == idx) by {}
                    if lit && bit {
                        assert(before[idx as int] && sprite_covers(sprite@, xi, yi, idx as int) && visited(
                            xi,
                            yi,
                            r as int,
                            c + 1,
                            idx as int,
                        ));
                    }
                }
                c = c + 1;
            }
            proof {
                assert forall|i: int|
                    0 <= i < 2048 && sprite_covers(sprite@, xi, yi, i) implies (visited(
                    xi,
                    yi,
                    r + 1,
                    0,
                    i,
                ) <==> visited(xi, yi, r as int, c as int, i)) by {}
            }
            r = r + 1;
        }
        proof {
            assert forall|i: int| 0 <= i < 2048 && sprite_covers(sprite@, xi, yi, i) implies visited(
                xi,
                yi,
                r as int,
                0,
                i,
            ) by {}
            assert(self@ =~= drawn(before, xi, yi, sprite@));
        }
        collision
    }
}

/// Drawing the same sprite twice at the same place gives back the grid as
/// it was before the first draw.
pub proof fn draw_twice_restores(pixels: Seq<bool>, x: int, y: int, sprite: Seq<u8>)
    requires
        pixels.len() == 2048,
    ensures
        drawn(drawn(pixels, x, y, sprite), x, y, sprite) == pixels,
{
    assert(drawn(drawn(pixels, x, y, sprite), x, y, sprite) =~= pixels);
}

/// The second of two equal draws reports a collision exactly when the first
/// one lit a pixel, that is when the sprite covers a pixel that was dark.
pub proof fn second_draw_collides(pixels: Seq<bool>, x: int, y: int, sprite: Seq<u8>)
    requires
        pixels.len() == 2048,
    ensures
        collides(drawn(pixels, x, y, sprite), x, y, sprite) <==> exists|i: int|
            0 <= i < 2048 && !#[trigger] pixels[i] && sprite_covers(sprite, x, y, i),
{
    let once = drawn(pixels, x, y, sprite);
    if collides(once, x, y, sprite) {
        let i = choose|i: int| 0 <= i < 2048 && #[trigger] once[i] && sprite_covers(sprite, x, y, i);
        assert(!pixels[i] && sprite_covers(sprite, x, y, i));
    }
    if exists|i: int| 0 <= i < 2048 && !#[trigger] pixels[i] && sprite_covers(sprite, x, y, i) {
        let i = choose|i: int| 0 <= i < 2048 && !#[trigger] pixels[i] && sprite_covers(sprite, x, y, i);
        assert(once[i] && sprite_covers(sprite, x, y, i));
    }
}

/// A sprite changes no pixel left of its column or above its row, none more
/// than seven columns to the right, and none below its last row: what does
/// not fit on the grid is dropped and never shows up elsewhere.
pub proof fn draw_is_clipped(pixels: Seq<bool>, x: int, y: int, sprite: Seq<u8>, col: int, row: int)
    requires
        pixels.len() == 2048,
        0 <= col < 64,
        0 <= row < 32,
        !(x <= col < x + 8 && y <= row < y + sprite.len()),
    ensures
        drawn(pixels, x, y, sprite)[64 * row + col] == pixels[64 * row + col],
{
}

} // verus!
