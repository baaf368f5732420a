//! The display surface: a monochrome bitmap that sprite drawing writes into.

use vstd::prelude::*;
use vstd::arithmetic::power2::pow2;
use vstd::arithmetic::power2::lemma2_to64;

verus! {

/// Pixels in one row.
pub const DISPLAY_WIDTH: usize = 64;

/// Number of rows.
pub const DISPLAY_HEIGHT: usize = 32;

/// Pixels on the whole surface.
pub const DISPLAY_CELLS: usize = DISPLAY_WIDTH * DISPLAY_HEIGHT;

/// Pixels in one sprite row: one per bit of a sprite byte.
pub const SPRITE_WIDTH: usize = 8;

/// Where the pixel in column `x` of row `y` stands in the row-major bitmap.
pub open spec fn cell_index(x: int, y: int) -> int {
    y * DISPLAY_WIDTH as int + x
}

/// Whether `byte`, read as eight pixels with the most significant bit
/// leftmost, is lit at column `col` (0 to 7).
pub open spec fn sprite_bit(byte: u8, col: int) -> bool {
    (byte as nat / pow2((7 - col) as nat)) % 2 == 1
}

/// Whether a sprite of `rows` rows placed with its top left corner at
/// (`x`, `y`) covers the pixel in column `col` of row `row`.
pub open spec fn sprite_covers(x: int, y: int, rows: int, col: int, row: int) -> bool {
    x <= col < x + SPRITE_WIDTH && y <= row < y + rows
}

/// The bitmap after the first `done_rows` rows of `sprite`, and the first
/// `done_cols` pixels of the row after them, have been drawn at (`x`, `y`)
/// over `pixels`.
spec fn draw_progress(
    pixels: Seq<bool>,
    x: int,
    y: int,
    sprite: Seq<u8>,
    done_rows: int,
    done_cols: int,
) -> Seq<bool> {
    Seq::new(
        pixels.len(),
        |k: int|
            {
                let col = k % DISPLAY_WIDTH as int;
                let row = k / DISPLAY_WIDTH as int;
                if sprite_covers(x, y, sprite.len() as int, col, row) && (row - y < done_rows || (
                row - y == done_rows && col - x < done_cols)) {
                    sprite_bit(sprite[row - y], col - x)
                } else {
                    pixels[k]
                }
            },
    )
}

/// The bitmap after `sprite` has been drawn at (`x`, `y`) over `pixels`.
///
/// Each sprite byte is one row of eight pixels. A covered pixel takes the
/// sprite's bit, whatever it held before; every other pixel keeps its
/// value. Sprite pixels that would fall right of the last column or below
/// the last row are dropped: nothing wraps round to the opposite edge.
pub open spec fn draw_sprite_spec(pixels: Seq<bool>, x: int, y: int, sprite: Seq<u8>) -> Seq<bool> {
    Seq::new(
        pixels.len(),
        |k: int|
            {
                let col = k % DISPLAY_WIDTH as int;
                let row = k / DISPLAY_WIDTH as int;
                if sprite_covers(x, y, sprite.len() as int, col, row) {
                    sprite_bit(sprite[row - y], col - x)
                } else {
                    pixels[k]
                }
            },
    )
}

/// After a draw, the pixel in column `col` of row `row` holds the sprite's
/// bit where the sprite covers it and its former value where it does not.
pub proof fn lemma_drawn_pixel(
    pixels: Seq<bool>,
    x: int,
    y: int,
    sprite: Seq<u8>,
    col: int,
    row: int,
)
    requires
        pixels.len() == DISPLAY_CELLS,
        0 <= col < DISPLAY_WIDTH,
        0 <= row < DISPLAY_HEIGHT,
    ensures
        draw_sprite_spec(pixels, x, y, sprite).len() == DISPLAY_CELLS,
        draw_sprite_spec(pixels, x, y, sprite)[cell_index(col, row)] == if sprite_covers(
            x,
            y,
            sprite.len() as int,
            col,
            row,
        ) {
            sprite_bit(sprite[row - y], col - x)
        } else {
            pixels[cell_index(col, row)]
        },
{
}

/// Column by column, what `sprite_bit` says of a byte: the leftmost
/// pixel is the bit worth 128, the rightmost the bit worth 1.
pub proof fn lemma_sprite_bit_weights(byte: u8)
    ensures
        sprite_bit(byte, 0) == ((byte as int / 128) % 2 == 1),
        sprite_bit(byte, 1) == ((byte as int / 64) % 2 == 1),
        sprite_bit(byte, 2) == ((byte as int / 32) % 2 == 1),
        sprite_bit(byte, 3) == ((byte as int / 16) % 2 == 1),
        sprite_bit(byte, 4) == ((byte as int / 8) % 2 == 1),
        sprite_bit(byte, 5) == ((byte as int / 4) % 2 == 1),
        sprite_bit(byte, 6) == ((byte as int / 2) % 2 == 1),
        sprite_bit(byte, 7) == (byte as int % 2 == 1),
{
    lemma2_to64();
    let b = byte as nat;
    assert(b / pow2(7) == b / 128);
    assert(b / pow2(6) == b / 64);
    assert(b / pow2(5) == b / 32);
    assert(b / pow2(4) == b / 16);
    assert(b / pow2(3) == b / 8);
    assert(b / pow2(2) == b / 4);
    assert(b / pow2(1) == b / 2);
    assert(b / pow2(0) == b) by (nonlinear_arith)
        requires
            pow2(0) == 1,
    ;
}

/// Tests bit `7 - col` of `byte`.
fn bit_at(byte: u8, col: usize) -> (lit: bool)
    requires
        col < SPRITE_WIDTH,
    ensures
        lit == sprite_bit(byte, col as int),
{
    let shift: u8 = 7 - col as u8;
    proof {
        lemma_sprite_bit_weights(byte);
        assert(((byte >> 0u8) & 1 == 1) == (byte % 2 == 1)) by (bit_vector);
        assert(((byte >> 1u8) & 1 == 1) == ((byte / 2) % 2 == 1)) by (bit_vector);
        assert(((byte >> 2u8) & 1 == 1) == ((byte / 4) % 2 == 1)) by (bit_vector);
        assert(((byte >> 3u8) & 1 == 1) == ((byte / 8) % 2 == 1)) by (bit_vector);
        assert(((byte >> 4u8) & 1 == 1) == ((byte / 16) % 2 == 1)) by (bit_vector);
        assert(((byte >> 5u8) & 1 == 1) == ((byte / 32) % 2 == 1)) by (bit_vector);
        assert(((byte >> 6u8) & 1 == 1) == ((byte / 64) % 2 == 1)) by (bit_vector);
        assert(((byte >> 7u8) & 1 == 1) == ((byte / 128) % 2 == 1)) by (bit_vector);
    }
    (byte >> shift) & 1 == 1
}

/// The eight pixels of the sprite row `byte`, leftmost first.
pub fn sprite_row(byte: u8) -> (pixels: [bool; SPRITE_WIDTH])
    ensures
        forall|col: int| 0 <= col < SPRITE_WIDTH ==> pixels[col] == sprite_bit(byte, col),
{
    let mut pixels: [bool; SPRITE_WIDTH] = [false; SPRITE_WIDTH];
    let mut col: usize = 0;
    while col < SPRITE_WIDTH
        invariant
            col <= SPRITE_WIDTH,
            forall|done: int| 0 <= done < col ==> pixels[done] == sprite_bit(byte, done),
        decreases SPRITE_WIDTH - col,
    {
        pixels[col] = bit_at(byte, col);
        col += 1;
    }
    pixels
}

/// A 64 by 32 bitmap of on/off pixels, stored row by row.
pub struct Display {
    pixels: [bool; DISPLAY_CELLS],
}

impl View for Display {
    type V = Seq<bool>;

    closed spec fn view(&self) -> Seq<bool> {
        self.pixels@
    }
}

impl Display {
    /// Every surface has `DISPLAY_CELLS` pixels.
    pub proof fn lemma_size(&self)
        ensures
            self@.len() == DISPLAY_CELLS,
    {
    }

    /// A surface with every pixel off.
    pub fn new() -> (display: Display)
        ensures
            display@.len() == DISPLAY_CELLS,
            forall|k: int| 0 <= k < DISPLAY_CELLS ==> !display@[k],
    {
        Display { pixels: [false; DISPLAY_CELLS] }
    }

    /// The pixel in column `x` of row `y`, or `None` where the surface has
    /// no such pixel.
    pub fn pixel(&self, x: usize, y: usize) -> (lit: Option<bool>)
        ensures
            lit == if x < DISPLAY_WIDTH && y < DISPLAY_HEIGHT {
                Some(self@[cell_index(x as int, y as int)])
            } else {
                None
            },
    {
        if x < DISPLAY_WIDTH && y < DISPLAY_HEIGHT {
            Some(self.pixels[y * DISPLAY_WIDTH + x])
        } else {
            None
        }
    }

    /// Draws `sprite` with its top left corner at (`x`, `y`), overwriting
    /// what was there and dropping what falls outside the surface.
    pub fn draw_sprite(&mut self, x: u8, y: u8, sprite: &[u8])
        ensures
            final(self)@ == draw_sprite_spec(old(self)@, x as int, y as int, sprite@),
    {
        let left: usize = x as usize;
        let top: usize = y as usize;
        let mut r: usize = 0;
        while r < sprite.len() && top + r < DISPLAY_HEIGHT
            invariant
                left == x,
                top == y,
                r <= sprite.len(),
                r <= DISPLAY_HEIGHT,
                self.pixels@ == draw_progress(old(self)@, x as int, y as int, sprite@, r as int, 0),
            decreases sprite.len() - r,
        {
            let row: [bool; SPRITE_WIDTH] = sprite_row(sprite[r]);
            let mut c: usize = 0;
            while c < SPRITE_WIDTH && left + c < DISPLAY_WIDTH
                invariant
                    left == x,
                    top == y,
                    r < sprite.len(),
                    top + r < DISPLAY_HEIGHT,
                    forall|col: int|
                        0 <= col < SPRITE_WIDTH ==> row[col] == sprite_bit(sprite@[r as int], col),
                    c <= SPRITE_WIDTH,
                    self.pixels@ == draw_progress(
                        old(self)@,
                        x as int,
                        y as int,
                        sprite@,
                        r as int,
                        c as int,
                    ),
                decreases SPRITE_WIDTH - c,
            {
                self.pixels[(top + r) * DISPLAY_WIDTH + left + c] = row[c];
                c += 1;
            }
            r += 1;
        }
    }
}

} // verus!
