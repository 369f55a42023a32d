use vstd::arithmetic::div_mod::lemma_add_mod_noop;
use vstd::prelude::*;

verus! {

/// Width of the framebuffer in pixels.
pub const WIDTH: usize = 64;

/// Height of the framebuffer in pixels.
pub const HEIGHT: usize = 32;

/// A 64x32 monochrome framebuffer, one byte per pixel, row-major: pixel
/// `(x, y)` is byte `x + 64 * y`. A pixel is on when its byte is 1.
pub struct Display {
    pub memory: [u8; 2048],
}

/// Index of pixel `(x, y)` in the framebuffer.
pub open spec fn pixel_index(x: int, y: int) -> int {
    x + y * 64
}

/// Whether bit `i` of a sprite row is set, bit 0 being the leftmost
/// (most significant) one.
pub open spec fn sprite_bit(row: u8, i: int) -> bool {
    (row >> ((7 - i) as u8)) & 1 == 1
}

/// The pixel that bit `i` of sprite row `j` lands on when the sprite is
/// drawn at `(x, y)`: each axis wraps around independently.
pub open spec fn target(x: int, y: int, i: int, j: int) -> int {
    pixel_index((x + i) % 64, (y + j) % 32)
}

/// Toggles pixel `p`: an on pixel turns off, any other turns on.
pub open spec fn toggle(pixels: Seq<u8>, p: int) -> Seq<u8> {
    pixels.update(p, if pixels[p] == 1 { 0u8 } else { 1u8 })
}

/// The framebuffer after the first `k` sprite bits (row by row, most
/// significant bit first) have been drawn at `(x, y)`: each set bit toggles
/// its target pixel, a clear bit leaves it alone.
pub open spec fn blit(pixels: Seq<u8>, x: int, y: int, sprite: Seq<u8>, k: nat) -> Seq<u8>
    decreases k,
{
    if k == 0 {
        pixels
    } else {
        let prev = blit(pixels, x, y, sprite, (k - 1) as nat);
        let j = (k - 1) / 8;
        let i = (k - 1) % 8;
        if sprite_bit(sprite[j], i) {
            toggle(prev, target(x, y, i, j))
        } else {
            prev
        }
    }
}

/// Whether one of the first `k` sprite bits drawn at `(x, y)` is set and
/// found its target pixel on.
pub open spec fn collides(pixels: Seq<u8>, x: int, y: int, sprite: Seq<u8>, k: nat) -> bool
    decreases k,
{
    if k == 0 {
        false
    } else {
        let j = (k - 1) / 8;
        let i = (k - 1) % 8;
        collides(pixels, x, y, sprite, (k - 1) as nat) || (sprite_bit(sprite[j], i)
            && blit(pixels, x, y, sprite, (k - 1) as nat)[target(x, y, i, j)] == 1)
    }
}

/// The framebuffer after the whole sprite has been drawn at `(x, y)`.
pub open spec fn drawn(pixels: Seq<u8>, x: int, y: int, sprite: Seq<u8>) -> Seq<u8> {
    blit(pixels, x, y, sprite, (8 * sprite.len()) as nat)
}

/// Whether drawing the whole sprite at `(x, y)` turns an on pixel off.
pub open spec fn draw_collides(pixels: Seq<u8>, x: int, y: int, sprite: Seq<u8>) -> bool {
    collides(pixels, x, y, sprite, (8 * sprite.len()) as nat)
}

/// A framebuffer with every pixel off.
pub open spec fn blank() -> Seq<u8> {
    Seq::new(2048, |p: int| 0u8)
}

impl View for Display {
    type V = Seq<u8>;

    open spec fn view(&self) -> Seq<u8> {
        self.memory@
    }
}

impl Display {
    /// A framebuffer with every pixel off.
    pub fn new() -> (r: Display)
        ensures
            r@ == blank(),
    {
        let r = Display { memory: [0; 2048] };
        assert(r@ =~= blank());
        r
    }

    /// Turns pixel `(x, y)` on or off.
    pub fn set_pixel(&mut self, x: usize, y: usize, on: bool)
        requires
            x < 64,
            y < 32,
        ensures
            final(self)@ == old(self)@.update(pixel_index(x as int, y as int), if on { 1u8 } else { 0u8 }),
    {
        self.memory[x + y * WIDTH] = if on { 1 } else { 0 };
    }

    /// Whether pixel `(x, y)` is on.
    pub fn get_pixel(&mut self, x: usize, y: usize) -> (r: bool)
        requires
            x < 64,
            y < 32,
        ensures
            *final(self) == *old(self),
            r == (old(self)@[pixel_index(x as int, y as int)] == 1),
    {
        self.memory[x + y * WIDTH] == 1
    }

    /// Turns every pixel off.
    pub fn cls(&mut self)
        ensures
            final(self)@ == blank(),
    {
        let mut x: usize = 0;
        while x < WIDTH
            invariant
                x <= 64,
                forall|p: int| 0 <= p < 2048 && p % 64 < x ==> self@[p] == 0,
            decreases 64 - x,
        {
            let mut y: usize = 0;
            while y < HEIGHT
                invariant
                    x < 64,
                    y <= 32,
                    forall|p: int| 0 <= p < 2048 && p % 64 < x ==> self@[p] == 0,
                    forall|p: int| 0 <= p < 2048 && p % 64 == x && p / 64 < y ==> self@[p] == 0,
                decreases 32 - y,
            {
                self.set_pixel(x, y, false);
                y += 1;
            }
            x += 1;
        }
        assert(self@ =~= blank());
    }
    /// Draws `sprite` with its top-left corner at `(x, y)`: every set bit
    /// toggles its target pixel, wrapping around each axis. Returns whether
    /// a pixel that was on got turned off.
    pub fn draw(&mut self, x: usize, y: usize, sprite: &[u8]) -> (collision: bool)
        ensures
            final(self)@ == drawn(old(self)@, x as int, y as int, sprite@),
            collision == draw_collides(old(self)@, x as int, y as int, sprite@),
    {
        let ghost start = self@;
        let rows = sprite.len();
        let mut collision = false;
        let mut j: usize = 0;
        while j < rows
            invariant
                j <= rows,
                rows == sprite@.len(),
                self@.len() == 2048,
                self@ == blit(start, x as int, y as int, sprite@, (8 * j) as nat),
                collision == collides(start, x as int, y as int, sprite@, (8 * j) as nat),
            decreases rows - j,
        {
            let row = sprite[j];
            let mut i: u8 = 0;
            while i < 8
                invariant
                    i <= 8,
                    j < rows,
                    rows == sprite@.len(),
                    row == sprite@[j as int],
                    self@.len() == 2048,
                    self@ == blit(start, x as int, y as int, sprite@, (8 * j + i) as nat),
                    collision == collides(start, x as int, y as int, sprite@, (8 * j + i) as nat),
                decreases 8 - i,
            {
                let ghost k = 8 * j + i;
                assert(k / 8 == j && k % 8 == i);
                if (row >> (7 - i)) & 0x01 == 1 {
                    let xi = (x % WIDTH + i as usize) % WIDTH;
                    let yj = (y % HEIGHT + j % HEIGHT) % HEIGHT;
                    proof {
                        lemma_add_mod_noop(x as int, i as int, 64);
                        lemma_add_mod_noop(y as int, j as int, 32);
                    }
                    let old_value = self.get_pixel(xi, yj);
                    if old_value {
                        collision = true;
                    }
                    self.set_pixel(xi, yj, !old_value);
                }
                i += 1;
            }
            j += 1;
        }
        collision
    }
}

} // verus!
