//! The 64x32 one-bit framebuffer and its XOR sprite-drawing semantics.
//!
//! Drawing places a sprite of up to sixteen 8-pixel-wide rows with its
//! top-left corner at an on-screen coordinate, toggles every covered
//! pixel, and reports a collision when some previously lit pixel was
//! turned off. The sprite is clipped at the right and bottom screen
//! edges: covered positions that fall off screen are simply not drawn
//! (this resolves the historical clip-versus-wrap ambiguity in favour of
//! clipping, as a fixed, documented policy).

use vstd::prelude::*;
use crate::state::FB_SIZE;

verus! {

/// Divisor that isolates bit `k` of a sprite row byte, where bit 0 is
/// the most significant bit (the leftmost pixel of the row).
pub open spec fn msb_div(k: int) -> int {
    if k == 0 {
        128
    } else if k == 1 {
        64
    } else if k == 2 {
        32
    } else if k == 3 {
        16
    } else if k == 4 {
        8
    } else if k == 5 {
        4
    } else if k == 6 {
        2
    } else {
        1
    }
}

/// Whether bit `k` (0 = leftmost pixel) of sprite row byte `b` is set.
pub open spec fn sprite_bit(b: u8, k: int) -> bool {
    (b as int / msb_div(k)) % 2 == 1
}

/// Whether drawing sprite `rows` with its top-left corner at (x0, y0)
/// toggles framebuffer entry `j` (row-major: entry `j` is the pixel at
/// column `j % 64` of row `j / 64`). Positions past the right or bottom
/// screen edge have no framebuffer entry, so clipping needs no separate
/// clause here.
pub open spec fn flips(rows: Seq<u8>, x0: int, y0: int, j: int) -> bool {
    let x = j % 64;
    let y = j / 64;
    &&& x0 <= x < x0 + 8
    &&& y0 <= y < y0 + rows.len()
    &&& sprite_bit(rows[y - y0], x - x0)
}

/// The framebuffer after a draw: every toggled entry is inverted.
pub open spec fn spec_draw_fb(fb: Seq<bool>, rows: Seq<u8>, x0: int, y0: int) -> Seq<bool> {
    Seq::new(fb.len(), |j: int| fb[j] != flips(rows, x0, y0, j))
}

/// Whether a draw unsets some previously lit pixel.
pub open spec fn spec_draw_collision(fb: Seq<bool>, rows: Seq<u8>, x0: int, y0: int) -> bool {
    exists|j: int| 0 <= j < fb.len() && fb[j] && flips(rows, x0, y0, j)
}

/// An all-unlit framebuffer.
pub open spec fn spec_cleared_fb() -> Seq<bool> {
    Seq::new(FB_SIZE as nat, |j: int| false)
}

/// The display surface: 2048 single-bit pixels, row-major.
pub struct Framebuffer {
    pixels: Vec<bool>,
}

impl View for Framebuffer {
    type V = Seq<bool>;

    closed spec fn view(&self) -> Seq<bool> {
        self.pixels@
    }
}

/// A vector holding one unlit pixel per framebuffer entry.
fn all_unlit() -> (v: Vec<bool>)
    ensures
        v@ == spec_cleared_fb(),
{
    let mut v: Vec<bool> = Vec::new();
    let mut j: usize = 0;
    while j < FB_SIZE
        invariant
            j <= FB_SIZE,
            v@.len() == j,
            forall|t: int| 0 <= t < j ==> !v@[t],
        decreases FB_SIZE - j,
    {
        v.push(false);
        j += 1;
    }
    proof {
        assert(v@ =~= spec_cleared_fb());
    }
    v
}

/// The divisor that isolates sprite bit `k`, as [`msb_div`] gives it.
fn bit_divisor(k: usize) -> (d: u8)
    requires
        k < 8,
    ensures
        d as int == msb_div(k as int),
        d > 0,
{
    if k == 0 {
        128
    } else if k == 1 {
        64
    } else if k == 2 {
        32
    } else if k == 3 {
        16
    } else if k == 4 {
        8
    } else if k == 5 {
        4
    } else if k == 6 {
        2
    } else {
        1
    }
}

/// Whether drawing `rows` at (x0, y0) toggles framebuffer entry `j`.
fn pixel_flips(rows: &Vec<u8>, x0: u8, y0: u8, j: usize) -> (b: bool)
    requires
        x0 < 64,
        y0 < 32,
        j < FB_SIZE,
        rows@.len() <= 16,
    ensures
        b == flips(rows@, x0 as int, y0 as int, j as int),
{
    let x = j % 64;
    let y = j / 64;
    if x < x0 as usize || x >= x0 as usize + 8 {
        return false;
    }
    if y < y0 as usize || y >= y0 as usize + rows.len() {
        return false;
    }
    let row = rows[y - y0 as usize];
    let d = bit_divisor(x - x0 as usize);
    (row / d) % 2 == 1
}

impl Framebuffer {
    /// The framebuffer holds exactly one bit per screen position.
    pub open spec fn wf(&self) -> bool {
        self@.len() == FB_SIZE
    }

    /// A fresh, fully unlit framebuffer.
    pub fn new() -> (fb: Framebuffer)
        ensures
            fb.wf(),
            fb@ == spec_cleared_fb(),
    {
        Framebuffer { pixels: all_unlit() }
    }

    /// Turn every pixel off.
    pub fn clear(&mut self)
        ensures
            final(self).wf(),
            final(self)@ == spec_cleared_fb(),
    {
        self.pixels = all_unlit();
    }

    /// Read one pixel.
    pub fn is_lit(&self, x: usize, y: usize) -> (b: bool)
        requires
            self.wf(),
            x < 64,
            y < 32,
        ensures
            b == self@[y as int * 64 + x as int],
    {
        self.pixels[y * 64 + x]
    }

    /// A copy of the whole surface, row-major.
    pub fn snapshot(&self) -> (v: Vec<bool>)
        requires
            self.wf(),
        ensures
            v@ == self@,
    {
        let mut v: Vec<bool> = Vec::new();
        let mut j: usize = 0;
        while j < FB_SIZE
            invariant
                self.wf(),
                j <= FB_SIZE,
                v@.len() == j,
                forall|t: int| 0 <= t < j ==> v@[t] == self@[t],
            decreases FB_SIZE - j,
        {
            v.push(self.pixels[j]);
            j += 1;
        }
        proof {
            assert(v@ =~= self@);
        }
        v
    }

    /// XOR-draw a sprite whose top-left corner is at (x0, y0), clipping
    /// at the screen edges, and report whether some previously lit pixel
    /// was turned off.
    pub fn draw(&mut self, x0: u8, y0: u8, rows: &Vec<u8>) -> (collision: bool)
        requires
            old(self).wf(),
            x0 < 64,
            y0 < 32,
            rows@.len() <= 16,
        ensures
            final(self).wf(),
            final(self)@ == spec_draw_fb(old(self)@, rows@, x0 as int, y0 as int),
            collision == spec_draw_collision(old(self)@, rows@, x0 as int, y0 as int),
    {
        let ghost fb0 = self@;
        let mut collision = false;
        let mut j: usize = 0;
        while j < FB_SIZE
            invariant
                j <= FB_SIZE,
                self@.len() == FB_SIZE,
                fb0.len() == FB_SIZE,
                x0 < 64,
                y0 < 32,
                rows@.len() <= 16,
                forall|t: int|
                    0 <= t < j ==> self@[t] == (fb0[t] != flips(rows@, x0 as int, y0 as int, t)),
                forall|t: int| j <= t < FB_SIZE ==> self@[t] == fb0[t],
                collision == exists|t: int|
                    0 <= t < j && fb0[t] && flips(rows@, x0 as int, y0 as int, t),
            decreases FB_SIZE - j,
        {
            if pixel_flips(rows, x0, y0, j) {
                let was = self.pixels[j];
                if was {
                    collision = true;
                    proof {
                        assert(fb0[j as int] && flips(rows@, x0 as int, y0 as int, j as int));
                    }
                }
                self.pixels.set(j, !was);
            }
            j += 1;
        }
        proof {
            assert(self@ =~= spec_draw_fb(fb0, rows@, x0 as int, y0 as int));
        }
        collision
    }
}

} // verus!
