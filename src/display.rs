//! The in-core 64x32 monochrome pixel buffer that sprites are XOR-drawn into.
use vstd::prelude::*;

verus! {

pub const WIDTH: usize = 64;

pub const HEIGHT: usize = 32;

pub const PIXELS: usize = 2048;

/// Whether bit `col` (0 is the leftmost, most significant) of a sprite byte is set.
pub open spec fn bit_at(b: u8, col: int) -> bool {
    (b & (0x80u8 >> (col as u8))) != 0
}

/// Column of pixel `p` relative to a sprite whose left edge is at `vx`, wrapping at 64.
pub open spec fn sprite_col(vx: u8, p: int) -> int {
    (p % 64 - vx as int % 64 + 64) % 64
}

/// Row of pixel `p` relative to a sprite whose top edge is at `vy`, wrapping at 32.
pub open spec fn sprite_row(vy: u8, p: int) -> int {
    (p / 64 - vy as int % 32 + 32) % 32
}

/// Whether drawing `sprite` (one byte per row) at (`vx`, `vy`) toggles pixel `p`:
/// the pixel lies inside the 8-wide sprite window, coordinates wrapping
/// independently, and the matching sprite bit is set.
pub open spec fn sprite_hit(sprite: Seq<u8>, vx: u8, vy: u8, p: int) -> bool {
    let row = sprite_row(vy, p);
    let col = sprite_col(vx, p);
    row < sprite.len() && col < 8 && bit_at(sprite[row], col)
}

/// The screen after XOR-drawing `sprite` at (`vx`, `vy`).
pub open spec fn drawn(screen: Seq<bool>, sprite: Seq<u8>, vx: u8, vy: u8) -> Seq<bool> {
    Seq::new(2048, |p: int| screen[p] != sprite_hit(sprite, vx, vy, p))
}

/// Whether drawing `sprite` at (`vx`, `vy`) turns some lit pixel off.
pub open spec fn collides(screen: Seq<bool>, sprite: Seq<u8>, vx: u8, vy: u8) -> bool {
    exists|p: int| 0 <= p < 2048 && #[trigger] sprite_hit(sprite, vx, vy, p) && screen[p]
}

/// A screen with every pixel off.
pub open spec fn blank() -> Seq<bool> {
    Seq::new(2048, |p: int| false)
}

/// Row-major pixel state, index `y * 64 + x`.
pub struct DisplayBuffer {
    pub pixels: [bool; 2048],
}

impl View for DisplayBuffer {
    type V = Seq<bool>;

    open spec fn view(&self) -> Seq<bool> {
        self.pixels@
    }
}

impl DisplayBuffer {
    /// A buffer with every pixel off.
    pub fn new() -> (r: DisplayBuffer)
        ensures
            r@ == blank(),
    {
        let r = DisplayBuffer { pixels: [false; 2048] };
        proof {
            assert(r@ =~= blank());
        }
        r
    }

    /// Turns every pixel off.
    #[allow(non_snake_case)]
    pub fn CLS(&mut self)
        ensures
            final(self)@ == blank(),
    {
        let mut p: usize = 0;
        while p < PIXELS
            invariant
                p <= 2048,
                self@.len() == 2048,
                forall|q: int| 0 <= q < p ==> !self@[q],
            decreases 2048 - p,
        {
            self.pixels[p] = false;
            p = p + 1;
        }
        proof {
            assert(self@ =~= blank());
        }
    }

    /// The state of pixel (`x`, `y`).
    pub fn pixel(&self, x: usize, y: usize) -> (r: bool)
        requires
            x < 64,
            y < 32,
        ensures
            r == self@[y * 64 + x],
    {
        self.pixels[y * WIDTH + x]
    }

    /// XOR-draws `sprite` with its top-left corner at (`vx` mod 64, `vy` mod 32),
    /// each coordinate wrapping independently. Returns whether a lit pixel was
    /// turned off.
    pub fn draw(&mut self, sprite: &[u8], vx: u8, vy: u8) -> (collision: bool)
        requires
            sprite@.len() <= 32,
        ensures
            final(self)@ == drawn(old(self)@, sprite@, vx, vy),
            collision == collides(old(self)@, sprite@, vx, vy),
    {
        let ghost before = self@;
        let ox = (vx as usize) % WIDTH;
        let oy = (vy as usize) % HEIGHT;
        let mut collision = false;
        let mut p: usize = 0;
        while p < PIXELS
            invariant
                p <= 2048,
                sprite@.len() <= 32,
                before.len() == 2048,
                self@.len() == 2048,
                ox == vx as int % 64,
                oy == vy as int % 32,
                forall|q: int| 0 <= q < p ==> self@[q] == (before[q] != sprite_hit(sprite@, vx, vy, q)),
                forall|q: int| p <= q < 2048 ==> self@[q] == before[q],
                collision == exists|q: int| 0 <= q < p && #[trigger] sprite_hit(sprite@, vx, vy, q) && before[q],
            decreases 2048 - p,
        {
            let col = (p % WIDTH + WIDTH - ox) % WIDTH;
            let row = (p / WIDTH + HEIGHT - oy) % HEIGHT;
            let hit = row < sprite.len() && col < 8 && (sprite[row] & (0x80u8 >> (col as u8))) != 0;
            assert(hit == sprite_hit(sprite@, vx, vy, p as int));
            if hit {
                if self.pixels[p] {
                    collision = true;
                }
                self.pixels[p] = !self.pixels[p];
            }
            proof {
                if hit && before[p as int] {
                    assert(sprite_hit(sprite@, vx, vy, p as int) && before[p as int]);
                }
            }
            p = p + 1;
        }
        proof {
            assert(self@ =~= drawn(before, sprite@, vx, vy));
        }
        collision
    }
}

} // verus!
