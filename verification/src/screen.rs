use vstd::prelude::*;

use crate::cpu::{CPU, SCREEN_HEIGHT, SCREEN_WIDTH};

verus! {

/// Brightness of a lit pixel on the host screen.
pub const LIT: u8 = 255;

/// Brightness of a dark pixel on the host screen.
pub const DARK: u8 = 0;

/// The rectangle, in host pixels, that shows the screen cell (`x`, `y`) in a
/// viewport of `width` by `height`: `(left, top, width, height)`, each cell
/// `width / 64` by `height / 32` host pixels.
pub fn pixel_rect(x: usize, y: usize, width: u32, height: u32) -> (rect: (i32, i32, u32, u32))
    requires
        x < SCREEN_WIDTH,
        y < SCREEN_HEIGHT,
        x * (width / 64) <= i32::MAX,
        y * (height / 32) <= i32::MAX,
    ensures
        rect.0 == x * (width / 64),
        rect.1 == y * (height / 32),
        rect.2 == width / 64,
        rect.3 == height / 32,
{
    let pixel_width = width / 64;
    let pixel_height = height / 32;
    proof {
        assert(x * pixel_width <= i32::MAX);
        assert(y * pixel_height <= i32::MAX);
    }
    let left = x as i32 * pixel_width as i32;
    let top = y as i32 * pixel_height as i32;
    (left, top, pixel_width, pixel_height)
}

impl CPU {
    /// The brightness that the screen cell (`x`, `y`) is shown with: `LIT`
    /// when it holds 1, `DARK` otherwise.
    pub fn pixel_shade(&self, x: usize, y: usize) -> (shade: u8)
        requires
            x < SCREEN_WIDTH,
            y < SCREEN_HEIGHT,
        ensures
            shade == if self.display[y as int][x as int] == 1 { LIT } else { DARK },
    {
        if self.display[y][x] == 1 {
            LIT
        } else {
            DARK
        }
    }
}

} // verus!
