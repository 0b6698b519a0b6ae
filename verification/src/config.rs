//! Sizes of the screen and of the grid, in one place.

use vstd::prelude::*;

verus! {

/// Width of the screen in screen pixels.
pub const SCREEN_WIDTH: i64 = 800;

/// Height of the screen in screen pixels.
pub const SCREEN_HEIGHT: i64 = 600;

/// Side of the square that one cell covers on the screen.
pub const PIXEL_SIZE: i64 = 7;

/// Number of whole cells that fit across the screen.
pub const PIXELS_WIDTH: usize = 114;

/// Number of whole cells that fit down the screen.
pub const PIXELS_HEIGHT: usize = 85;

/// The largest width or height a grid can have: the positions of the cells
/// and of the positions next to them are handled as `i32`.
pub const MAX_SIDE: usize = 0x7fff_fffe;

/// The default grid covers as much of the screen as whole cells can.
pub proof fn lemma_default_grid_fills_screen()
    ensures
        PIXELS_WIDTH == SCREEN_WIDTH / PIXEL_SIZE,
        PIXELS_HEIGHT == SCREEN_HEIGHT / PIXEL_SIZE,
        0 < PIXELS_WIDTH <= MAX_SIDE,
        0 < PIXELS_HEIGHT <= MAX_SIDE,
{
}

} // verus!
