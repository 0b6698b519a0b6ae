//! One cell of the grid, as it is stored and as it is shown.

use vstd::prelude::*;

verus! {

/// The two colours in which cells are drawn.
#[derive(Clone, Copy, Debug, PartialEq, Eq, Structural)]
pub enum Color {
    /// The background, for a dead cell.
    Black,
    /// The foreground, for a live cell.
    White,
}

/// A cell: the top left corner of its square on the screen, and whether it
/// is alive.
#[derive(Clone, Copy, Debug, PartialEq, Eq)]
pub struct Pixel {
    pub x: i64,
    pub y: i64,
    pub alive: bool,
}

impl Pixel {
    /// A cell whose square has its top left corner at `(x, y)`.
    pub fn new(x: i64, y: i64, alive: bool) -> (p: Pixel)
        ensures
            p.x == x,
            p.y == y,
            p.alive == alive,
    {
        let p = Pixel { x: x, y: y, alive: alive };
        p
    }

    /// The colour to draw the cell in.
    pub open spec fn spec_color(&self) -> Color {
        if self.alive {
            Color::White
        } else {
            Color::Black
        }
    }

    /// The colour to draw the cell in: white if it is alive, black if not.
    #[verifier::when_used_as_spec(spec_color)]
    pub fn color(&self) -> (c: Color)
        ensures
            c == self.spec_color(),
    {
        let mut color = Color::Black;
        if self.alive {
            color = Color::White;
        }
        color
    }
}

} // verus!
