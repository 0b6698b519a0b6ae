//! Signed grid coordinates.

use vstd::prelude::*;

verus! {

/// A position on the grid, or just outside of it.
///
/// The fields are signed so that the neighbours of a cell on the edge of the
/// grid can be written down before they are tested for validity.
#[derive(Clone, Copy, Debug, PartialEq, Eq)]
pub struct Coord {
    pub x: i32,
    pub y: i32,
}

impl Coord {
    /// The coordinate `(x, y)`.
    pub fn new(x: i32, y: i32) -> (c: Coord)
        ensures
            c.x == x,
            c.y == y,
    {
        Coord { x: x, y: y }
    }
}

} // verus!
