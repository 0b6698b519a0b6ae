//! The grid as a mathematical value, and the rules of the game stated over it.
//!
//! Nothing here is executed: the engine is described by saying which `Board`
//! it holds before and after each operation.

use vstd::prelude::*;
use crate::config::{MAX_SIDE, PIXEL_SIZE};

verus! {

/// The state of the engine: the cells, row by row, and the edit lock.
///
/// `cells[y][x]` is the cell in column `x` of row `y`; `true` means alive.
/// `can_click` is `true` while the next press of the left button may still
/// toggle a cell.
pub struct Board {
    pub can_click: bool,
    pub cells: Seq<Seq<bool>>,
}

/// The rule of the game for one cell: whether a cell that is `alive` now and
/// has `n` live neighbours is alive in the next generation.
///
/// A live cell stays alive with two or three live neighbours, a dead cell
/// comes alive with exactly three, and every other cell is dead.
pub open spec fn lives_on(alive: bool, n: int) -> bool {
    n == 3 || (alive && n == 2)
}

/// Whether the pointer position `(px, py)` lies in the square that the cell
/// in column `x` of row `y` covers on the screen. The square includes its
/// top and left edges and excludes its bottom and right edges.
pub open spec fn in_square(x: int, y: int, px: int, py: int) -> bool {
    &&& x * PIXEL_SIZE <= px < x * PIXEL_SIZE + PIXEL_SIZE
    &&& y * PIXEL_SIZE <= py < y * PIXEL_SIZE + PIXEL_SIZE
}

impl Board {
    /// Number of rows.
    pub open spec fn height(self) -> int {
        self.cells.len() as int
    }

    /// Number of columns.
    pub open spec fn width(self) -> int {
        if self.cells.len() > 0 {
            self.cells[0].len() as int
        } else {
            0
        }
    }

    /// A board is well formed if it is a rectangle with at least one cell
    /// and sides of at most `MAX_SIDE`.
    pub open spec fn well_formed(self) -> bool {
        &&& 0 < self.height() <= MAX_SIDE
        &&& 0 < self.width() <= MAX_SIDE
        &&& forall|y: int| 0 <= y < self.height() ==> (#[trigger] self.cells[y]).len() == self.width()
    }

    /// Whether `(x, y)` is the position of a cell.
    pub open spec fn on_grid(self, x: int, y: int) -> bool {
        0 <= x < self.width() && 0 <= y < self.height()
    }

    /// Whether the cell at `(x, y)` exists and is alive.
    pub open spec fn alive(self, x: int, y: int) -> bool {
        self.on_grid(x, y) && self.cells[y][x]
    }

    /// Whether every cell is dead.
    pub open spec fn all_dead(self) -> bool {
        forall|x: int, y: int| self.on_grid(x, y) ==> !#[trigger] self.cells[y][x]
    }

    /// Whether a position is looked at when neighbours are counted.
    ///
    /// Row 0 and column 0 are a border: a cell there is never counted as
    /// anybody's neighbour, and so are all positions off the grid.
    pub open spec fn valid_coords(self, x: int, y: int) -> bool {
        0 < x < self.width() && 0 < y < self.height()
    }

    /// What the position `(x, y)` adds to a neighbour count: 1 if it is
    /// looked at and holds a live cell, 0 otherwise.
    pub open spec fn counted(self, x: int, y: int) -> int {
        if self.valid_coords(x, y) && self.cells[y][x] {
            1
        } else {
            0
        }
    }

    /// The neighbour count of `(x, y)`: how many of the eight positions
    /// around it are counted.
    pub open spec fn neighbors(self, x: int, y: int) -> int {
        self.counted(x - 1, y) + self.counted(x + 1, y)
            + self.counted(x - 1, y + 1) + self.counted(x + 1, y + 1)
            + self.counted(x - 1, y - 1) + self.counted(x + 1, y - 1)
            + self.counted(x, y + 1) + self.counted(x, y - 1)
    }

    /// 1 if the cell at `(x, y)` exists and is alive, 0 otherwise.
    pub open spec fn live(self, x: int, y: int) -> int {
        if self.alive(x, y) {
            1
        } else {
            0
        }
    }

    /// How many of the eight cells around `(x, y)` are alive, with no border:
    /// only positions off the grid are left out.
    pub open spec fn live_around(self, x: int, y: int) -> int {
        self.live(x - 1, y - 1) + self.live(x, y - 1) + self.live(x + 1, y - 1)
            + self.live(x - 1, y) + self.live(x + 1, y)
            + self.live(x - 1, y + 1) + self.live(x, y + 1) + self.live(x + 1, y + 1)
    }

    /// Whether the cell at `(x, y)` is alive in the next generation.
    pub open spec fn next_alive(self, x: int, y: int) -> bool {
        lives_on(self.cells[y][x], self.neighbors(x, y))
    }

    /// The next generation: every cell follows the rule, each with the
    /// neighbour count it has on this board. The edit lock stays as it is.
    pub open spec fn step(self) -> Board {
        Board {
            can_click: self.can_click,
            cells: Seq::new(
                self.height() as nat,
                |y: int| Seq::new(self.width() as nat, |x: int| self.next_alive(x, y)),
            ),
        }
    }

    /// The cell under the pointer position `(px, py)`, as `(x, y)`, if the
    /// pointer is over the grid.
    pub open spec fn hit(self, px: int, py: int) -> Option<(int, int)> {
        if 0 <= px < self.width() * PIXEL_SIZE && 0 <= py < self.height() * PIXEL_SIZE {
            Some((px / (PIXEL_SIZE as int), py / (PIXEL_SIZE as int)))
        } else {
            None
        }
    }

    /// The board with the cell at `(x, y)` turned from dead to alive or from
    /// alive to dead.
    pub open spec fn flip(self, x: int, y: int) -> Board {
        Board {
            can_click: self.can_click,
            cells: self.cells.update(y, self.cells[y].update(x, !self.cells[y][x])),
        }
    }

    /// A press of the left button at `(px, py)`.
    ///
    /// While the lock is open and the pointer is over a cell, that cell is
    /// flipped and the lock closes. Otherwise nothing changes: a press that
    /// misses the grid leaves the lock open.
    pub open spec fn toggle(self, px: int, py: int) -> Board {
        match self.hit(px, py) {
            Some((x, y)) if self.can_click => Board { can_click: false, ..self.flip(x, y) },
            _ => self,
        }
    }

    /// A release of the left button: the lock opens, wherever the pointer is.
    pub open spec fn release(self) -> Board {
        Board { can_click: true, ..self }
    }
}

} // verus!
