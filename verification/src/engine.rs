//! The grid engine: the cells of one generation, and the operations that
//! read them, edit them and advance them.

use vstd::prelude::*;
use crate::board::{in_square, lives_on, Board};
use crate::config::{MAX_SIDE, PIXEL_SIZE};
use crate::coord::Coord;
use crate::pixel::Pixel;
use crate::laws::lemma_hit_is_the_cell_under_the_pointer;
use crate::random::{alive_from_draw, random, DRAW_MAX};

verus! {

/// How the cells of a new grid are set.
#[derive(Clone, Copy, Debug, PartialEq, Eq, Structural)]
pub enum SeedPolicy {
    /// Every cell starts dead.
    Empty,
    /// Every cell starts alive with a chance of about one in three,
    /// independently of the others.
    Random,
}

/// Whether a grid can have this width and height: both positive and at most
/// `MAX_SIDE`.
pub open spec fn valid_sides(width: int, height: int) -> bool {
    0 < width <= MAX_SIDE && 0 < height <= MAX_SIDE
}

/// Whether `width` and `height` are sides that a grid can have.
pub fn sides_are_valid(width: usize, height: usize) -> (ok: bool)
    ensures
        ok == valid_sides(width as int, height as int),
{
    0 < width && width <= MAX_SIDE && 0 < height && height <= MAX_SIDE
}

/// The alive flags of stored rows of cells, row by row.
pub open spec fn cells_of(pixels: Seq<Vec<Pixel>>) -> Seq<Seq<bool>> {
    Seq::new(pixels.len(), |y: int| Seq::new(pixels[y]@.len(), |x: int| pixels[y]@[x].alive))
}

/// Whether `pixels` holds `height` rows of `width` cells each, every cell
/// with the top left corner of its square on the screen.
pub open spec fn laid_out(pixels: Seq<Vec<Pixel>>, width: int, height: int) -> bool {
    &&& pixels.len() == height
    &&& forall|y: int| 0 <= y < height ==> (#[trigger] pixels[y])@.len() == width
    &&& forall|x: int, y: int|
        0 <= x < width && 0 <= y < height ==> {
            &&& (#[trigger] pixels[y]@[x]).x == x * PIXEL_SIZE
            &&& pixels[y]@[x].y == y * PIXEL_SIZE
        }
}

/// How many of the first `n` positions in `coords` add to a neighbour count
/// on `board`.
spec fn counted_among(board: Board, coords: Seq<Coord>, n: nat) -> int
    decreases n,
{
    if n == 0 {
        0
    } else {
        counted_among(board, coords, (n - 1) as nat) + board.counted(
            coords[n - 1].x as int,
            coords[n - 1].y as int,
        )
    }
}

/// Whether a cell that is `alive` now and has `n` live neighbours is alive
/// in the next generation.
pub fn next_state(alive: bool, n: i32) -> (next: bool)
    ensures
        next == lives_on(alive, n as int),
{
    if alive {
        if n < 2 {
            // underpopulation
            false
        } else if n == 2 || n == 3 {
            true
        } else {
            // overpopulation
            false
        }
    } else {
        // reproduction
        n == 3
    }
}

/// The engine of the game: the grid of cells and the edit lock.
///
/// The grid always has at least one cell, all rows have the same length,
/// and it never changes its size.
pub struct App {
    can_click: bool,
    pixels: Vec<Vec<Pixel>>,
}

/// Flips the cell in column `x` of row `y` and leaves all else as it is.
fn flip_at(pixels: &mut Vec<Vec<Pixel>>, x: usize, y: usize)
    requires
        y < old(pixels)@.len(),
        x < old(pixels)@[y as int]@.len(),
    ensures
        final(pixels)@.len() == old(pixels)@.len(),
        forall|j: int|
            0 <= j < old(pixels)@.len() ==> (#[trigger] final(pixels)@[j])@.len() == old(
                pixels,
            )@[j]@.len(),
        forall|i: int, j: int|
            0 <= j < old(pixels)@.len() && 0 <= i < old(pixels)@[j]@.len() ==> {
                &&& (#[trigger] final(pixels)@[j]@[i]).x == old(pixels)@[j]@[i].x
                &&& final(pixels)@[j]@[i].y == old(pixels)@[j]@[i].y
                &&& final(pixels)@[j]@[i].alive == (if i == x && j == y {
                    !old(pixels)@[j]@[i].alive
                } else {
                    old(pixels)@[j]@[i].alive
                })
            },
    no_unwind
{
    let alive = pixels[y][x].alive;
    pixels[y][x].alive = !alive;
}

impl View for App {
    type V = Board;

    closed spec fn view(&self) -> Board {
        Board { can_click: self.can_click, cells: cells_of(self.pixels@) }
    }
}

impl App {
    #[verifier::type_invariant]
    spec fn inv(self) -> bool {
        &&& valid_sides(self.pixels@[0]@.len() as int, self.pixels@.len() as int)
        &&& laid_out(self.pixels@, self.pixels@[0]@.len() as int, self.pixels@.len() as int)
    }

    /// What the invariant says of the view.
    proof fn lemma_view(self)
        requires
            self.inv(),
        ensures
            self@.well_formed(),
            self@.width() == self.pixels@[0]@.len(),
            self@.height() == self.pixels@.len(),
            self@.can_click == self.can_click,
            forall|x: int, y: int|
                self@.on_grid(x, y) ==> #[trigger] self@.cells[y][x] == self.pixels@[y]@[x].alive,
    {
    }

    /// A grid of `width` by `height` cells, all dead.
    pub fn init_pixels(width: usize, height: usize) -> (pixels: Vec<Vec<Pixel>>)
        requires
            valid_sides(width as int, height as int),
        ensures
            laid_out(pixels@, width as int, height as int),
            forall|x: int, y: int|
                0 <= x < width && 0 <= y < height ==> !(#[trigger] pixels@[y]@[x]).alive,
    {
        let mut pixels: Vec<Vec<Pixel>> = Vec::new();
        for y in 0..height
            invariant
                valid_sides(width as int, height as int),
                laid_out(pixels@, width as int, y as int),
                forall|i: int, j: int|
                    0 <= i < width && 0 <= j < y ==> !(#[trigger] pixels@[j]@[i]).alive,
        {
            let mut row: Vec<Pixel> = Vec::new();
            for x in 0..width
                invariant
                    valid_sides(width as int, height as int),
                    y < height,
                    row@.len() == x,
                    forall|i: int|
                        0 <= i < x ==> {
                            &&& (#[trigger] row@[i]).x == i * PIXEL_SIZE
                            &&& row@[i].y == y * PIXEL_SIZE
                            &&& !row@[i].alive
                        },
            {
                row.push(Pixel::new(x as i64 * PIXEL_SIZE, y as i64 * PIXEL_SIZE, false));
            }
            pixels.push(row);
        }
        pixels
    }

    /// A grid of `width` by `height` cells, each alive or dead by a random
    /// draw of its own.
    pub fn init_pixels_organic(width: usize, height: usize) -> (pixels: Vec<Vec<Pixel>>)
        requires
            valid_sides(width as int, height as int),
        ensures
            laid_out(pixels@, width as int, height as int),
    {
        let mut pixels = App::init_pixels(width, height);
        for x in 0..width
            invariant
                valid_sides(width as int, height as int),
                laid_out(pixels@, width as int, height as int),
        {
            for y in 0..height
                invariant
                    valid_sides(width as int, height as int),
                    x < width,
                    laid_out(pixels@, width as int, height as int),
            {
                let alive = alive_from_draw(random(0, DRAW_MAX));
                pixels[y][x] = Pixel::new(x as i64 * PIXEL_SIZE, y as i64 * PIXEL_SIZE, alive);
            }
        }
        pixels
    }

    /// A new engine with a grid of `width` by `height` cells, seeded as
    /// `seed` says, and with the edit lock open.
    pub fn new(width: usize, height: usize, seed: SeedPolicy) -> (app: App)
        requires
            valid_sides(width as int, height as int),
        ensures
            app@.well_formed(),
            app@.width() == width,
            app@.height() == height,
            app@.can_click,
            seed == SeedPolicy::Empty ==> app@.all_dead(),
    {
        let pixels = match seed {
            SeedPolicy::Empty => App::init_pixels(width, height),
            SeedPolicy::Random => App::init_pixels_organic(width, height),
        };
        let app: App = App { can_click: true, pixels: pixels };
        proof {
            app.lemma_view();
        }
        app
    }

    /// Number of columns of the grid.
    pub fn width(&self) -> (w: usize)
        ensures
            w == self@.width(),
            self@.well_formed(),
    {
        proof {
            use_type_invariant(self);
            self.lemma_view();
        }
        self.pixels[0].len()
    }

    /// Number of rows of the grid.
    pub fn height(&self) -> (h: usize)
        ensures
            h == self@.height(),
            self@.well_formed(),
    {
        proof {
            use_type_invariant(self);
            self.lemma_view();
        }
        self.pixels.len()
    }

    /// Whether the next press of the left button may toggle a cell.
    pub fn can_click(&self) -> (open: bool)
        ensures
            open == self@.can_click,
    {
        self.can_click
    }

    /// Whether the cell in column `x` of row `y` is alive.
    pub fn pixel_alive(&self, x: usize, y: usize) -> (alive: bool)
        requires
            self@.on_grid(x as int, y as int),
        ensures
            alive == self@.cells[y as int][x as int],
    {
        proof {
            use_type_invariant(self);
            self.lemma_view();
        }
        self.pixels[y][x].alive
    }

    /// Whether `(x, y)` is a position that is looked at when neighbours are
    /// counted: on the grid, and neither in row 0 nor in column 0.
    pub fn are_valid_pixel_coords(&self, x: i32, y: i32) -> (valid: bool)
        ensures
            valid == self@.valid_coords(x as int, y as int),
    {
        let width = self.width();
        let height = self.height();
        x > 0 && x < width as i32 && y > 0 && y < height as i32
    }

    /// The neighbour count of the position `(x, y)`: how many of the eight
    /// positions around it are valid and hold a live cell.
    pub fn count_alive_surrounding_pixels(&self, x: usize, y: usize) -> (count: i32)
        ensures
            count == self@.neighbors(x as int, y as int),
            0 <= count <= 8,
    {
        if x > self.width() || y > self.height() {
            // every position around this one is off the grid
            return 0;
        }
        let mut count: i32 = 0;

        let mut coords: Vec<Coord> = Vec::new();
        let x_i32: i32 = x as i32;
        let y_i32: i32 = y as i32;
        coords.push(Coord::new(x_i32 - 1, y_i32));
        coords.push(Coord::new(x_i32 + 1, y_i32));
        coords.push(Coord::new(x_i32 - 1, y_i32 + 1));
        coords.push(Coord::new(x_i32 + 1, y_i32 + 1));
        coords.push(Coord::new(x_i32 - 1, y_i32 - 1));
        coords.push(Coord::new(x_i32 + 1, y_i32 - 1));
        coords.push(Coord::new(x_i32, y_i32 + 1));
        coords.push(Coord::new(x_i32, y_i32 - 1));

        for i in 0..coords.len()
            invariant
                count == counted_among(self@, coords@, i as nat),
                0 <= count <= i,
                coords@.len() == 8,
        {
            let coord = &coords[i];
            if self.are_valid_pixel_coords(coord.x, coord.y) {
                if self.pixel_alive(coord.x as usize, coord.y as usize) {
                    count += 1;
                }
            }
        }
        proof {
            reveal_with_fuel(counted_among, 9);
        }
        count
    }

    /// Advances the grid by one generation.
    ///
    /// Every cell follows the rule of the game with the neighbour count it
    /// had before the call: the next generation is built beside the current
    /// one and takes its place when it is complete.
    pub fn update_pixels(&mut self)
        ensures
            final(self)@ == old(self)@.step(),
    {
        let width = self.width();
        let height = self.height();
        let mut new_pixels = App::init_pixels(width, height);

        for x in 0..width
            invariant
                width == self@.width(),
                height == self@.height(),
                self@.well_formed(),
                *self == *old(self),
                laid_out(new_pixels@, width as int, height as int),
                forall|i: int, j: int|
                    0 <= i < x && 0 <= j < height ==> (#[trigger] new_pixels@[j]@[i]).alive
                        == self@.next_alive(i, j),
        {
            for y in 0..height
                invariant
                    x < width,
                    width == self@.width(),
                    height == self@.height(),
                    self@.well_formed(),
                    *self == *old(self),
                    laid_out(new_pixels@, width as int, height as int),
                    forall|i: int, j: int|
                        0 <= i < x && 0 <= j < height ==> (#[trigger] new_pixels@[j]@[i]).alive
                            == self@.next_alive(i, j),
                    forall|j: int|
                        0 <= j < y ==> (#[trigger] new_pixels@[j]@[x as int]).alive
                            == self@.next_alive(x as int, j),
            {
                let alive = self.pixel_alive(x, y);
                let n = self.count_alive_surrounding_pixels(x, y);
                new_pixels[y][x].alive = next_state(alive, n);
            }
        }
        self.pixels = new_pixels;
        proof {
            self.lemma_view();
            assert(self@.cells =~~= old(self)@.step().cells);
        }
    }

    /// The left button was pressed with the pointer at `(mouse_x, mouse_y)`.
    ///
    /// While the edit lock is open, the cell whose square holds the pointer
    /// is flipped and the lock closes. If the lock is closed, or the pointer
    /// is over no cell, nothing changes.
    pub fn mouse_left_clicked(&mut self, mouse_x: i64, mouse_y: i64)
        ensures
            final(self)@ == old(self)@.toggle(mouse_x as int, mouse_y as int),
    {
        if !self.can_click {
            return;
        }
        let width = self.width();
        let height = self.height();
        proof {
            use_type_invariant(&*self);
            self.lemma_view();
        }
        for x in 0..width
            invariant
                *self == *old(self),
                self.can_click,
                self.inv(),
                width == self@.width(),
                height == self@.height(),
                forall|i: int, j: int|
                    0 <= i < x && 0 <= j < height ==> !in_square(
                        i,
                        j,
                        mouse_x as int,
                        mouse_y as int,
                    ),
        {
            for y in 0..height
                invariant
                    x < width,
                    *self == *old(self),
                    self.can_click,
                    self.inv(),
                    width == self@.width(),
                    height == self@.height(),
                    forall|i: int, j: int|
                        0 <= i < x && 0 <= j < height ==> !in_square(
                            i,
                            j,
                            mouse_x as int,
                            mouse_y as int,
                        ),
                    forall|j: int|
                        0 <= j < y ==> !in_square(
                            x as int,
                            j,
                            mouse_x as int,
                            mouse_y as int,
                        ),
            {
                proof {
                    self.lemma_view();
                }
                let pixel = &self.pixels[y][x];
                if pixel.x <= mouse_x && pixel.x + PIXEL_SIZE > mouse_x && pixel.y <= mouse_y
                    && pixel.y + PIXEL_SIZE > mouse_y {
                    flip_at(&mut self.pixels, x, y);
                    self.can_click = false;
                    proof {
                        self.lemma_view();
                        lemma_hit_is_the_cell_under_the_pointer(
                            old(self)@,
                            x as int,
                            y as int,
                            mouse_x as int,
                            mouse_y as int,
                        );
                        assert(self@.cells =~~= old(self)@.flip(x as int, y as int).cells);
                    }
                    return;
                }
            }
        }
        proof {
            if let Some((x, y)) = self@.hit(mouse_x as int, mouse_y as int) {
                lemma_hit_is_the_cell_under_the_pointer(
                    self@,
                    x,
                    y,
                    mouse_x as int,
                    mouse_y as int,
                );
            }
        }
    }

    /// The left button was released: the edit lock opens again, wherever
    /// the pointer `(x, y)` is.
    #[allow(unused_variables)]
    pub fn mouse_left_released(&mut self, x: i64, y: i64)
        ensures
            final(self)@ == old(self)@.release(),
    {
        proof {
            use_type_invariant(&*self);
        }
        self.can_click = true;
    }

    /// The cells, row by row, for whoever draws them.
    pub fn pixels(&self) -> (pixels: &Vec<Vec<Pixel>>)
        ensures
            laid_out(pixels@, self@.width(), self@.height()),
            cells_of(pixels@) == self@.cells,
    {
        proof {
            use_type_invariant(self);
            self.lemma_view();
        }
        &self.pixels
    }
}

} // verus!
